//! Text as sequences of characters: white space, trimming and decimal numbers.

use vstd::prelude::*;

verus! {

/// `String::push` of std appends one character to the end of the string.
pub assume_specification[ String::push ](s: &mut String, ch: char)
    ensures
        final(s)@ == old(s)@.push(ch),
;

/// The characters with the Unicode property White_Space.
pub open spec fn is_whitespace(c: char) -> bool {
    let n = c as u32;
    ||| 0x09 <= n <= 0x0D
    ||| n == 0x20
    ||| n == 0x85
    ||| n == 0xA0
    ||| n == 0x1680
    ||| 0x2000 <= n <= 0x200A
    ||| n == 0x2028
    ||| n == 0x2029
    ||| n == 0x202F
    ||| n == 0x205F
    ||| n == 0x3000
}

/// Tells whether `c` is white space.
pub fn char_is_whitespace(c: char) -> (b: bool)
    ensures
        b == is_whitespace(c),
{
    let n: u32 = c as u32;
    (0x09 <= n && n <= 0x0D) || n == 0x20 || n == 0x85 || n == 0xA0 || n == 0x1680 || (0x2000 <= n
        && n <= 0x200A) || n == 0x2028 || n == 0x2029 || n == 0x202F || n == 0x205F || n == 0x3000
}

/// The characters of `s`, one element for each.
pub fn chars_of(s: &str) -> (v: Vec<char>)
    ensures
        v@ == s@,
{
    let mut v: Vec<char> = Vec::new();
    for c in it: s.chars()
        invariant
            it.seq() == s@,
            v@ == it.seq().take(it.index() as int),
    {
        v.push(c);
    }
    v
}

/// The string made of the characters of `chars`, in order.
pub fn string_of(chars: &Vec<char>) -> (s: String)
    ensures
        s@ == chars@,
{
    let mut s = String::new();
    let mut i: usize = 0;
    while i < chars.len()
        invariant
            i <= chars.len(),
            s@ == chars@.take(i as int),
        decreases chars.len() - i,
    {
        s.push(chars[i]);
        i += 1;
    }
    s
}

/// Tells whether the part of `hay` from `from` up to `to` is `needle`.
pub(crate) fn range_is(hay: &Vec<char>, from: usize, to: usize, needle: &Vec<char>) -> (b: bool)
    requires
        from <= to <= hay.len(),
    ensures
        b == (hay@.subrange(from as int, to as int) == needle@),
{
    if to - from != needle.len() {
        return false;
    }
    let ghost part = hay@.subrange(from as int, to as int);
    let mut k: usize = 0;
    while k < needle.len()
        invariant
            from <= to <= hay.len(),
            to - from == needle.len(),
            k <= needle.len(),
            part == hay@.subrange(from as int, to as int),
            forall|j: int| 0 <= j < k ==> part[j] == needle@[j],
        decreases needle.len() - k,
    {
        if hay[from + k] != needle[k] {
            return false;
        }
        k += 1;
    }
    assert(part =~= needle@);
    true
}

/// Tells whether `a` and `b` are the same text.
pub fn same_text(a: &str, b: &str) -> (same: bool)
    ensures
        same == (a@ == b@),
{
    let x = chars_of(a);
    let y = chars_of(b);
    proof {
        assert(x@.subrange(0, x@.len() as int) =~= x@);
    }
    range_is(&x, 0, x.len(), &y)
}

/// Every character of `s` is white space (so is the empty text).
pub open spec fn is_blank(s: Seq<char>) -> bool {
    forall|i: int| 0 <= i < s.len() ==> is_whitespace(#[trigger] s[i])
}

/// The first index at or after `i` that holds no white space, or the length of `s`.
pub open spec fn solid_from(s: Seq<char>, i: int) -> int
    decreases s.len() - i,
{
    if 0 <= i < s.len() && is_whitespace(s[i]) {
        solid_from(s, i + 1)
    } else {
        i
    }
}

/// The end of the last run of characters before `j` that are no white space: the
/// least `k` such that everything in `k..j` is white space.
pub open spec fn solid_until(s: Seq<char>, j: int) -> int
    decreases j,
{
    if 0 < j <= s.len() && is_whitespace(s[j - 1]) {
        solid_until(s, j - 1)
    } else {
        j
    }
}

/// `s` without the white space at its two ends.
pub open spec fn trimmed(s: Seq<char>) -> Seq<char> {
    let from = solid_from(s, 0);
    let to = solid_until(s, s.len() as int);
    if from < to {
        s.subrange(from, to)
    } else {
        Seq::empty()
    }
}

/// What `solid_from` finds: everything between `i` and the result is white space,
/// and the result, if inside `s`, holds none.
pub proof fn lemma_solid_from(s: Seq<char>, i: int)
    requires
        0 <= i <= s.len(),
    ensures
        i <= solid_from(s, i) <= s.len(),
        forall|k: int| i <= k < solid_from(s, i) ==> is_whitespace(#[trigger] s[k]),
        solid_from(s, i) < s.len() ==> !is_whitespace(s[solid_from(s, i)]),
    decreases s.len() - i,
{
    if i < s.len() && is_whitespace(s[i]) {
        lemma_solid_from(s, i + 1);
    }
}

/// What `solid_until` finds: everything between the result and `j` is white space,
/// and the character before the result, if there is one, is none.
pub proof fn lemma_solid_until(s: Seq<char>, j: int)
    requires
        0 <= j <= s.len(),
    ensures
        0 <= solid_until(s, j) <= j,
        forall|k: int| solid_until(s, j) <= k < j ==> is_whitespace(#[trigger] s[k]),
        solid_until(s, j) > 0 ==> !is_whitespace(s[solid_until(s, j) - 1]),
    decreases j,
{
    if 0 < j && is_whitespace(s[j - 1]) {
        lemma_solid_until(s, j - 1);
    }
}

/// Trimming leaves nothing exactly when the text is blank; otherwise what is left
/// starts and ends with a character that is no white space, and what was cut off
/// is white space.
pub proof fn lemma_trimmed(s: Seq<char>)
    ensures
        trimmed(s).len() == 0 <==> is_blank(s),
        trimmed(s).len() > 0 ==> !is_whitespace(trimmed(s).first()) && !is_whitespace(
            trimmed(s).last(),
        ),
        trimmed(s).len() > 0 ==> s == s.take(solid_from(s, 0)) + trimmed(s) + s.skip(
            solid_until(s, s.len() as int),
        ),
        is_blank(s.take(solid_from(s, 0))),
        is_blank(s.skip(solid_until(s, s.len() as int))),
{
    let from = solid_from(s, 0);
    let to = solid_until(s, s.len() as int);
    lemma_solid_from(s, 0);
    lemma_solid_until(s, s.len() as int);
    if from < to {
        assert(!is_whitespace(s[from]));
    }
}

/// Tells whether `s` holds nothing but white space.
pub fn is_blank_text(s: &str) -> (b: bool)
    ensures
        b == is_blank(s@),
{
    let mut blank = true;
    for c in it: s.chars()
        invariant
            it.seq() == s@,
            blank == is_blank(s@.take(it.index() as int)),
    {
        proof {
            let k = it.index() as int;
            if !is_blank(s@.take(k)) {
                let i = choose|i: int| 0 <= i < k && !is_whitespace(#[trigger] s@.take(k)[i]);
                assert(s@.take(k + 1)[i] == s@.take(k)[i]);
            } else if is_whitespace(c) {
                assert forall|i: int| 0 <= i < k + 1 implies is_whitespace(
                    #[trigger] s@.take(k + 1)[i],
                ) by {
                    if i < k {
                        assert(s@.take(k + 1)[i] == s@.take(k)[i]);
                    }
                }
            } else {
                assert(s@.take(k + 1)[k] == c);
            }
        }
        blank = blank && char_is_whitespace(c);
    }
    proof {
        assert(s@.take(s@.len() as int) =~= s@);
    }
    blank
}

/// `s` without the white space at its two ends, as a new string.
pub fn trim(s: &str) -> (t: String)
    ensures
        t@ == trimmed(s@),
{
    let chars = chars_of(s);
    let n = chars.len();
    let mut from: usize = 0;
    while from < n && char_is_whitespace(chars[from])
        invariant
            n == chars.len(),
            from <= n,
            solid_from(chars@, 0) == solid_from(chars@, from as int),
        decreases n - from,
    {
        from += 1;
    }
    let mut to: usize = n;
    while to > 0 && char_is_whitespace(chars[to - 1])
        invariant
            n == chars.len(),
            to <= n,
            solid_until(chars@, n as int) == solid_until(chars@, to as int),
        decreases to,
    {
        to -= 1;
    }
    let mut t = String::new();
    if from < to {
        let mut i: usize = from;
        while i < to
            invariant
                from <= i <= to <= chars.len(),
                t@ == chars@.subrange(from as int, i as int),
            decreases to - i,
        {
            t.push(chars[i]);
            i += 1;
        }
    }
    t
}

/// The character that stands for the digit `d`, for `d` below ten.
pub open spec fn digit(d: nat) -> char {
    (0x30 + d) as char
}

/// `n` written in base ten: no sign, and no leading zero but for zero itself.
pub open spec fn decimal(n: nat) -> Seq<char>
    decreases n,
{
    if n < 10 {
        seq![digit(n)]
    } else {
        decimal(n / 10).push(digit(n % 10))
    }
}

fn digit_char(d: u8) -> (c: char)
    requires
        d < 10,
    ensures
        c == digit(d as nat),
{
    (0x30u8 + d) as char
}

/// `n` written in base ten.
pub fn decimal_string(n: u64) -> (s: String)
    ensures
        s@ == decimal(n as nat),
{
    let mut low_first: Vec<char> = Vec::new();
    low_first.push(digit_char((n % 10) as u8));
    let mut rest: u64 = n / 10;
    while rest > 0
        invariant
            rest > 0 ==> decimal(n as nat) == decimal(rest as nat) + low_first@.reverse(),
            rest == 0 ==> decimal(n as nat) == low_first@.reverse(),
        decreases rest,
    {
        let ghost before = low_first@;
        let ghost whole = rest;
        low_first.push(digit_char((rest % 10) as u8));
        rest = rest / 10;
        proof {
            let d = digit((whole % 10) as nat);
            assert(before.push(d).reverse() =~= seq![d] + before.reverse());
        }
    }
    let mut s = String::new();
    let mut i: usize = low_first.len();
    while i > 0
        invariant
            i <= low_first.len(),
            s@ == low_first@.reverse().take(low_first.len() - i),
        decreases i,
    {
        i -= 1;
        s.push(low_first[i]);
    }
    s
}

} // verus!
