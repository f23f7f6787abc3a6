//! The health prober: on each tick it measures the round-trip time to the
//! configured host, but only while the managed process runs.

use crate::supervisor::SupervisorState;
use crate::text::{chars_of, char_is_whitespace, is_whitespace, range_is, string_of};
use vstd::prelude::*;

verus! {

/// The seconds between two ticks of the prober.
pub const PROBE_PERIOD_SECS: u64 = 5;

/// What a tick of the prober has to do.
#[derive(Clone, Copy, Debug, PartialEq, Eq, Structural)]
pub enum ProbePlan {
    /// No process runs: no probe is sent.
    Skip,
    /// A process runs: one probe is sent to the configured host.
    Probe,
}

/// The plan of a tick, by whether a process runs.
pub open spec fn plan_for(running: bool) -> ProbePlan {
    if running {
        ProbePlan::Probe
    } else {
        ProbePlan::Skip
    }
}

/// The round-trip time that a tick records: zero when no probe was sent, or the
/// probe failed, or its answer could not be read; else what was measured.
pub open spec fn latency_of(plan: ProbePlan, measured: Option<u64>) -> u64 {
    match plan {
        ProbePlan::Skip => 0,
        ProbePlan::Probe => match measured {
            Some(ms) => ms,
            None => 0,
        },
    }
}

/// Decides at the start of a tick whether a probe is sent.
pub fn plan_probe<H>(state: &SupervisorState<H>) -> (plan: ProbePlan)
    ensures
        plan == plan_for(state.running()),
{
    if state.is_running() {
        ProbePlan::Probe
    } else {
        ProbePlan::Skip
    }
}

/// The round-trip time that a tick with this plan records, where `measured` is
/// what the probe gave, if one was sent and understood.
pub fn tick_latency(plan: ProbePlan, measured: Option<u64>) -> (ms: u64)
    ensures
        ms == latency_of(plan, measured),
{
    match plan {
        ProbePlan::Skip => 0,
        ProbePlan::Probe => match measured {
            Some(ms) => ms,
            None => 0,
        },
    }
}

/// Ends a tick: records the round-trip time in the supervisor's record and
/// leaves the process handle alone.
pub fn finish_tick<H>(state: &mut SupervisorState<H>, plan: ProbePlan, measured: Option<u64>)
    ensures
        final(state).last_latency_ms == latency_of(plan, measured),
        final(state).child == old(state).child,
{
    state.record_latency(tick_latency(plan, measured));
}

/// A tick that starts while no process runs records zero, whatever a probe
/// would have measured and whichever host is configured: the host is not even
/// looked at.
pub proof fn law_idle_tick_records_zero<H>(state: SupervisorState<H>, measured: Option<u64>)
    requires
        !state.running(),
    ensures
        plan_for(state.running()) == ProbePlan::Skip,
        latency_of(plan_for(state.running()), measured) == 0,
{
}

/// The arguments of the probe command for `host`: one echo request.
pub fn ping_args(host: &str) -> (args: Vec<String>)
    ensures
        args.deep_view() == seq!["-c"@, "1"@, host@],
{
    let mut args: Vec<String> = Vec::new();
    args.push(String::from_str("-c"));
    args.push(String::from_str("1"));
    args.push(String::from_str(host));
    args
}

/// What a reading of the round-trip time starts with.
pub open spec fn reading_mark() -> Seq<char> {
    "time="@
}

/// The end of the word that `i` is in: the first white space at or after `i`,
/// or the end of the text.
pub open spec fn word_end(s: Seq<char>, i: int) -> int
    decreases s.len() - i,
{
    if 0 <= i < s.len() && !is_whitespace(s[i]) {
        word_end(s, i + 1)
    } else {
        i
    }
}

/// A word starts at `i`.
pub open spec fn starts_word(s: Seq<char>, i: int) -> bool {
    0 <= i < s.len() && !is_whitespace(s[i]) && (i == 0 || is_whitespace(s[i - 1]))
}

/// The word that starts at `i` is a reading: it begins with the mark.
pub open spec fn is_reading(s: Seq<char>, i: int) -> bool {
    starts_word(s, i) && reading_mark().is_prefix_of(s.subrange(i, word_end(s, i)))
}

/// The start of the first reading at or after `i`, if there is one.
pub open spec fn first_reading(s: Seq<char>, i: int) -> Option<int>
    decreases s.len() - i,
{
    if i < 0 || i >= s.len() {
        None
    } else if is_reading(s, i) {
        Some(i)
    } else {
        first_reading(s, i + 1)
    }
}

/// The end of the number that starts at `j`: the first `m`, `s` or white space
/// at or after `j`, or the end of the text.
pub open spec fn number_end(s: Seq<char>, j: int) -> int
    decreases s.len() - j,
{
    if 0 <= j < s.len() && !is_whitespace(s[j]) && s[j] != 'm' && s[j] != 's' {
        number_end(s, j + 1)
    } else {
        j
    }
}

/// The number in the first reading of the probe's output: what stands between
/// the mark and the unit in the first word that begins with the mark. Later
/// readings are not looked at.
pub open spec fn latency_text_of(output: Seq<char>) -> Option<Seq<char>> {
    match first_reading(output, 0) {
        Some(i) => Some(
            output.subrange(
                i + reading_mark().len(),
                number_end(output, i + reading_mark().len()),
            ),
        ),
        None => None,
    }
}

/// Finds the number in the first reading of the probe's output. The text still
/// has to be read as a number by the caller.
pub fn latency_text(output: &str) -> (text: Option<String>)
    ensures
        match text {
            Some(t) => latency_text_of(output@) == Some(t@),
            None => latency_text_of(output@) is None,
        },
{
    let v = chars_of(output);
    let mark = chars_of("time=");
    let n = v.len();
    let m = mark.len();
    let mut i: usize = 0;
    while i < n
        invariant
            n == v.len(),
            m == mark.len(),
            v@ == output@,
            mark@ == reading_mark(),
            i <= n,
            first_reading(v@, 0) == first_reading(v@, i as int),
        decreases n - i,
    {
        if !char_is_whitespace(v[i]) && (i == 0 || char_is_whitespace(v[i - 1])) {
            let mut end: usize = i;
            while end < n && !char_is_whitespace(v[end])
                invariant
                    n == v.len(),
                    i <= end <= n,
                    word_end(v@, i as int) == word_end(v@, end as int),
                decreases n - end,
            {
                end += 1;
            }
            if end - i >= m && range_is(&v, i, i + m, &mark) {
                let from: usize = i + m;
                let mut to: usize = from;
                while to < n && !char_is_whitespace(v[to]) && v[to] != 'm' && v[to] != 's'
                    invariant
                        n == v.len(),
                        from <= to <= n,
                        number_end(v@, from as int) == number_end(v@, to as int),
                    decreases n - to,
                {
                    to += 1;
                }
                let mut digits: Vec<char> = Vec::new();
                let mut k: usize = from;
                while k < to
                    invariant
                        from <= k <= to <= v.len(),
                        digits@ == v@.subrange(from as int, k as int),
                    decreases to - k,
                {
                    digits.push(v[k]);
                    k += 1;
                }
                return Some(string_of(&digits));
            }
            proof {
                if is_reading(v@, i as int) {
                    let word = v@.subrange(i as int, end as int);
                    assert(word.subrange(0, m as int) =~= v@.subrange(i as int, i + m));
                }
            }
        }
        i += 1;
    }
    None
}

} // verus!
