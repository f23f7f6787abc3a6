//! How the managed process is started: the program, its arguments, its working
//! directory and the search path that it inherits.

use crate::paths::{bin_dir, bin_dir_in, config_path_in, default_config_path};
use crate::text::{chars_of, range_is};
use vstd::prelude::*;

verus! {

/// The end of the run of characters other than `:` that starts at `i`.
pub open spec fn segment_end(list: Seq<char>, i: int) -> int
    decreases list.len() - i,
{
    if 0 <= i < list.len() && list[i] != ':' {
        segment_end(list, i + 1)
    } else {
        i
    }
}

/// An entry of a `:`-separated list starts at `i`: at the start of the list and
/// after each `:`.
pub open spec fn starts_segment(list: Seq<char>, i: int) -> bool {
    0 <= i <= list.len() && (i == 0 || list[i - 1] == ':')
}

/// The entry that starts at `i`.
pub open spec fn segment_at(list: Seq<char>, i: int) -> Seq<char> {
    list.subrange(i, segment_end(list, i))
}

/// `entry` is one of the entries of the `:`-separated `list`. The empty list has
/// one entry, the empty one.
pub open spec fn has_entry(list: Seq<char>, entry: Seq<char>) -> bool {
    exists|i: int| starts_segment(list, i) && #[trigger] segment_at(list, i) == entry
}

/// `list` with `entry` put in front, unless it is among the entries already.
pub open spec fn search_path_with(list: Seq<char>, entry: Seq<char>) -> Seq<char> {
    if has_entry(list, entry) {
        list
    } else {
        entry.push(':') + list
    }
}

/// Where `segment_end` stops: inside the list only at a `:`, with none before it.
pub proof fn lemma_segment_end(list: Seq<char>, i: int)
    requires
        0 <= i <= list.len(),
    ensures
        i <= segment_end(list, i) <= list.len(),
        forall|k: int| i <= k < segment_end(list, i) ==> list[k] != ':',
        segment_end(list, i) < list.len() ==> list[segment_end(list, i)] == ':',
    decreases list.len() - i,
{
    if i < list.len() && list[i] != ':' {
        lemma_segment_end(list, i + 1);
    }
}

/// Tells whether `entry` is one of the entries of the `:`-separated `list`.
pub fn has_path_entry(list: &str, entry: &str) -> (found: bool)
    ensures
        found == has_entry(list@, entry@),
{
    let l = chars_of(list);
    let e = chars_of(entry);
    let n = l.len();
    let mut start: usize = 0;
    loop
        invariant
            n == l.len(),
            l@ == list@,
            e@ == entry@,
            starts_segment(l@, start as int),
            forall|k: int| starts_segment(l@, k) && k < start ==> segment_at(l@, k) != e@,
        decreases n - start,
    {
        let mut end: usize = start;
        while end < n && l[end] != ':'
            invariant
                n == l.len(),
                start <= end <= n,
                segment_end(l@, start as int) == segment_end(l@, end as int),
            decreases n - end,
        {
            end += 1;
        }
        proof {
            lemma_segment_end(l@, start as int);
        }
        if range_is(&l, start, end, &e) {
            assert(segment_at(l@, start as int) == e@);
            return true;
        }
        if end == n {
            return false;
        }
        start = end + 1;
    }
}

/// The search path for the managed process: `inherited` with `entry` in front,
/// unless `entry` is in it already.
pub fn search_path(inherited: &str, entry: &str) -> (path: String)
    ensures
        path@ == search_path_with(inherited@, entry@),
{
    if has_path_entry(inherited, entry) {
        String::from_str(inherited)
    } else {
        let mut path = String::from_str(entry);
        path.push(':');
        path.append(inherited);
        path
    }
}

proof fn lemma_segment_end_of_front(entry: Seq<char>, list: Seq<char>, i: int)
    requires
        0 <= i <= entry.len(),
        forall|k: int| 0 <= k < entry.len() ==> entry[k] != ':',
    ensures
        segment_end(entry.push(':') + list, i) == entry.len(),
    decreases entry.len() - i,
{
    if i < entry.len() {
        lemma_segment_end_of_front(entry, list, i + 1);
    }
}

/// The search path holds the entry afterwards, and a second pass changes
/// nothing: an entry is never put in front twice. This is said of an entry
/// without `:` in it; one with a `:` is never found among the entries.
pub proof fn law_search_path_is_deduplicated(list: Seq<char>, entry: Seq<char>)
    requires
        forall|k: int| 0 <= k < entry.len() ==> entry[k] != ':',
    ensures
        has_entry(search_path_with(list, entry), entry),
        search_path_with(search_path_with(list, entry), entry) == search_path_with(list, entry),
{
    if !has_entry(list, entry) {
        let whole = entry.push(':') + list;
        lemma_segment_end_of_front(entry, list, 0);
        assert(segment_at(whole, 0) =~= entry);
    }
}

/// What stands for `c` inside a double-quoted script: a backslash goes before
/// each double quote.
pub open spec fn escaped_char(c: char) -> Seq<char> {
    if c == '"' {
        seq!['\\', '"']
    } else {
        seq![c]
    }
}

/// `s` with a backslash before each double quote.
pub open spec fn escaped(s: Seq<char>) -> Seq<char>
    decreases s.len(),
{
    if s.len() == 0 {
        Seq::empty()
    } else {
        escaped(s.drop_last()) + escaped_char(s.last())
    }
}

/// The shell command that runs `program` on the configuration file `config`,
/// each of the two in double quotes.
pub open spec fn shell_command(program: Seq<char>, config: Seq<char>) -> Seq<char> {
    "\""@ + program + "\" -config \""@ + config + "\""@
}

/// The script that asks for administrator privileges and then runs `program` on
/// the configuration file `config`.
pub open spec fn elevation_script_of(program: Seq<char>, config: Seq<char>) -> Seq<char> {
    "do shell script \""@ + escaped(shell_command(program, config))
        + "\" with administrator privileges"@
}

/// `s` with a backslash before each double quote.
pub fn escape_quotes(s: &str) -> (e: String)
    ensures
        e@ == escaped(s@),
{
    let mut e = String::new();
    for c in it: s.chars()
        invariant
            it.seq() == s@,
            e@ == escaped(s@.take(it.index() as int)),
    {
        proof {
            let k = it.index() as int;
            assert(s@.take(k + 1).drop_last() =~= s@.take(k));
        }
        if c == '"' {
            e.push('\\');
            e.push('"');
        } else {
            e.push(c);
        }
    }
    proof {
        assert(s@.take(s@.len() as int) =~= s@);
    }
    e
}

/// The script that asks for administrator privileges and then runs `program` on
/// the configuration file `config`.
pub fn elevation_script(program: &str, config: &str) -> (script: String)
    ensures
        script@ == elevation_script_of(program@, config@),
{
    let mut command = String::from_str("\"");
    command.append(program);
    command.append("\" -config \"");
    command.append(config);
    command.append("\"");
    let quoted = escape_quotes(command.as_str());
    let mut script = String::from_str("do shell script \"");
    script.append(quoted.as_str());
    script.append("\" with administrator privileges");
    script
}

/// The way the managed process is launched: directly, or through the system's
/// prompt for administrator privileges.
#[derive(Clone, Copy, Debug, PartialEq, Eq, Structural)]
pub enum Launcher {
    Direct,
    Elevated,
}

/// All that is needed to start the managed process.
#[derive(Debug)]
pub struct Invocation {
    pub program: String,
    pub args: Vec<String>,
    pub working_dir: String,
    pub search_path: String,
}

/// An `Invocation` as plain text.
pub struct InvocationView {
    pub program: Seq<char>,
    pub args: Seq<Seq<char>>,
    pub working_dir: Seq<char>,
    pub search_path: Seq<char>,
}

impl View for Invocation {
    type V = InvocationView;

    open spec fn view(&self) -> InvocationView {
        InvocationView {
            program: self.program@,
            args: self.args.deep_view(),
            working_dir: self.working_dir@,
            search_path: self.search_path@,
        }
    }
}

/// The invocation of the executable `program` for the application directory
/// `app_dir`: it runs on the configuration file of that directory, in that
/// directory, with the directory's `bin` in front of the search path `inherited`
/// (once). An elevated launch hands the command to `/usr/bin/osascript` as a
/// script.
pub open spec fn invocation_of(
    launcher: Launcher,
    program: Seq<char>,
    app_dir: Seq<char>,
    inherited: Seq<char>,
) -> InvocationView {
    InvocationView {
        program: match launcher {
            Launcher::Direct => program,
            Launcher::Elevated => "/usr/bin/osascript"@,
        },
        args: match launcher {
            Launcher::Direct => seq!["-config"@, config_path_in(app_dir)],
            Launcher::Elevated => seq![
                "-e"@,
                elevation_script_of(program, config_path_in(app_dir)),
            ],
        },
        working_dir: app_dir,
        search_path: search_path_with(inherited, bin_dir_in(app_dir)),
    }
}

/// Builds the invocation of the executable `program` for the application
/// directory `app_dir`, where `inherited` is the search path of this process.
pub fn build_invocation(launcher: Launcher, program: &str, app_dir: &str, inherited: &str) -> (inv:
    Invocation)
    ensures
        inv@ == invocation_of(launcher, program@, app_dir@, inherited@),
{
    let config = default_config_path(app_dir);
    let bin = bin_dir(app_dir);
    let mut args: Vec<String> = Vec::new();
    let exe = match launcher {
        Launcher::Direct => {
            args.push(String::from_str("-config"));
            args.push(config);
            String::from_str(program)
        },
        Launcher::Elevated => {
            args.push(String::from_str("-e"));
            args.push(elevation_script(program, config.as_str()));
            String::from_str("/usr/bin/osascript")
        },
    };
    let inv = Invocation {
        program: exe,
        args,
        working_dir: String::from_str(app_dir),
        search_path: search_path(inherited, bin.as_str()),
    };
    proof {
        assert(inv@.args =~= invocation_of(launcher, program@, app_dir@, inherited@).args);
    }
    inv
}

/// One of the two output streams of the managed process.
#[derive(Clone, Copy, Debug, PartialEq, Eq, Structural)]
pub enum OutputStream {
    Stdout,
    Stderr,
}

/// A line of output of the managed process as it goes to the log: the line
/// behind the tag of its stream.
pub open spec fn tagged_line(stream: OutputStream, line: Seq<char>) -> Seq<char> {
    match stream {
        OutputStream::Stdout => "[nebula stdout] "@ + line,
        OutputStream::Stderr => "[nebula stderr] "@ + line,
    }
}

/// The log record for one line of output of the managed process.
pub fn stream_line(stream: OutputStream, line: &str) -> (record: String)
    ensures
        record@ == tagged_line(stream, line@),
{
    let mut record = match stream {
        OutputStream::Stdout => String::from_str("[nebula stdout] "),
        OutputStream::Stderr => String::from_str("[nebula stderr] "),
    };
    record.append(line);
    record
}

} // verus!
