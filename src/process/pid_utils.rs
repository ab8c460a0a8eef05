//! The PID marker file: where it lives, what it holds, and the decisions of
//! reading it and of deleting it only while it is still ours.
//!
//! The file operations themselves (exists, open, read, create, write,
//! remove) are the caller's; they hand this module what they saw.

use crate::process::pid_error::PidError;
use crate::text::{
    all_digits, chars_of, decimal, decimal_string, first_line, first_line_of, is_digit,
    index_from, last_index_of, lemma_decimal, parse_i32, parse_i32_spec, str_eq, trim, trim_back, trim_front,
    trimmed,
};
use vstd::prelude::*;
use vstd::string::*;

verus! {

/// `s` without trailing `/` and `/.` components, which do not name a file.
pub open spec fn path_base(s: Seq<char>) -> Seq<char>
    decreases s.len(),
{
    if s.len() > 0 && s.last() == '/' {
        path_base(s.drop_last())
    } else if s.len() >= 2 && s.last() == '.' && s[s.len() - 2] == '/' {
        path_base(s.drop_last())
    } else {
        s
    }
}

/// Where the last component of `s` starts: just after its last `/`, or 0.
pub open spec fn name_start(s: Seq<char>) -> int
    decreases s.len(),
{
    if s.len() == 0 {
        0
    } else if s.last() == '/' {
        s.len() as int
    } else {
        name_start(s.drop_last())
    }
}

/// Length of a file name's stem: up to its last `.`, unless that dot leads
/// the name or there is none.
pub open spec fn stem_len(name: Seq<char>) -> int {
    if last_index_of(name, '.') <= 0 {
        name.len() as int
    } else {
        last_index_of(name, '.')
    }
}

/// The marker path for `s`: its file name's extension replaced by (or,
/// where it has none, extended with) `pid`. A path that names no file (empty,
/// `/`, `.` or ending in `..`) is kept as it is.
pub open spec fn pid_file_path_of(s: Seq<char>) -> Seq<char> {
    let base = path_base(s);
    let st = name_start(base);
    let name = base.subrange(st, base.len() as int);
    if name.len() == 0 || name == "."@ || name == ".."@ {
        s
    } else {
        s.subrange(0, st + stem_len(name)) + ".pid"@
    }
}

/// The PID marker path that belongs to the application file `app_file_path`.
pub fn get_pid_file_path(app_file_path: &str) -> (r: String)
    ensures
        r@ == pid_file_path_of(app_file_path@),
{
    let ghost s = app_file_path@;
    let c = chars_of(app_file_path);
    let n = c.len();
    let mut end: usize = n;
    assert(s.subrange(0, n as int) =~= s);
    while end > 0 && (c[end - 1] == '/' || (end >= 2 && c[end - 1] == '.' && c[end - 2] == '/'))
        invariant
            c@ == s,
            n == c.len(),
            end <= n,
            path_base(s) == path_base(s.subrange(0, end as int)),
        decreases end,
    {
        assert(s.subrange(0, end as int).drop_last() =~= s.subrange(0, end - 1));
        end -= 1;
    }
    let ghost base = s.subrange(0, end as int);
    assert(path_base(s) == base);
    let mut start: usize = end;
    assert(base.subrange(0, end as int) =~= base);
    while start > 0 && c[start - 1] != '/'
        invariant
            c@ == s,
            n == c.len(),
            start <= end <= n,
            base == s.subrange(0, end as int),
            name_start(base) == name_start(base.subrange(0, start as int)),
            forall|k: int| start <= k < end ==> c@[k] != '/',
        decreases start,
    {
        assert(base.subrange(0, start as int).drop_last() =~= base.subrange(0, start - 1));
        start -= 1;
    }
    assert(name_start(base) == start);
    let ghost name = base.subrange(start as int, end as int);
    let name_str = app_file_path.substring_char(start, end);
    assert(name_str@ =~= name);
    if start == end || str_eq(name_str, ".") || str_eq(name_str, "..") {
        return String::from_str(app_file_path);
    }
    let mut dot: usize = end;
    assert(name.subrange(0, (end - start) as int) =~= name);
    while dot > start && c[dot - 1] != '.'
        invariant
            c@ == s,
            n == c.len(),
            start <= dot <= end <= n,
            name == s.subrange(start as int, end as int),
            last_index_of(name, '.') == last_index_of(name.subrange(0, (dot - start) as int), '.'),
        decreases dot,
    {
        assert(name.subrange(0, (dot - start) as int).drop_last() =~= name.subrange(
            0,
            (dot - 1 - start) as int,
        ));
        dot -= 1;
    }
    assert(dot > start ==> name.subrange(0, (dot - start) as int).last() == '.');
    assert(dot == start ==> last_index_of(name.subrange(0, 0), '.') == -1);
    let stem_end: usize = if dot > start + 1 {
        dot - 1
    } else {
        end
    };
    assert(stem_end == start + stem_len(name));
    let mut r = String::from_str(app_file_path.substring_char(0, stem_end));
    r.append(".pid");
    r
}

/// What a PID file holds for `pid`: its decimal text, no newline.
pub open spec fn pid_text(pid: u32) -> Seq<char> {
    decimal(pid as nat)
}

/// The text to write into a PID file for `pid`.
pub fn pid_file_content(pid: u32) -> (r: String)
    ensures
        r@ == pid_text(pid),
{
    decimal_string(pid as u64)
}

/// The pid that file text records: its first line, trimmed, read as `i32`.
pub open spec fn recorded_pid(content: Seq<char>) -> Option<i32> {
    match first_line(content) {
        Some(l) => parse_i32_spec(trimmed(l)),
        None => None,
    }
}

/// Reads the pid that the text of the PID file at `path` records. Text with
/// no line fails with `ReadPidFile`; a first line that is not an `i32`
/// once trimmed fails with `ParsePidFileContent`.
pub fn parse_pid_file_content(path: &str, content: &str) -> (r: Result<i32, PidError>)
    ensures
        first_line(content@) is None ==> (r matches Err(PidError::ReadPidFile(p)) && p@ == path@),
        first_line(content@) is Some ==> match recorded_pid(content@) {
            Some(v) => r == Ok::<i32, PidError>(v),
            None => r matches Err(PidError::ParsePidFileContent(p)) && p@ == path@,
        },
{
    match first_line_of(content) {
        None => Err(PidError::ReadPidFile(String::from_str(path))),
        Some(line) => match parse_i32(trim(line)) {
            Some(v) => Ok(v),
            None => Err(PidError::ParsePidFileContent(String::from_str(path))),
        },
    }
}

/// What the caller found at a PID file's path.
#[derive(Debug, Clone, PartialEq, Eq)]
pub enum PidFileRead {
    /// Nothing exists there.
    Absent,
    /// It exists but could not be opened.
    OpenFailed,
    /// It was opened but its text could not be read.
    ReadFailed,
    /// Its text.
    Text(String),
}

/// The value that reading gives for what was found, or `None` where reading
/// fails: `Some(None)` where no file exists, `Some(Some(p))` where its text
/// records `p`.
pub open spec fn read_value(found: PidFileRead) -> Option<Option<i32>> {
    match found {
        PidFileRead::Absent => Some(None),
        PidFileRead::Text(c) => match recorded_pid(c@) {
            Some(p) => Some(Some(p)),
            None => None,
        },
        _ => None,
    }
}

/// The outcome of reading the PID file at `path`, from what was found there:
/// `None` where no file exists, else the recorded pid or the error.
pub fn read_pid_from(path: &str, found: PidFileRead) -> (r: Result<Option<i32>, PidError>)
    ensures
        r is Ok <==> read_value(found) is Some,
        r is Ok ==> r->Ok_0 == read_value(found)->0,
        match found {
            PidFileRead::Absent => r == Ok::<Option<i32>, PidError>(None),
            PidFileRead::OpenFailed => r matches Err(PidError::OpenPidFile(p)) && p@ == path@,
            PidFileRead::ReadFailed => r matches Err(PidError::ReadPidFile(p)) && p@ == path@,
            PidFileRead::Text(c) => {
                &&& first_line(c@) is None ==> (r matches Err(PidError::ReadPidFile(p)) && p@
                    == path@)
                &&& first_line(c@) is Some ==> match recorded_pid(c@) {
                    Some(v) => r == Ok::<Option<i32>, PidError>(Some(v)),
                    None => r matches Err(PidError::ParsePidFileContent(p)) && p@ == path@,
                }
            },
        },
{
    match found {
        PidFileRead::Absent => Ok(None),
        PidFileRead::OpenFailed => Err(PidError::OpenPidFile(String::from_str(path))),
        PidFileRead::ReadFailed => Err(PidError::ReadPidFile(String::from_str(path))),
        PidFileRead::Text(c) => match parse_pid_file_content(path, c.as_str()) {
            Ok(v) => Ok(Some(v)),
            Err(e) => Err(e),
        },
    }
}

/// What to do with a PID file.
#[derive(Debug, Clone, Copy, PartialEq, Eq)]
pub enum PidFileAction {
    /// Leave it as it is.
    Keep,
    /// Remove it.
    Delete,
}

/// Whether a recorded pid is `pid`.
pub open spec fn owned_by(recorded: Option<i32>, pid: u32) -> bool {
    recorded matches Some(p) && p as int == pid as int
}

/// `delete_if_owned` for the process `pid`, given the outcome of reading
/// the file: delete exactly when it records `pid`; a read error propagates.
pub open spec fn delete_plan(recorded: Result<Option<i32>, PidError>, pid: u32) -> Result<
    PidFileAction,
    PidError,
> {
    match recorded {
        Err(e) => Err(e),
        Ok(rec) => Ok(
            if owned_by(rec, pid) {
                PidFileAction::Delete
            } else {
                PidFileAction::Keep
            },
        ),
    }
}

/// Decides `delete_if_owned` for the process `pid` from the outcome of
/// reading the file.
pub fn plan_delete_if_owned(recorded: Result<Option<i32>, PidError>, pid: u32) -> (r: Result<
    PidFileAction,
    PidError,
>)
    ensures
        r == delete_plan(recorded, pid),
{
    match recorded {
        Err(e) => Err(e),
        Ok(Some(p)) => if p as i64 == pid as i64 {
            Ok(PidFileAction::Delete)
        } else {
            Ok(PidFileAction::Keep)
        },
        Ok(None) => Ok(PidFileAction::Keep),
    }
}

proof fn lemma_no_newline(s: Seq<char>, i: int)
    requires
        0 <= i <= s.len(),
        all_digits(s),
    ensures
        index_from(s, '\n', i) == s.len(),
    decreases s.len() - i,
{
    if i < s.len() {
        assert(is_digit(s[i]));
        lemma_no_newline(s, i + 1);
    }
}

/// Writing the PID file for `pid` and reading it back, with no writer in
/// between, gives `pid`: the text has one line, and that line, trimmed, reads
/// as `pid`. (A pid above `i32::MAX` is written but does not read back as
/// an `i32`.)
pub proof fn lemma_write_then_read(pid: u32)
    requires
        pid <= i32::MAX,
    ensures
        first_line(pid_text(pid)) == Some(pid_text(pid)),
        recorded_pid(pid_text(pid)) == Some(pid as i32),
        forall|text: String|
            text@ == pid_text(pid) ==> #[trigger] read_value(PidFileRead::Text(text)) == Some(
                Some(pid as i32),
            ),
{
    let s = pid_text(pid);
    lemma_decimal(pid as nat);
    lemma_no_newline(s, 0);
    assert(s.subrange(0, s.len() as int) =~= s);
    assert(is_digit(s[0]) && is_digit(s.last()));
    assert(trim_front(s) == s);
    assert(trim_back(s) == s);
    assert(trimmed(s) == s);
}

/// A PID file written by another process `writer` is left in place by
/// `delete_if_owned` called from `pid`: the file still exists afterward.
pub proof fn lemma_foreign_file_kept(writer: u32, pid: u32)
    requires
        writer <= i32::MAX,
        writer != pid,
    ensures
        delete_plan(Ok(recorded_pid(pid_text(writer))), pid) == Ok::<PidFileAction, PidError>(
            PidFileAction::Keep,
        ),
{
    lemma_write_then_read(writer);
}

/// A PID file written by `pid` itself is removed by `delete_if_owned` called
/// from `pid`; read afterwards, the path holds nothing and reads as `None`.
pub proof fn lemma_own_file_deleted(pid: u32)
    requires
        pid <= i32::MAX,
    ensures
        delete_plan(Ok(recorded_pid(pid_text(pid))), pid) == Ok::<PidFileAction, PidError>(
            PidFileAction::Delete,
        ),
        read_value(PidFileRead::Absent) == Some(None::<i32>),
{
    lemma_write_then_read(pid);
}

} // verus!
