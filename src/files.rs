use vstd::prelude::*;
use crate::error::join_text;

verus! {

/// Failures while locating or naming recording files.
#[derive(Debug, PartialEq, Eq)]
pub enum FileError {
    NoProjectDirs,
    Io(String),
    TimeError,
}

pub open spec fn file_error_text(e: FileError) -> Seq<char> {
    match e {
        FileError::NoProjectDirs => "Could not find project directories"@,
        FileError::Io(m) => "IO Error: "@ + m@,
        FileError::TimeError => "System time error"@,
    }
}

impl FileError {
    pub fn message(&self) -> (r: String)
        ensures
            r@ == file_error_text(*self),
    {
        match self {
            FileError::NoProjectDirs => String::from_str("Could not find project directories"),
            FileError::Io(m) => join_text("IO Error: ", m),
            FileError::TimeError => String::from_str("System time error"),
        }
    }
}

pub open spec fn digit_char(d: nat) -> char {
    if d == 0 { '0' } else if d == 1 { '1' } else if d == 2 { '2' } else if d == 3 { '3' }
    else if d == 4 { '4' } else if d == 5 { '5' } else if d == 6 { '6' } else if d == 7 { '7' }
    else if d == 8 { '8' } else { '9' }
}

/// Decimal digits of `n`, most significant first, without leading zeros.
pub open spec fn decimal(n: nat) -> Seq<char>
    decreases n,
{
    if n < 10 {
        seq![digit_char(n)]
    } else {
        decimal(n / 10) + seq![digit_char(n % 10)]
    }
}

fn digit_text(d: u64) -> (r: &'static str)
    requires
        d < 10,
    ensures
        r@ == seq![digit_char(d as nat)],
{
    proof {
        reveal_strlit("0");
        reveal_strlit("1");
        reveal_strlit("2");
        reveal_strlit("3");
        reveal_strlit("4");
        reveal_strlit("5");
        reveal_strlit("6");
        reveal_strlit("7");
        reveal_strlit("8");
        reveal_strlit("9");
    }
    if d == 0 { "0" } else if d == 1 { "1" } else if d == 2 { "2" } else if d == 3 { "3" }
    else if d == 4 { "4" } else if d == 5 { "5" } else if d == 6 { "6" } else if d == 7 { "7" }
    else if d == 8 { "8" } else { "9" }
}

pub(crate) fn push_decimal(out: &mut String, n: u64)
    ensures
        final(out)@ == old(out)@ + decimal(n as nat),
    decreases n,
{
    if n >= 10 {
        push_decimal(out, n / 10);
    }
    out.append(digit_text(n % 10));
    proof {
        if n >= 10 {
            assert(old(out)@ + decimal(n as nat / 10) + seq![digit_char(n as nat % 10)]
                == old(out)@ + decimal(n as nat));
        }
    }
}

/// The name of the recording file made at `secs` seconds after the Unix epoch.
pub open spec fn recording_file_name(secs: nat) -> Seq<char> {
    decimal(secs) + ".wav"@
}

/// `name` appended to directory `dir` as a path component: a separator goes
/// between them unless `dir` is empty or already ends in one.
pub open spec fn joined_path(dir: Seq<char>, name: Seq<char>) -> Seq<char> {
    if dir.len() == 0 || dir.last() == '/' {
        dir + name
    } else {
        dir + "/"@ + name
    }
}

fn join_path(dir: &str, name: &String) -> (r: String)
    ensures
        r@ == joined_path(dir@, name@),
{
    let mut out = String::from_str(dir);
    let n = dir.unicode_len();
    if n > 0 && dir.get_char(n - 1) != '/' {
        out.append("/");
    }
    out.append(name.as_str());
    out
}

/// The path of a new recording in `recordings_dir`, named after the number of
/// whole seconds since the Unix epoch; `TimeError` when the clock reads a time
/// before the epoch (`None`).
pub fn create_new_recording_file_path(recordings_dir: &str, secs_since_epoch: Option<u64>) -> (r: Result<String, FileError>)
    ensures
        match secs_since_epoch {
            None => r == Err::<String, FileError>(FileError::TimeError),
            Some(secs) => r is Ok && r->Ok_0@ == joined_path(recordings_dir@, recording_file_name(secs as nat)),
        },
{
    match secs_since_epoch {
        None => Err(FileError::TimeError),
        Some(secs) => {
            let mut name = String::new();
            push_decimal(&mut name, secs);
            name.append(".wav");
            Ok(join_path(recordings_dir, &name))
        },
    }
}

/// Removal of old recordings: no retention policy is defined, so nothing is
/// removed and the call always succeeds.
pub fn cleanup_old_recordings() -> (r: Result<(), FileError>)
    ensures
        r == Ok::<(), FileError>(()),
{
    Ok(())
}

} // verus!
