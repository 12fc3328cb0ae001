//! The library's error type and its mathematical view.
use vstd::prelude::*;
use crate::text::{decimal, decimal_text};

verus! {

/// Why an encoding job stopped.
#[derive(Debug, PartialEq, Eq)]
pub enum ErrorKind {
    /// Every input was dropped by the analysis.
    NoAvailableVideoStream,
    /// A version query could not be started; holds the launch error text.
    VersionCheckCommandProcessFailed(String),
    /// The version output did not match the expected line; holds the output.
    VersionOutputNotMatched(String),
    /// A captured version field is not a `u8`; holds the field.
    VersionNotValidInteger(String),
    /// Major and minor version of a tool outside the supported range.
    NotSupportedCommandVersion(u8, u8),
    /// The encoder could not be started; holds the launch error text.
    FfmpegCommandProcessFailed(String),
    /// The encoder exited with failure: its exit code (if any) and stderr.
    FfmpegCommandExitAbnormally(Option<i32>, String),
    /// The quality search could not be started: input path, launch error text.
    AbAv1CommandProcessFailed(String, String),
    /// The quality search succeeded with unreadable output: input path, stdout.
    InvalidAbAv1Output(String, String),
    /// The quality search failed with an unrecognised message: input path, stderr.
    UnknownAbAv1ErrorMessage(String, String),
}

/// Error of an encoding job.
#[derive(Debug, PartialEq, Eq)]
pub struct Error {
    pub kind: ErrorKind,
}

/// `ErrorKind` with its texts as character sequences.
pub ghost enum Failure {
    NoAvailableVideoStream,
    VersionCheckCommandProcessFailed(Seq<char>),
    VersionOutputNotMatched(Seq<char>),
    VersionNotValidInteger(Seq<char>),
    NotSupportedCommandVersion(u8, u8),
    FfmpegCommandProcessFailed(Seq<char>),
    FfmpegCommandExitAbnormally(Option<i32>, Seq<char>),
    AbAv1CommandProcessFailed(Seq<char>, Seq<char>),
    InvalidAbAv1Output(Seq<char>, Seq<char>),
    UnknownAbAv1ErrorMessage(Seq<char>, Seq<char>),
}

impl View for ErrorKind {
    type V = Failure;

    open spec fn view(&self) -> Failure {
        match self {
            ErrorKind::NoAvailableVideoStream => Failure::NoAvailableVideoStream,
            ErrorKind::VersionCheckCommandProcessFailed(m) => Failure::VersionCheckCommandProcessFailed(m@),
            ErrorKind::VersionOutputNotMatched(m) => Failure::VersionOutputNotMatched(m@),
            ErrorKind::VersionNotValidInteger(m) => Failure::VersionNotValidInteger(m@),
            ErrorKind::NotSupportedCommandVersion(a, b) => Failure::NotSupportedCommandVersion(*a, *b),
            ErrorKind::FfmpegCommandProcessFailed(m) => Failure::FfmpegCommandProcessFailed(m@),
            ErrorKind::FfmpegCommandExitAbnormally(c, m) => Failure::FfmpegCommandExitAbnormally(*c, m@),
            ErrorKind::AbAv1CommandProcessFailed(p, m) => Failure::AbAv1CommandProcessFailed(p@, m@),
            ErrorKind::InvalidAbAv1Output(p, m) => Failure::InvalidAbAv1Output(p@, m@),
            ErrorKind::UnknownAbAv1ErrorMessage(p, m) => Failure::UnknownAbAv1ErrorMessage(p@, m@),
        }
    }
}

impl View for Error {
    type V = Failure;

    open spec fn view(&self) -> Failure {
        self.kind@
    }
}

/// A result with its error seen through the error's view.
pub open spec fn outcome<T>(r: Result<T, Error>) -> Result<T, Failure> {
    match r {
        Ok(v) => Ok(v),
        Err(e) => Err(e@),
    }
}

pub open spec fn quoted(s: Seq<char>) -> Seq<char> {
    seq!['"'] + s + seq!['"']
}

pub open spec fn code_text(c: Option<i32>) -> Seq<char> {
    match c {
        None => "None"@,
        Some(v) => if v < 0 {
            "Some(-"@ + decimal((-v) as nat) + ")"@
        } else {
            "Some("@ + decimal(v as nat) + ")"@
        },
    }
}

/// The text of an error: the kind's name, then its fields in parentheses,
/// texts in double quotes.
pub open spec fn failure_text(f: Failure) -> Seq<char> {
    match f {
        Failure::NoAvailableVideoStream => "NoAvailableVideoStream"@,
        Failure::VersionCheckCommandProcessFailed(m) => "VersionCheckCommandProcessFailed("@ + quoted(m) + ")"@,
        Failure::VersionOutputNotMatched(m) => "VersionOutputNotMatched("@ + quoted(m) + ")"@,
        Failure::VersionNotValidInteger(m) => "VersionNotValidInteger("@ + quoted(m) + ")"@,
        Failure::NotSupportedCommandVersion(a, b) => "NotSupportedCommandVersion("@ + decimal(a as nat)
            + ", "@ + decimal(b as nat) + ")"@,
        Failure::FfmpegCommandProcessFailed(m) => "FfmpegCommandProcessFailed("@ + quoted(m) + ")"@,
        Failure::FfmpegCommandExitAbnormally(c, m) => "FfmpegCommandExitAbnormally("@ + code_text(c)
            + ", "@ + quoted(m) + ")"@,
        Failure::AbAv1CommandProcessFailed(p, m) => "AbAv1CommandProcessFailed("@ + quoted(p) + ", "@
            + quoted(m) + ")"@,
        Failure::InvalidAbAv1Output(p, m) => "InvalidAbAv1Output("@ + quoted(p) + ", "@ + quoted(m)
            + ")"@,
        Failure::UnknownAbAv1ErrorMessage(p, m) => "UnknownAbAv1ErrorMessage("@ + quoted(p) + ", "@
            + quoted(m) + ")"@,
    }
}

fn push_quoted(out: &mut String, s: &String)
    ensures
        final(out)@ == old(out)@ + quoted(s@),
{
    let q = "\"";
    proof {
        reveal_strlit("\"");
    }
    out.append(q);
    out.append(s.as_str());
    out.append(q);
}

fn code_string(c: Option<i32>) -> (r: String)
    ensures
        r@ == code_text(c),
{
    match c {
        None => String::from_str("None"),
        Some(v) => {
            let mut s = if v < 0 {
                String::from_str("Some(-")
            } else {
                String::from_str("Some(")
            };
            let magnitude: u64 = if v < 0 {
                (-(v as i64)) as u64
            } else {
                v as u64
            };
            s.append(decimal_text(magnitude).as_str());
            s.append(")");
            s
        },
    }
}

impl Error {
    /// The kind's name followed by its fields, as `failure_text` states.
    pub fn to_string(&self) -> (r: String)
        ensures
            r@ == failure_text(self@),
    {
        let sep = ", ";
        let close = ")";
        match &self.kind {
            ErrorKind::NoAvailableVideoStream => String::from_str("NoAvailableVideoStream"),
            ErrorKind::VersionCheckCommandProcessFailed(m) => {
                let mut s = String::from_str("VersionCheckCommandProcessFailed(");
                push_quoted(&mut s, m);
                s.append(close);
                s
            },
            ErrorKind::VersionOutputNotMatched(m) => {
                let mut s = String::from_str("VersionOutputNotMatched(");
                push_quoted(&mut s, m);
                s.append(close);
                s
            },
            ErrorKind::VersionNotValidInteger(m) => {
                let mut s = String::from_str("VersionNotValidInteger(");
                push_quoted(&mut s, m);
                s.append(close);
                s
            },
            ErrorKind::NotSupportedCommandVersion(a, b) => {
                let mut s = String::from_str("NotSupportedCommandVersion(");
                s.append(decimal_text(*a as u64).as_str());
                s.append(sep);
                s.append(decimal_text(*b as u64).as_str());
                s.append(close);
                s
            },
            ErrorKind::FfmpegCommandProcessFailed(m) => {
                let mut s = String::from_str("FfmpegCommandProcessFailed(");
                push_quoted(&mut s, m);
                s.append(close);
                s
            },
            ErrorKind::FfmpegCommandExitAbnormally(c, m) => {
                let mut s = String::from_str("FfmpegCommandExitAbnormally(");
                s.append(code_string(*c).as_str());
                s.append(sep);
                push_quoted(&mut s, m);
                s.append(close);
                s
            },
            ErrorKind::AbAv1CommandProcessFailed(p, m) => {
                let mut s = String::from_str("AbAv1CommandProcessFailed(");
                push_quoted(&mut s, p);
                s.append(sep);
                push_quoted(&mut s, m);
                s.append(close);
                s
            },
            ErrorKind::InvalidAbAv1Output(p, m) => {
                let mut s = String::from_str("InvalidAbAv1Output(");
                push_quoted(&mut s, p);
                s.append(sep);
                push_quoted(&mut s, m);
                s.append(close);
                s
            },
            ErrorKind::UnknownAbAv1ErrorMessage(p, m) => {
                let mut s = String::from_str("UnknownAbAv1ErrorMessage(");
                push_quoted(&mut s, p);
                s.append(sep);
                push_quoted(&mut s, m);
                s.append(close);
                s
            },
        }
    }
}

} // verus!
