//! Tool compatibility: reading a tool's version line and judging it.
use vstd::prelude::*;
use crate::command::CommandOutcome;
use crate::error::{Error, ErrorKind, Failure, outcome};
use crate::pattern::{captures, groups_view, regex_captures};
use crate::text::{parse_number, u8_of};

verus! {

/// First line of `ffmpeg -version`.
pub const FFMPEG_STDOUT_RETRIEVE_VERSION_REGEX_SOURCE: &'static str = r"^ffmpeg\s+version?\s+(\d+)\.(\d+)";

/// First line of `ab-av1 --version`.
pub const AB_AV1_STDOUT_RETRIEVE_VERSION_REGEX_SOURCE: &'static str = r"^ab-av1\s+(\d+)\.(\d+)\.\d+";

/// The verdict on a version output `stdout` whose match gave `groups`:
/// groups 1 and 2 must be present and read as `u8` (major, minor); the
/// major must equal `expected_major` and the minor be at least `min_minor`.
pub open spec fn version_verdict(
    expected_major: u8,
    min_minor: u8,
    stdout: Seq<char>,
    groups: Option<Seq<Option<Seq<char>>>>,
) -> Result<(), Failure> {
    match groups {
        None => Err(Failure::VersionOutputNotMatched(stdout)),
        Some(g) => if g.len() < 3 || g[1] is None || g[2] is None {
            Err(Failure::VersionOutputNotMatched(stdout))
        } else {
            let a = g[1]->Some_0;
            let b = g[2]->Some_0;
            match (u8_of(a), u8_of(b)) {
                (None, _) => Err(Failure::VersionNotValidInteger(a)),
                (Some(_), None) => Err(Failure::VersionNotValidInteger(b)),
                (Some(major), Some(minor)) => if major != expected_major || minor < min_minor {
                    Err(Failure::NotSupportedCommandVersion(major, minor))
                } else {
                    Ok(())
                },
            }
        },
    }
}

/// The verdict on a finished version query.
pub open spec fn version_check_verdict(
    expected_major: u8,
    min_minor: u8,
    pattern: Seq<char>,
    o: CommandOutcome,
) -> Result<(), Failure> {
    match o {
        CommandOutcome::NotStarted(m) => Err(Failure::VersionCheckCommandProcessFailed(m@)),
        CommandOutcome::Exited { stdout, .. } => version_verdict(
            expected_major,
            min_minor,
            stdout@,
            regex_captures(pattern, stdout@),
        ),
    }
}

/// Judges the groups that the version pattern captured in `stdout`.
pub fn check_version_groups(
    expected_major: u8,
    min_minor: u8,
    stdout: &String,
    groups: Option<Vec<Option<String>>>,
) -> (r: Result<(), Error>)
    ensures
        outcome(r) == version_verdict(expected_major, min_minor, stdout@, groups_view(groups)),
{
    let g = match groups {
        Some(g) => g,
        None => return Err(Error { kind: ErrorKind::VersionOutputNotMatched(stdout.clone()) }),
    };
    if g.len() < 3 {
        return Err(Error { kind: ErrorKind::VersionOutputNotMatched(stdout.clone()) });
    }
    let (a, b) = match (&g[1], &g[2]) {
        (Some(a), Some(b)) => (a, b),
        _ => return Err(Error { kind: ErrorKind::VersionOutputNotMatched(stdout.clone()) }),
    };
    let major = match parse_number(a.as_str(), ()) {
        Ok(v) => v,
        Err(_) => return Err(Error { kind: ErrorKind::VersionNotValidInteger(a.clone()) }),
    };
    let minor = match parse_number(b.as_str(), ()) {
        Ok(v) => v,
        Err(_) => return Err(Error { kind: ErrorKind::VersionNotValidInteger(b.clone()) }),
    };
    if expected_major != major || minor < min_minor {
        return Err(Error { kind: ErrorKind::NotSupportedCommandVersion(major, minor) });
    }
    Ok(())
}

/// Judges a version query's outcome: the tool must have started, and its
/// standard output must hold a supported version where `pattern` finds it.
pub fn check_command(
    expected_major: u8,
    min_minor: u8,
    output: &CommandOutcome,
    pattern: &str,
) -> (r: Result<(), Error>)
    ensures
        outcome(r) == version_check_verdict(expected_major, min_minor, pattern@, *output),
{
    match output {
        CommandOutcome::NotStarted(m) => Err(
            Error { kind: ErrorKind::VersionCheckCommandProcessFailed(m.clone()) },
        ),
        CommandOutcome::Exited { stdout, .. } => {
            let groups = captures(pattern, stdout.as_str());
            check_version_groups(expected_major, min_minor, stdout, groups)
        },
    }
}

} // verus!
