//! Quality parameter search: the command line of the search tool and the
//! reading of its outcome.
use vstd::prelude::*;
use crate::command::{CommandOutcome, args_view, push_arg, push_owned};
use crate::error::{Error, ErrorKind, Failure};
use crate::input::text_of;
use crate::pattern::{captures, groups_view, regex_captures};
use crate::text::{decimal, decimal_text, is_decimal_number, is_decimal_text, parse_number, u8_of};

verus! {

/// The quality search tool.
pub const AB_AV1_CMD_STR: &'static str = "ab-av1";

/// The weakest quality parameter the search may try.
pub const MAX_CRF: u8 = 55;

/// Success line of the search: the parameter and the predicted score.
pub const AB_AV1_STDOUT_RETRIEVE_CRF_REGEX_SOURCE: &'static str = r"^\s*crf\s+(\d+)\s+VMAF\s+(\d+(?:\.\d+)?)";

/// End of the search's message when no parameter meets the quality floor.
pub const AB_AV1_STDERR_CHECK_GOOD_CRF_NOT_FOUND_REGEX_SOURCE: &'static str = r"Failed to find a suitable crf\s*$";

/// A chosen parameter and the predicted quality score (decimal text), or
/// no score where nothing met the floor and the caller's floor was kept.
pub open spec fn quality_view(r: Result<(u8, Option<String>), Error>) -> Result<
    (u8, Option<Seq<char>>),
    Failure,
> {
    match r {
        Ok((crf, vmaf)) => Ok((crf, text_of(vmaf))),
        Err(e) => Err(e@),
    }
}

/// Arguments of the search on `path`: quality floor `enough_vmaf`, parameters
/// above `min_crf` up to `MAX_CRF`, output no larger than the input, frame
/// timing passed through and data streams dropped.
pub open spec fn crf_search_arg_list(path: Seq<char>, enough_vmaf: u8, min_crf: u8) -> Seq<Seq<char>> {
    seq![
        "crf-search"@,
        "--min-vmaf"@,
        decimal(enough_vmaf as nat),
        "--min-crf"@,
        decimal(min_crf as nat + 1),
        "--max-crf"@,
        decimal(MAX_CRF as nat),
        "--max-encoded-percent"@,
        "100"@,
        "--enc"@,
        "fps_mode=passthrough"@,
        "--enc"@,
        "dn"@,
        "--input"@,
        path,
    ]
}

/// The reading of a successful search whose output `stdout` matched with
/// `groups`: group 1 is the parameter (a `u8`), group 2 the score (decimal).
pub open spec fn crf_verdict(
    path: Seq<char>,
    stdout: Seq<char>,
    groups: Option<Seq<Option<Seq<char>>>>,
) -> Result<(u8, Option<Seq<char>>), Failure> {
    let invalid = Err(Failure::InvalidAbAv1Output(path, stdout));
    match groups {
        None => invalid,
        Some(g) => if g.len() < 3 || g[1] is None || g[2] is None {
            invalid
        } else {
            match u8_of(g[1]->Some_0) {
                None => invalid,
                Some(crf) => if is_decimal_number(g[2]->Some_0) {
                    Ok((crf, Some(g[2]->Some_0)))
                } else {
                    invalid
                },
            }
        },
    }
}

/// The reading of a failed search: the caller's floor with no score when
/// its message is the "nothing met the floor" one, else an error.
pub open spec fn failure_verdict(path: Seq<char>, min_crf: u8, stderr: Seq<char>, not_found: bool) -> Result<
    (u8, Option<Seq<char>>),
    Failure,
> {
    if not_found {
        Ok((min_crf, None))
    } else {
        Err(Failure::UnknownAbAv1ErrorMessage(path, stderr))
    }
}

/// The reading of a finished search.
pub open spec fn search_verdict(path: Seq<char>, min_crf: u8, o: CommandOutcome) -> Result<
    (u8, Option<Seq<char>>),
    Failure,
> {
    match o {
        CommandOutcome::NotStarted(m) => Err(Failure::AbAv1CommandProcessFailed(path, m@)),
        CommandOutcome::Exited { success, stdout, stderr, .. } => if success {
            crf_verdict(path, stdout@, regex_captures(AB_AV1_STDOUT_RETRIEVE_CRF_REGEX_SOURCE@, stdout@))
        } else {
            failure_verdict(
                path,
                min_crf,
                stderr@,
                regex_captures(AB_AV1_STDERR_CHECK_GOOD_CRF_NOT_FOUND_REGEX_SOURCE@, stderr@) is Some,
            )
        },
    }
}

/// Arguments of the search tool for `video_path`.
pub fn crf_search_args(video_path: &str, enough_vmaf: u8, min_crf: u8) -> (r: Vec<String>)
    ensures
        args_view(r) == crf_search_arg_list(video_path@, enough_vmaf, min_crf),
{
    let mut args: Vec<String> = Vec::new();
    push_arg(&mut args, "crf-search");
    push_arg(&mut args, "--min-vmaf");
    push_owned(&mut args, decimal_text(enough_vmaf as u64));
    push_arg(&mut args, "--min-crf");
    push_owned(&mut args, decimal_text(min_crf as u64 + 1));
    push_arg(&mut args, "--max-crf");
    push_owned(&mut args, decimal_text(MAX_CRF as u64));
    push_arg(&mut args, "--max-encoded-percent");
    push_arg(&mut args, "100");
    push_arg(&mut args, "--enc");
    push_arg(&mut args, "fps_mode=passthrough");
    push_arg(&mut args, "--enc");
    push_arg(&mut args, "dn");
    push_arg(&mut args, "--input");
    push_arg(&mut args, video_path);
    assert(args_view(args) =~= crf_search_arg_list(video_path@, enough_vmaf, min_crf));
    args
}

/// Reads the parameter and score from the groups that the success pattern
/// captured in `stdout`.
pub fn crf_from_groups(video_path: &str, stdout: &String, groups: Option<Vec<Option<String>>>) -> (r:
    Result<(u8, Option<String>), Error>)
    ensures
        quality_view(r) == crf_verdict(video_path@, stdout@, groups_view(groups)),
{
    let invalid = Error {
        kind: ErrorKind::InvalidAbAv1Output(String::from_str(video_path), stdout.clone()),
    };
    let g = match groups {
        Some(g) => g,
        None => return Err(invalid),
    };
    if g.len() < 3 {
        return Err(invalid);
    }
    let (a, b) = match (&g[1], &g[2]) {
        (Some(a), Some(b)) => (a, b),
        _ => return Err(invalid),
    };
    let crf = match parse_number(a.as_str(), ()) {
        Ok(v) => v,
        Err(_) => return Err(invalid),
    };
    if !is_decimal_text(b.as_str()) {
        return Err(invalid);
    }
    Ok((crf, Some(b.clone())))
}

/// A failed search: the caller's floor `min_crf` with no score when
/// `not_found` (the message said no parameter met the floor), else an error
/// carrying the message.
pub fn crf_on_failure(video_path: &str, min_crf: u8, stderr: &String, not_found: bool) -> (r: Result<
    (u8, Option<String>),
    Error,
>)
    ensures
        quality_view(r) == failure_verdict(video_path@, min_crf, stderr@, not_found),
{
    if not_found {
        Ok((min_crf, None))
    } else {
        Err(
            Error {
                kind: ErrorKind::UnknownAbAv1ErrorMessage(String::from_str(video_path), stderr.clone()),
            },
        )
    }
}

/// Reads the outcome of the search on `video_path`.
pub fn get_best_crf(video_path: &str, min_crf: u8, output: &CommandOutcome) -> (r: Result<
    (u8, Option<String>),
    Error,
>)
    ensures
        quality_view(r) == search_verdict(video_path@, min_crf, *output),
{
    match output {
        CommandOutcome::NotStarted(m) => Err(
            Error { kind: ErrorKind::AbAv1CommandProcessFailed(String::from_str(video_path), m.clone()) },
        ),
        CommandOutcome::Exited { success, stdout, stderr, .. } => {
            if *success {
                let groups = captures(AB_AV1_STDOUT_RETRIEVE_CRF_REGEX_SOURCE, stdout.as_str());
                crf_from_groups(video_path, stdout, groups)
            } else {
                let groups = captures(
                    AB_AV1_STDERR_CHECK_GOOD_CRF_NOT_FOUND_REGEX_SOURCE,
                    stderr.as_str(),
                );
                crf_on_failure(video_path, min_crf, stderr, groups.is_some())
            }
        },
    }
}

/// A search that failed with the "nothing met the floor" message yields the
/// caller's floor and no score, never an error; any other failure message
/// is an error that carries it.
pub proof fn lemma_unreachable_floor_keeps_min(path: Seq<char>, min_crf: u8, o: CommandOutcome)
    requires
        o matches CommandOutcome::Exited { success, .. } && !success,
    ensures
        ({
            let stderr = o->stderr;
            let found = regex_captures(AB_AV1_STDERR_CHECK_GOOD_CRF_NOT_FOUND_REGEX_SOURCE@, stderr@);
            &&& found is Some ==> search_verdict(path, min_crf, o) == Ok::<
                (u8, Option<Seq<char>>),
                Failure,
            >((min_crf, None))
            &&& found is None ==> search_verdict(path, min_crf, o) == Err::<
                (u8, Option<Seq<char>>),
                Failure,
            >(Failure::UnknownAbAv1ErrorMessage(path, stderr@))
        }),
{
}

} // verus!
