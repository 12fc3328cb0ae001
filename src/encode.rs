//! The encoder's command line, the choice of the reference input for the
//! quality search, and the reading of the encoder's outcome.
use vstd::prelude::*;
use crate::command::{CommandOutcome, args_view, push_arg, push_owned};
use crate::error::{Error, ErrorKind, Failure};
use crate::input::{InputFile, area, text_of};
use crate::search::quality_view;
use crate::text::{decimal, decimal_text};

verus! {

/// The encoder.
pub const FFMPEG_CMD_STR: &'static str = "ffmpeg";

/// `-i <path>` for each input, in order.
pub open spec fn input_args(s: Seq<InputFile>) -> Seq<Seq<char>> {
    Seq::new(
        2 * s.len(),
        |k: int|
            if k % 2 == 0 {
                "-i"@
            } else {
                s[k / 2].path@
            },
    )
}

/// Arguments of the encoder: overwrite, the inputs, the filter program (if
/// any) with its two outputs selected, the fixed codec, pixel format and
/// preset, the quality parameter, and the output path last.
pub open spec fn encode_arg_list(
    s: Seq<InputFile>,
    filter: Option<Seq<char>>,
    crf: u8,
    output: Seq<char>,
) -> Seq<Seq<char>> {
    seq!["-y"@] + input_args(s) + match filter {
        Some(f) => seq!["-filter_complex"@, f, "-map"@, "[vout]"@, "-map"@, "[aout]"@],
        None => Seq::empty(),
    } + seq![
        "-c:v"@,
        "libsvtav1"@,
        "-crf"@,
        decimal(crf as nat),
        "-pix_fmt"@,
        "yuv420p10le"@,
        "-preset"@,
        "8"@,
        output,
    ]
}

/// `i` has the largest area, and no earlier input has as large a one.
pub open spec fn is_best_input(s: Seq<InputFile>, i: int) -> bool {
    &&& 0 <= i < s.len()
    &&& forall|j: int| 0 <= j < s.len() ==> area(#[trigger] s[j]) <= area(s[i])
    &&& forall|j: int| 0 <= j < i ==> area(#[trigger] s[j]) < area(s[i])
}

/// The reading of the encoder's outcome: on success the search's parameter
/// and score are handed back.
pub open spec fn encode_verdict(crf: u8, vmaf: Option<Seq<char>>, o: CommandOutcome) -> Result<
    (u8, Option<Seq<char>>),
    Failure,
> {
    match o {
        CommandOutcome::NotStarted(m) => Err(Failure::FfmpegCommandProcessFailed(m@)),
        CommandOutcome::Exited { success, code, stderr, .. } => if success {
            Ok((crf, vmaf))
        } else {
            Err(Failure::FfmpegCommandExitAbnormally(code, stderr@))
        },
    }
}

/// Arguments of the encoder for the inputs, in their order.
pub fn encode_args(
    input_files: &Vec<InputFile>,
    filter_code: &Option<String>,
    crf: u8,
    output_path: &str,
) -> (r: Vec<String>)
    ensures
        args_view(r) == encode_arg_list(input_files@, text_of(*filter_code), crf, output_path@),
{
    let ghost s = input_files@;
    let mut args: Vec<String> = Vec::new();
    push_arg(&mut args, "-y");
    let mut i: usize = 0;
    while i < input_files.len()
        invariant
            s == input_files@,
            i <= s.len(),
            args_view(args) == seq!["-y"@] + input_args(s.take(i as int)),
        decreases s.len() - i,
    {
        push_arg(&mut args, "-i");
        push_owned(&mut args, input_files[i].path.clone());
        proof {
            let a = input_args(s.take(i as int));
            let b = input_args(s.take(i + 1));
            assert forall|k: int| 0 <= k < 2 * i implies #[trigger] b[k] == a[k] by {
                assert(s.take(i + 1)[k / 2] == s.take(i as int)[k / 2]);
            }
            assert((2 * i) % 2 == 0 && (2 * i) / 2 == i) by (nonlinear_arith);
            assert((2 * i + 1) % 2 == 1 && (2 * i + 1) / 2 == i) by (nonlinear_arith);
            assert(b =~= a.push("-i"@).push(s[i as int].path@));
        }
        i = i + 1;
    }
    assert(s.take(i as int) == s);
    let ghost head = args_view(args);
    if let Some(f) = filter_code {
        push_arg(&mut args, "-filter_complex");
        push_owned(&mut args, f.clone());
        push_arg(&mut args, "-map");
        push_arg(&mut args, "[vout]");
        push_arg(&mut args, "-map");
        push_arg(&mut args, "[aout]");
    }
    let ghost mid = args_view(args);
    push_arg(&mut args, "-c:v");
    push_arg(&mut args, "libsvtav1");
    push_arg(&mut args, "-crf");
    push_owned(&mut args, decimal_text(crf as u64));
    push_arg(&mut args, "-pix_fmt");
    push_arg(&mut args, "yuv420p10le");
    push_arg(&mut args, "-preset");
    push_arg(&mut args, "8");
    push_arg(&mut args, output_path);
    assert(args_view(args) =~= encode_arg_list(
        input_files@,
        text_of(*filter_code),
        crf,
        output_path@,
    ));
    args
}

fn area_of(f: &InputFile) -> (r: u128)
    ensures
        r as int == area(*f),
{
    let (w, h) = (f.width as u128, f.height as u128);
    assert(w * h <= 0xffff_ffff_ffff_ffff * 0xffff_ffff_ffff_ffff) by (nonlinear_arith)
        requires
            w <= 0xffff_ffff_ffff_ffff,
            h <= 0xffff_ffff_ffff_ffff,
    ;
    w * h
}

/// Index of the input with the largest area, the first one on a tie.
pub fn best_input_index(input_files: &Vec<InputFile>) -> (r: usize)
    requires
        0 < input_files.len(),
    ensures
        is_best_input(input_files@, r as int),
{
    let ghost s = input_files@;
    let mut best: usize = 0;
    let mut best_area = area_of(&input_files[0]);
    let mut i: usize = 1;
    while i < input_files.len()
        invariant
            s == input_files@,
            1 <= i <= s.len(),
            best < i,
            best_area as int == area(s[best as int]),
            forall|j: int| 0 <= j < i ==> area(#[trigger] s[j]) <= area(s[best as int]),
            forall|j: int| 0 <= j < best ==> area(#[trigger] s[j]) < area(s[best as int]),
        decreases s.len() - i,
    {
        let a = area_of(&input_files[i]);
        if a > best_area {
            best = i;
            best_area = a;
        }
        i = i + 1;
    }
    best
}

/// Reads the encoder's outcome; `crf` and `vmaf` are the search's result.
pub fn encode_result(crf: u8, vmaf: Option<String>, output: &CommandOutcome) -> (r: Result<
    (u8, Option<String>),
    Error,
>)
    ensures
        quality_view(r) == encode_verdict(crf, text_of(vmaf), *output),
{
    match output {
        CommandOutcome::NotStarted(m) => Err(
            Error { kind: ErrorKind::FfmpegCommandProcessFailed(m.clone()) },
        ),
        CommandOutcome::Exited { success, code, stderr, .. } => {
            if *success {
                Ok((crf, vmaf))
            } else {
                Err(Error { kind: ErrorKind::FfmpegCommandExitAbnormally(*code, stderr.clone()) })
            }
        },
    }
}

} // verus!
