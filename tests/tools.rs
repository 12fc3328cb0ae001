use video_encode::command::CommandOutcome;
use video_encode::encode::{best_input_index, encode_args, encode_result};
use video_encode::error::{Error, ErrorKind};
use video_encode::input::InputFile;
use video_encode::search::{crf_from_groups, crf_on_failure, crf_search_args, get_best_crf, MAX_CRF};
use video_encode::version::{
    check_command, check_version_groups, AB_AV1_STDOUT_RETRIEVE_VERSION_REGEX_SOURCE,
    FFMPEG_STDOUT_RETRIEVE_VERSION_REGEX_SOURCE,
};

fn exited(success: bool, stdout: &str, stderr: &str) -> CommandOutcome {
    CommandOutcome::Exited {
        success,
        code: Some(if success { 0 } else { 1 }),
        stdout: stdout.to_string(),
        stderr: stderr.to_string(),
    }
}

fn not_started() -> CommandOutcome {
    CommandOutcome::NotStarted("No such file or directory (os error 2)".to_string())
}

#[test]
fn error_it_works() {
    assert_eq!("NoAvailableVideoStream".to_string(), (Error { kind: ErrorKind::NoAvailableVideoStream }).to_string());
    assert!(0 < format!("{:?}", Error { kind: ErrorKind::NoAvailableVideoStream }).len());
    assert_eq!(Error { kind: ErrorKind::NoAvailableVideoStream }, Error { kind: ErrorKind::NoAvailableVideoStream });
}

#[test]
fn error_text_lists_fields() {
    let e = Error { kind: ErrorKind::NotSupportedCommandVersion(5, 1) };
    assert_eq!(e.to_string(), "NotSupportedCommandVersion(5, 1)");
    let e = Error { kind: ErrorKind::FfmpegCommandExitAbnormally(Some(-2), "bad".to_string()) };
    assert_eq!(e.to_string(), "FfmpegCommandExitAbnormally(Some(-2), \"bad\")");
    let e = Error { kind: ErrorKind::InvalidAbAv1Output("a.mp4".to_string(), "x".to_string()) };
    assert_eq!(e.to_string(), "InvalidAbAv1Output(\"a.mp4\", \"x\")");
}

#[test]
fn check_command_it_works() {
    let test_cases = [
        (0, 0, None, r".", false),
        (0, 0, Some("0.0"), r"__not_matched__", false),
        (0, 0, Some("0.0"), r"^(\d+)\.(\d+)", true),
        (5, 5, Some("5.5"), r"^(\d+)\.(\d+)", true),
        (5, 5, Some("4.5"), r"^(\d+)\.(\d+)", false),
        (5, 5, Some("6.5"), r"^(\d+)\.(\d+)", false),
        (5, 5, Some("5.6"), r"^(\d+)\.(\d+)", true),
        (5, 5, Some("5.4"), r"^(\d+)\.(\d+)", false),
        (255, 255, Some("255.256"), r"^(\d+)\.(\d+)", false),
        (255, 255, Some("256.255"), r"^(\d+)\.(\d+)", false),
        (255, 255, Some("255.255"), r"^(\d+)\.(\d+)", true),
    ];
    for (expected_major_version, min_minor_version, echoed, re, expected) in test_cases {
        let output = match echoed {
            Some(text) => exited(true, &format!("{}\n", text), ""),
            None => not_started(),
        };
        let actual = check_command(expected_major_version, min_minor_version, &output, re).is_ok();
        assert_eq!(actual, expected);
    }
}

#[test]
fn check_command_errors() {
    let r = check_command(6, 0, &not_started(), FFMPEG_STDOUT_RETRIEVE_VERSION_REGEX_SOURCE);
    assert!(matches!(r, Err(Error { kind: ErrorKind::VersionCheckCommandProcessFailed(_) })));
    let r = check_command(6, 0, &exited(true, "nothing here\n", ""), FFMPEG_STDOUT_RETRIEVE_VERSION_REGEX_SOURCE);
    assert_eq!(r, Err(Error { kind: ErrorKind::VersionOutputNotMatched("nothing here\n".to_string()) }));
    let r = check_command(6, 0, &exited(true, "ffmpeg version 5.1.2 Copyright\n", ""), FFMPEG_STDOUT_RETRIEVE_VERSION_REGEX_SOURCE);
    assert_eq!(r, Err(Error { kind: ErrorKind::NotSupportedCommandVersion(5, 1) }));
    let r = check_command(6, 0, &exited(true, "ffmpeg version 6.1.1-3ubuntu5 Copyright (c) 2000-2023\n", ""), FFMPEG_STDOUT_RETRIEVE_VERSION_REGEX_SOURCE);
    assert_eq!(r, Ok(()));
    let r = check_command(0, 7, &exited(true, "ab-av1 0.7.14\n", ""), AB_AV1_STDOUT_RETRIEVE_VERSION_REGEX_SOURCE);
    assert_eq!(r, Ok(()));
    let r = check_command(0, 7, &exited(true, "ab-av1 0.6.1\n", ""), AB_AV1_STDOUT_RETRIEVE_VERSION_REGEX_SOURCE);
    assert_eq!(r, Err(Error { kind: ErrorKind::NotSupportedCommandVersion(0, 6) }));
    let r = check_command(0, 0, &exited(true, "300.1\n", ""), r"^(\d+)\.(\d+)");
    assert_eq!(r, Err(Error { kind: ErrorKind::VersionNotValidInteger("300".to_string()) }));
}

#[test]
fn version_groups_are_judged() {
    let stdout = "x".to_string();
    let g = |a: &str, b: &str| Some(vec![Some("m".to_string()), Some(a.to_string()), Some(b.to_string())]);
    assert_eq!(check_version_groups(6, 0, &stdout, g("6", "0")), Ok(()));
    assert_eq!(check_version_groups(6, 0, &stdout, g("\u{0666}", "0")), Err(Error { kind: ErrorKind::VersionNotValidInteger("\u{0666}".to_string()) }));
    assert_eq!(check_version_groups(6, 0, &stdout, g("6", "x")), Err(Error { kind: ErrorKind::VersionNotValidInteger("x".to_string()) }));
    assert_eq!(check_version_groups(6, 0, &stdout, None), Err(Error { kind: ErrorKind::VersionOutputNotMatched("x".to_string()) }));
    assert_eq!(check_version_groups(6, 0, &stdout, Some(vec![Some("m".to_string())])), Err(Error { kind: ErrorKind::VersionOutputNotMatched("x".to_string()) }));
}

#[test]
fn best_crf_it_works() {
    let path = "va-300x400.mp4";
    assert!(matches!(get_best_crf(path, 40, &not_started()), Err(Error { kind: ErrorKind::AbAv1CommandProcessFailed(_, _) })));
    let echoed = crf_search_args(path, 80, 40).join(" ") + "\n";
    assert!(matches!(get_best_crf(path, 40, &exited(true, &echoed, "")), Err(Error { kind: ErrorKind::InvalidAbAv1Output(_, _) })));
    assert!(matches!(get_best_crf(path, 40, &exited(false, "", "")), Err(Error { kind: ErrorKind::UnknownAbAv1ErrorMessage(_, _) })));
    let not_found = "Error: Failed to find a suitable crf\n";
    assert_eq!(get_best_crf(path, MAX_CRF - 2, &exited(false, "", not_found)), Ok((MAX_CRF - 2, None)));
    let found = "crf 55 VMAF 95.47 predicted video stream size 12.3 KiB (80%) taking 2 seconds\n";
    assert_eq!(get_best_crf(path, MAX_CRF - 2, &exited(true, found, "")), Ok((MAX_CRF, Some("95.47".to_string()))));
}

#[test]
fn crf_groups_are_read() {
    let g = |a: &str, b: &str| Some(vec![Some("m".to_string()), Some(a.to_string()), Some(b.to_string())]);
    let out = "o".to_string();
    assert_eq!(crf_from_groups("p", &out, g("30", "93")), Ok((30, Some("93".to_string()))));
    assert_eq!(crf_from_groups("p", &out, g("300", "93")), Err(Error { kind: ErrorKind::InvalidAbAv1Output("p".to_string(), "o".to_string()) }));
    assert_eq!(crf_from_groups("p", &out, g("30", "9\u{0663}")), Err(Error { kind: ErrorKind::InvalidAbAv1Output("p".to_string(), "o".to_string()) }));
    assert_eq!(crf_from_groups("p", &out, None), Err(Error { kind: ErrorKind::InvalidAbAv1Output("p".to_string(), "o".to_string()) }));
    let err = "boom".to_string();
    assert_eq!(crf_on_failure("p", 12, &err, true), Ok((12, None)));
    assert_eq!(crf_on_failure("p", 12, &err, false), Err(Error { kind: ErrorKind::UnknownAbAv1ErrorMessage("p".to_string(), "boom".to_string()) }));
}

#[test]
fn crf_search_arguments() {
    assert_eq!(
        crf_search_args("in.mp4", 95, 40),
        vec!["crf-search", "--min-vmaf", "95", "--min-crf", "41", "--max-crf", "55", "--max-encoded-percent", "100", "--enc", "fps_mode=passthrough", "--enc", "dn", "--input", "in.mp4"]
    );
    assert_eq!(crf_search_args("x", 0, 255)[4], "256");
}

fn input(path: &str, width: u64, height: u64) -> InputFile {
    InputFile { path: path.to_string(), width, height, alternative_null_audio_duration: None }
}

#[test]
fn encode_arguments() {
    let inputs = vec![input("a.mp4", 1, 1), input("b.mp4", 1, 1)];
    assert_eq!(
        encode_args(&inputs, &Some("F".to_string()), 30, "out.mp4"),
        vec!["-y", "-i", "a.mp4", "-i", "b.mp4", "-filter_complex", "F", "-map", "[vout]", "-map", "[aout]", "-c:v", "libsvtav1", "-crf", "30", "-pix_fmt", "yuv420p10le", "-preset", "8", "out.mp4"]
    );
    assert_eq!(
        encode_args(&vec![input("a.mp4", 1, 1)], &None, 7, "o"),
        vec!["-y", "-i", "a.mp4", "-c:v", "libsvtav1", "-crf", "7", "-pix_fmt", "yuv420p10le", "-preset", "8", "o"]
    );
}

#[test]
fn best_input_is_first_of_largest_area() {
    let inputs = vec![input("a", 100, 100), input("b", 200, 50), input("c", 50, 200), input("d", 10, 10)];
    assert_eq!(best_input_index(&inputs), 0);
    let inputs = vec![input("a", 10, 10), input("b", 300, 400), input("c", 400, 300)];
    assert_eq!(best_input_index(&inputs), 1);
}

#[test]
fn encode_outcome_is_read() {
    assert!(matches!(encode_result(30, None, &not_started()), Err(Error { kind: ErrorKind::FfmpegCommandProcessFailed(_) })));
    assert!(matches!(encode_result(30, None, &exited(false, "", "oops")), Err(Error { kind: ErrorKind::FfmpegCommandExitAbnormally(Some(1), _) })));
    assert_eq!(encode_result(30, Some("91.2".to_string()), &exited(true, "", "")), Ok((30, Some("91.2".to_string()))));
}
