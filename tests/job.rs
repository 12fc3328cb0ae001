use video_encode::command::CommandOutcome;
use video_encode::error::{Error, ErrorKind};
use video_encode::input::{ProbeInfo, StreamInfo};
use video_encode::job::{Action, EncodeJob, Event, Stage};
use video_encode::search::MAX_CRF;

fn exited(success: bool, stdout: &str, stderr: &str) -> Event {
    Event::CommandDone(CommandOutcome::Exited {
        success,
        code: Some(if success { 0 } else { 1 }),
        stdout: stdout.to_string(),
        stderr: stderr.to_string(),
    })
}

fn stream(kind: &str, width: Option<i64>, height: Option<i64>) -> StreamInfo {
    StreamInfo { codec_type: Some(kind.to_string()), width, height, duration: Some("1".to_string()) }
}

fn va() -> ProbeInfo {
    ProbeInfo { streams: vec![stream("video", Some(300), Some(400)), stream("audio", None, None)], format_duration: Some("1".to_string()) }
}

fn v() -> ProbeInfo {
    ProbeInfo { streams: vec![stream("video", Some(300), Some(400))], format_duration: Some("1".to_string()) }
}

fn a() -> ProbeInfo {
    ProbeInfo { streams: vec![stream("audio", None, None)], format_duration: Some("1".to_string()) }
}

fn run_args(action: &Action) -> (String, Vec<String>) {
    match action {
        Action::Run(c) => (c.program.clone(), c.args.clone()),
        other => panic!("expected a command, got {:?}", other),
    }
}

fn feed(job: &mut EncodeJob, event: Event) -> Action {
    assert!(job.accepts(&event));
    job.advance(event)
}

fn through_version_checks(paths: &[&str]) -> EncodeJob {
    let (mut job, first) = EncodeJob::new("ffmpeg", paths.iter().map(|p| p.to_string()).collect(), "out.mp4", 0, MAX_CRF - 2);
    assert_eq!(run_args(&first), ("ffmpeg".to_string(), vec!["-version".to_string()]));
    let second = feed(&mut job, exited(true, "ffmpeg version 6.1.1 Copyright (c) 2000-2023 the FFmpeg developers\n", ""));
    assert_eq!(run_args(&second), ("ab-av1".to_string(), vec!["--version".to_string()]));
    match feed(&mut job, exited(true, "ab-av1 0.7.17\n", "")) {
        Action::Probe(p) => assert_eq!(p, paths.iter().map(|p| p.to_string()).collect::<Vec<_>>()),
        other => panic!("expected a probe, got {:?}", other),
    }
    job
}

#[test]
fn audio_only_input_has_no_video_stream() {
    let mut job = through_version_checks(&["a.mp4"]);
    match feed(&mut job, Event::Probed(vec![Some(a())])) {
        Action::Finish(r) => assert_eq!(r, Err(Error { kind: ErrorKind::NoAvailableVideoStream })),
        other => panic!("expected the end, got {:?}", other),
    }
    assert_eq!(job.current_stage(), Stage::Done);
    assert!(!job.accepts(&exited(true, "", "")));
}

#[test]
fn unreachable_floor_encodes_with_min_crf() {
    let mut job = through_version_checks(&["invalid.mp4", "va-300x400.mp4", "va-300x400.mp4"]);
    let search = feed(&mut job, Event::Probed(vec![None, Some(va()), Some(va())]));
    let (program, args) = run_args(&search);
    assert_eq!(program, "ab-av1");
    assert_eq!(args[args.len() - 1], "va-300x400.mp4");
    assert_eq!(args[4], (MAX_CRF - 1).to_string());
    let encode = feed(&mut job, exited(false, "", "Error: Failed to find a suitable crf\n"));
    let (program, args) = run_args(&encode);
    assert_eq!(program, "ffmpeg");
    assert_eq!(
        args,
        vec![
            "-y", "-i", "va-300x400.mp4", "-i", "va-300x400.mp4", "-filter_complex",
            "[0:v:0]null[v0];[0:a:0]anull[a0];[1:v:0]null[v1];[1:a:0]anull[a1];[v0][a0][v1][a1]concat=n=2:v=1:a=1[vout][aout]",
            "-map", "[vout]", "-map", "[aout]", "-c:v", "libsvtav1", "-crf", "53", "-pix_fmt", "yuv420p10le",
            "-preset", "8", "out.mp4",
        ]
    );
    match feed(&mut job, exited(true, "", "")) {
        Action::Finish(r) => assert_eq!(r, Ok((MAX_CRF - 2, None))),
        other => panic!("expected the end, got {:?}", other),
    }
}

#[test]
fn single_input_is_encoded_without_filter() {
    let mut job = through_version_checks(&["v-300x400.mp4"]);
    feed(&mut job, Event::Probed(vec![Some(v())]));
    let encode = feed(&mut job, exited(true, "crf 55 VMAF 96.10 predicted video stream size 1 KiB\n", ""));
    let (_, args) = run_args(&encode);
    assert!(!args.iter().any(|a| a == "-filter_complex"));
    assert_eq!(args[args.len() - 1], "out.mp4");
    match feed(&mut job, exited(false, "", "disk full")) {
        Action::Finish(r) => assert_eq!(r, Err(Error { kind: ErrorKind::FfmpegCommandExitAbnormally(Some(1), "disk full".to_string()) })),
        other => panic!("expected the end, got {:?}", other),
    }
}

#[test]
fn silent_part_gets_generated_silence_in_the_job() {
    let mut job = through_version_checks(&["va.mp4", "v.mp4"]);
    feed(&mut job, Event::Probed(vec![Some(va()), Some(v())]));
    let encode = feed(&mut job, exited(true, "crf 40 VMAF 95\n", ""));
    let (_, args) = run_args(&encode);
    assert!(args.iter().any(|a| a.contains("[1:v:0]null[v1];anullsrc=d=1[a1];")));
    match feed(&mut job, exited(true, "", "")) {
        Action::Finish(r) => assert_eq!(r, Ok((40, Some("95".to_string())))),
        other => panic!("expected the end, got {:?}", other),
    }
}

#[test]
fn unsupported_encoder_stops_the_job() {
    let (mut job, _) = EncodeJob::new("ffmpeg", vec!["a.mp4".to_string()], "o.mp4", 90, 20);
    match feed(&mut job, exited(true, "ffmpeg version 4.4.2\n", "")) {
        Action::Finish(r) => assert_eq!(r, Err(Error { kind: ErrorKind::NotSupportedCommandVersion(4, 4) })),
        other => panic!("expected the end, got {:?}", other),
    }
}

#[test]
fn missing_encoder_binary_is_reported() {
    let mut job = through_version_checks(&["va.mp4"]);
    let probed = Event::Probed(vec![Some(va())]);
    assert!(!job.accepts(&Event::Probed(vec![])));
    feed(&mut job, probed);
    feed(&mut job, exited(true, "crf 30 VMAF 97.5\n", ""));
    match feed(&mut job, Event::CommandDone(CommandOutcome::NotStarted("not found".to_string()))) {
        Action::Finish(r) => assert_eq!(r, Err(Error { kind: ErrorKind::FfmpegCommandProcessFailed("not found".to_string()) })),
        other => panic!("expected the end, got {:?}", other),
    }
}
