//! One encoding job as a state machine. Its caller runs each requested
//! command or probe and hands the outcome back; the job decides what comes
//! next, from the version checks to the final encode.
use vstd::prelude::*;
use crate::command::{Command, CommandOutcome, args_view, push_arg};
use crate::encode::{best_input_index, encode_arg_list, encode_args, encode_result, encode_verdict, is_best_input, FFMPEG_CMD_STR};
use crate::error::{Error, ErrorKind, Failure};
use crate::filter::{filter_program, get_avfilter_code};
use crate::input::{InputFile, ProbeInfo, analyze_all, analyzed, copy_text, text_of};
use crate::search::{crf_search_arg_list, crf_search_args, get_best_crf, quality_view, search_verdict, AB_AV1_CMD_STR};
use crate::version::{check_command, version_check_verdict, AB_AV1_STDOUT_RETRIEVE_VERSION_REGEX_SOURCE, FFMPEG_STDOUT_RETRIEVE_VERSION_REGEX_SOURCE};

verus! {

/// Supported encoder versions: this major, at least this minor.
pub const FFMPEG_MAJOR_VERSION: u8 = 6;
pub const FFMPEG_MIN_MINOR_VERSION: u8 = 0;

/// Supported search tool versions: this major, at least this minor.
pub const AB_AV1_MAJOR_VERSION: u8 = 0;
pub const AB_AV1_MIN_MINOR_VERSION: u8 = 7;

/// Where a job stands.
#[derive(Debug, PartialEq, Eq, Structural, Clone, Copy)]
pub enum Stage {
    CheckEncoder,
    CheckSearcher,
    Analyze,
    Search,
    Encode,
    Done,
}

/// What the job asks of its caller.
#[derive(Debug)]
pub enum Action {
    /// Run this command and hand back its outcome.
    Run(Command),
    /// Probe these files, in order, and hand back what each gave (`None`
    /// where the probe failed).
    Probe(Vec<String>),
    /// The job is over: the quality parameter used and the predicted score,
    /// or why it stopped.
    Finish(Result<(u8, Option<String>), Error>),
}

/// What the caller hands back.
#[derive(Debug)]
pub enum Event {
    CommandDone(CommandOutcome),
    Probed(Vec<Option<ProbeInfo>>),
}

/// An encoding job: the encoder program, the inputs in order, the output
/// path, the quality floor and the caller's parameter floor, and what the
/// job has learnt so far.
pub struct EncodeJob {
    encoder: String,
    input_video_paths: Vec<String>,
    output_video_path: String,
    enough_vmaf: u8,
    min_crf: u8,
    stage: Stage,
    input_files: Vec<InputFile>,
    reference: usize,
    crf: u8,
    vmaf: Option<String>,
}

pub open spec fn runs(a: Action, program: Seq<char>, args: Seq<Seq<char>>) -> bool {
    &&& (a matches Action::Run(c) && c.program@ == program && args_view(c.args) == args)
}

pub open spec fn finishes(a: Action, r: Result<(u8, Option<Seq<char>>), Failure>) -> bool {
    &&& (a matches Action::Finish(res) && quality_view(res) == r)
}

pub open spec fn failure_of<T>(r: Result<T, Failure>) -> Result<(u8, Option<Seq<char>>), Failure> {
    Err(r->Err_0)
}

/// The filter program that the encoder gets for these inputs: none for a
/// single input.
pub open spec fn program_for(s: Seq<InputFile>) -> Option<Seq<char>> {
    if s.len() >= 2 {
        Some(filter_program(s))
    } else {
        None
    }
}

impl EncodeJob {
    pub closed spec fn stage(&self) -> Stage {
        self.stage
    }

    pub closed spec fn paths(&self) -> Seq<String> {
        self.input_video_paths@
    }

    pub closed spec fn encoder(&self) -> Seq<char> {
        self.encoder@
    }

    pub closed spec fn output_path(&self) -> Seq<char> {
        self.output_video_path@
    }

    pub closed spec fn enough_vmaf(&self) -> u8 {
        self.enough_vmaf
    }

    pub closed spec fn min_crf(&self) -> u8 {
        self.min_crf
    }

    /// The usable inputs, once analysed.
    pub closed spec fn inputs(&self) -> Seq<InputFile> {
        self.input_files@
    }

    /// Index of the input the quality search runs on.
    pub closed spec fn reference(&self) -> int {
        self.reference as int
    }

    /// The path of the input the quality search runs on.
    pub open spec fn reference_path(&self) -> Seq<char> {
        self.inputs()[self.reference()].path@
    }

    /// The parameter and score the search gave, once it has run.
    pub closed spec fn found(&self) -> (u8, Option<Seq<char>>) {
        (self.crf, text_of(self.vmaf))
    }

    pub open spec fn settings_kept(&self, old: &EncodeJob) -> bool {
        &&& self.encoder() == old.encoder()
        &&& self.paths() == old.paths()
        &&& self.output_path() == old.output_path()
        &&& self.enough_vmaf() == old.enough_vmaf()
        &&& self.min_crf() == old.min_crf()
    }

    /// While the job searches and encodes, its reference input is the first
    /// of largest area.
    pub closed spec fn wf(&self) -> bool {
        (self.stage == Stage::Search || self.stage == Stage::Encode) ==> is_best_input(
            self.input_files@,
            self.reference as int,
        )
    }

    /// Whether `event` is what the job waits for: a probe result for every
    /// path while it analyses, a command outcome at the other stages, and
    /// nothing once it is done.
    pub open spec fn expects(&self, event: Event) -> bool {
        match event {
            Event::CommandDone(_) => self.stage() != Stage::Analyze && self.stage() != Stage::Done,
            Event::Probed(p) => self.stage() == Stage::Analyze && p.len() == self.paths().len(),
        }
    }

    /// A job that will encode `input_video_paths` in order into
    /// `output_video_path` with `encoder`, and its first request: the
    /// encoder's version.
    pub fn new(
        encoder: &str,
        input_video_paths: Vec<String>,
        output_video_path: &str,
        enough_vmaf: u8,
        min_crf: u8,
    ) -> (r: (EncodeJob, Action))
        ensures
            r.0.wf(),
            r.0.stage() == Stage::CheckEncoder,
            r.0.paths() == input_video_paths@,
            r.0.encoder() == encoder@,
            r.0.output_path() == output_video_path@,
            r.0.enough_vmaf() == enough_vmaf,
            r.0.min_crf() == min_crf,
            runs(r.1, FFMPEG_CMD_STR@, seq!["-version"@]),
    {
        let job = EncodeJob {
            encoder: String::from_str(encoder),
            input_video_paths,
            output_video_path: String::from_str(output_video_path),
            enough_vmaf,
            min_crf,
            stage: Stage::CheckEncoder,
            input_files: Vec::new(),
            reference: 0,
            crf: 0,
            vmaf: None,
        };
        let mut args: Vec<String> = Vec::new();
        push_arg(&mut args, "-version");
        assert(args_view(args) =~= seq!["-version"@]);
        (job, Action::Run(Command { program: String::from_str(FFMPEG_CMD_STR), args }))
    }

    /// Where the job stands.
    pub fn current_stage(&self) -> (r: Stage)
        ensures
            r == self.stage(),
    {
        self.stage
    }

    /// Whether the job waits for `event`.
    pub fn accepts(&self, event: &Event) -> (r: bool)
        ensures
            r == self.expects(*event),
    {
        match event {
            Event::CommandDone(_) => self.stage != Stage::Analyze && self.stage != Stage::Done,
            Event::Probed(p) => self.stage == Stage::Analyze && p.len()
                == self.input_video_paths.len(),
        }
    }

    fn finish(&mut self, r: Result<(u8, Option<String>), Error>) -> (a: Action)
        ensures
            final(self).stage() == Stage::Done,
            final(self).settings_kept(old(self)),
            final(self).wf(),
            a == Action::Finish(r),
    {
        self.stage = Stage::Done;
        Action::Finish(r)
    }

    /// Takes the outcome of the current request and returns the next one.
    pub fn advance(&mut self, event: Event) -> (a: Action)
        requires
            old(self).wf(),
            old(self).expects(event),
        ensures
            final(self).wf(),
            final(self).settings_kept(old(self)),
            match (old(self).stage(), event) {
                (Stage::CheckEncoder, Event::CommandDone(o)) => {
                    let v = version_check_verdict(
                        FFMPEG_MAJOR_VERSION,
                        FFMPEG_MIN_MINOR_VERSION,
                        FFMPEG_STDOUT_RETRIEVE_VERSION_REGEX_SOURCE@,
                        o,
                    );
                    if v is Ok {
                        final(self).stage() == Stage::CheckSearcher && runs(
                            a,
                            AB_AV1_CMD_STR@,
                            seq!["--version"@],
                        )
                    } else {
                        final(self).stage() == Stage::Done && finishes(a, failure_of(v))
                    }
                },
                (Stage::CheckSearcher, Event::CommandDone(o)) => {
                    let v = version_check_verdict(
                        AB_AV1_MAJOR_VERSION,
                        AB_AV1_MIN_MINOR_VERSION,
                        AB_AV1_STDOUT_RETRIEVE_VERSION_REGEX_SOURCE@,
                        o,
                    );
                    if v is Ok {
                        &&& final(self).stage() == Stage::Analyze
                        &&& (a matches Action::Probe(p) && p@ == old(self).paths())
                    } else {
                        final(self).stage() == Stage::Done && finishes(a, failure_of(v))
                    }
                },
                (Stage::Analyze, Event::Probed(p)) => {
                    let kept = analyzed(old(self).paths(), p@);
                    if kept.len() == 0 {
                        final(self).stage() == Stage::Done && finishes(
                            a,
                            Err(Failure::NoAvailableVideoStream),
                        )
                    } else {
                        &&& final(self).stage() == Stage::Search
                        &&& final(self).inputs().map_values(|f: InputFile| f@) == kept
                        &&& is_best_input(final(self).inputs(), final(self).reference())
                        &&& runs(
                            a,
                            AB_AV1_CMD_STR@,
                            crf_search_arg_list(
                                final(self).reference_path(),
                                old(self).enough_vmaf(),
                                old(self).min_crf(),
                            ),
                        )
                    }
                },
                (Stage::Search, Event::CommandDone(o)) => {
                    let v = search_verdict(old(self).reference_path(), old(self).min_crf(), o);
                    match v {
                        Ok((crf, vmaf)) => {
                            &&& final(self).stage() == Stage::Encode
                            &&& final(self).inputs() == old(self).inputs()
                            &&& final(self).reference() == old(self).reference()
                            &&& final(self).found() == (crf, vmaf)
                            &&& runs(
                                a,
                                old(self).encoder(),
                                encode_arg_list(
                                    old(self).inputs(),
                                    program_for(old(self).inputs()),
                                    crf,
                                    old(self).output_path(),
                                ),
                            )
                        },
                        Err(_) => final(self).stage() == Stage::Done && finishes(a, v),
                    }
                },
                (Stage::Encode, Event::CommandDone(o)) => final(self).stage() == Stage::Done
                    && finishes(a, encode_verdict(old(self).found().0, old(self).found().1, o)),
                _ => false,
            },
    {
        match event {
            Event::CommandDone(o) => {
                match self.stage {
                    Stage::CheckEncoder => {
                        match check_command(
                            FFMPEG_MAJOR_VERSION,
                            FFMPEG_MIN_MINOR_VERSION,
                            &o,
                            FFMPEG_STDOUT_RETRIEVE_VERSION_REGEX_SOURCE,
                        ) {
                            Err(e) => self.finish(Err(e)),
                            Ok(()) => {
                                self.stage = Stage::CheckSearcher;
                                let mut args: Vec<String> = Vec::new();
                                push_arg(&mut args, "--version");
                                assert(args_view(args) =~= seq!["--version"@]);
                                Action::Run(
                                    Command { program: String::from_str(AB_AV1_CMD_STR), args },
                                )
                            },
                        }
                    },
                    Stage::CheckSearcher => {
                        match check_command(
                            AB_AV1_MAJOR_VERSION,
                            AB_AV1_MIN_MINOR_VERSION,
                            &o,
                            AB_AV1_STDOUT_RETRIEVE_VERSION_REGEX_SOURCE,
                        ) {
                            Err(e) => self.finish(Err(e)),
                            Ok(()) => {
                                self.stage = Stage::Analyze;
                                Action::Probe(self.input_video_paths.clone())
                            },
                        }
                    },
                    Stage::Search => {
                        let path = self.input_files[self.reference].path.as_str();
                        match get_best_crf(path, self.min_crf, &o) {
                            Err(e) => self.finish(Err(e)),
                            Ok((crf, vmaf)) => {
                                let filter_code = if self.input_files.len() >= 2 {
                                    Some(get_avfilter_code(&self.input_files))
                                } else {
                                    None
                                };
                                let args = encode_args(
                                    &self.input_files,
                                    &filter_code,
                                    crf,
                                    self.output_video_path.as_str(),
                                );
                                self.stage = Stage::Encode;
                                self.crf = crf;
                                self.vmaf = vmaf;
                                Action::Run(Command { program: self.encoder.clone(), args })
                            },
                        }
                    },
                    _ => {
                        let vmaf = copy_text(&self.vmaf);
                        let r = encode_result(self.crf, vmaf, &o);
                        self.finish(r)
                    },
                }
            },
            Event::Probed(probes) => {
                let input_files = analyze_all(&self.input_video_paths, &probes);
                if input_files.len() == 0 {
                    proof {
                        assert(input_files@.map_values(|f: InputFile| f@).len() == 0);
                    }
                    self.finish(Err(Error { kind: ErrorKind::NoAvailableVideoStream }))
                } else {
                    let reference = best_input_index(&input_files);
                    let args = crf_search_args(
                        input_files[reference].path.as_str(),
                        self.enough_vmaf,
                        self.min_crf,
                    );
                    self.input_files = input_files;
                    self.reference = reference;
                    self.stage = Stage::Search;
                    Action::Run(Command { program: String::from_str(AB_AV1_CMD_STR), args })
                }
            },
        }
    }
}

} // verus!
