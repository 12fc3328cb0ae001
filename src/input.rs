//! Inputs that survived analysis.
use vstd::prelude::*;

verus! {

/// A usable input: where it is, the size of its first video stream, and,
/// when it has no audio stream of its own, the duration (decimal seconds)
/// of the silent track that stands in for it.
#[derive(Debug)]
pub struct InputFile {
    pub path: String,
    pub width: u64,
    pub height: u64,
    pub alternative_null_audio_duration: Option<String>,
}

/// The silent-track duration as characters.
pub open spec fn silence_of(f: InputFile) -> Option<Seq<char>> {
    match f.alternative_null_audio_duration {
        Some(d) => Some(d@),
        None => None,
    }
}

/// Pixel count of an input.
pub open spec fn area(f: InputFile) -> int {
    f.width * f.height
}

} // verus!

verus! {

/// What the analysis reads of one probed stream. `duration` is the stream's
/// duration in seconds as decimal text, `None` where the probe gave none or
/// gave one that is not a finite number.
#[derive(Debug)]
pub struct StreamInfo {
    pub codec_type: Option<String>,
    pub width: Option<i64>,
    pub height: Option<i64>,
    pub duration: Option<String>,
}

/// What the analysis reads of one probed file: its streams in order and the
/// container's duration, under the same convention as a stream's.
#[derive(Debug)]
pub struct ProbeInfo {
    pub streams: Vec<StreamInfo>,
    pub format_duration: Option<String>,
}

pub open spec fn text_of(t: Option<String>) -> Option<Seq<char>> {
    match t {
        Some(s) => Some(s@),
        None => None,
    }
}

pub open spec fn has_kind(st: StreamInfo, kind: Seq<char>) -> bool {
    text_of(st.codec_type) == Some(kind)
}

pub open spec fn is_first_of_kind(s: Seq<StreamInfo>, kind: Seq<char>, i: int) -> bool {
    &&& 0 <= i < s.len()
    &&& has_kind(s[i], kind)
    &&& forall|j: int| 0 <= j < i ==> !has_kind(#[trigger] s[j], kind)
}

/// Index of the first stream of the given codec type.
pub open spec fn first_of_kind(s: Seq<StreamInfo>, kind: Seq<char>) -> Option<int> {
    if exists|i: int| is_first_of_kind(s, kind, i) {
        Some(choose|i: int| is_first_of_kind(s, kind, i))
    } else {
        None
    }
}

/// Stream-level duration first, else the container's.
pub open spec fn duration_of(st: StreamInfo, format_duration: Option<String>) -> Option<Seq<char>> {
    match st.duration {
        Some(d) => Some(d@),
        None => text_of(format_duration),
    }
}

/// Width, height and silent-track duration of a usable probe, `None` for an
/// unusable one: no video stream, its width or height unknown or negative,
/// or, without an audio stream, no duration for the silence.
pub open spec fn analysis_of(p: ProbeInfo) -> Option<(u64, u64, Option<Seq<char>>)> {
    match first_of_kind(p.streams@, "video"@) {
        None => None,
        Some(v) => {
            let st = p.streams@[v];
            match (st.width, st.height) {
                (Some(w), Some(h)) => if w < 0 || h < 0 {
                    None
                } else {
                    match first_of_kind(p.streams@, "audio"@) {
                        Some(_) => Some((w as u64, h as u64, None)),
                        None => match duration_of(st, p.format_duration) {
                            Some(d) => Some((w as u64, h as u64, Some(d))),
                            None => None,
                        },
                    }
                },
                _ => None,
            }
        },
    }
}

impl View for InputFile {
    type V = (Seq<char>, u64, u64, Option<Seq<char>>);

    open spec fn view(&self) -> Self::V {
        (self.path@, self.width, self.height, silence_of(*self))
    }
}

/// The inputs that survive analysis, in order, as views.
pub open spec fn analyzed(paths: Seq<String>, probes: Seq<Option<ProbeInfo>>) -> Seq<
    (Seq<char>, u64, u64, Option<Seq<char>>),
>
    decreases paths.len(),
{
    if paths.len() == 0 || probes.len() == 0 {
        Seq::empty()
    } else {
        let rest = analyzed(paths.drop_last(), probes.drop_last());
        match probes.last() {
            Some(p) => match analysis_of(p) {
                Some((w, h, d)) => rest.push((paths.last()@, w, h, d)),
                None => rest,
            },
            None => rest,
        }
    }
}

/// Index of the first stream whose codec type is `codec_type`.
pub fn get_first_stream_for_codec_type(codec_type: &str, streams: &Vec<StreamInfo>) -> (r: Option<
    usize,
>)
    ensures
        r matches Some(i) ==> first_of_kind(streams@, codec_type@) == Some(i as int),
        r is None ==> first_of_kind(streams@, codec_type@) is None,
{
    let kind = String::from_str(codec_type);
    let mut i: usize = 0;
    while i < streams.len()
        invariant
            i <= streams@.len(),
            kind@ == codec_type@,
            forall|j: int| 0 <= j < i ==> !has_kind(#[trigger] streams@[j], codec_type@),
        decreases streams@.len() - i,
    {
        let found = match &streams[i].codec_type {
            Some(t) => *t == kind,
            None => false,
        };
        if found {
            assert(is_first_of_kind(streams@, codec_type@, i as int));
            proof {
                let k = choose|k: int| is_first_of_kind(streams@, codec_type@, k);
                assert(k == i) by {
                    if k < i {
                        assert(!has_kind(streams@[k], codec_type@));
                    }
                    if k > i {
                        assert(!has_kind(streams@[i as int], codec_type@));
                    }
                }
            }
            return Some(i);
        }
        i = i + 1;
    }
    proof {
        if exists|k: int| is_first_of_kind(streams@, codec_type@, k) {
            let k = choose|k: int| is_first_of_kind(streams@, codec_type@, k);
            assert(!has_kind(streams@[k], codec_type@));
        }
    }
    None
}

/// Index of the first video stream.
pub fn get_first_video_stream(streams: &Vec<StreamInfo>) -> (r: Option<usize>)
    ensures
        r matches Some(i) ==> first_of_kind(streams@, "video"@) == Some(i as int),
        r is None ==> first_of_kind(streams@, "video"@) is None,
{
    get_first_stream_for_codec_type("video", streams)
}

/// Index of the first audio stream.
pub fn get_first_audio_stream(streams: &Vec<StreamInfo>) -> (r: Option<usize>)
    ensures
        r matches Some(i) ==> first_of_kind(streams@, "audio"@) == Some(i as int),
        r is None ==> first_of_kind(streams@, "audio"@) is None,
{
    get_first_stream_for_codec_type("audio", streams)
}

pub(crate) fn copy_text(t: &Option<String>) -> (r: Option<String>)
    ensures
        text_of(r) == text_of(*t),
{
    match t {
        Some(s) => Some(s.clone()),
        None => None,
    }
}

/// The duration of the stream, or else of the container.
pub fn get_stream_duration(stream: &StreamInfo, format_duration: &Option<String>) -> (r: Option<
    String,
>)
    ensures
        text_of(r) == duration_of(*stream, *format_duration),
{
    match &stream.duration {
        Some(d) => Some(d.clone()),
        None => copy_text(format_duration),
    }
}

/// The usable input that the probe of `path` describes, or `None` where
/// `analysis_of` finds it unusable.
pub fn analyze_video_file_impl(path: &str, probe: &ProbeInfo) -> (r: Option<InputFile>)
    ensures
        match analysis_of(*probe) {
            None => r is None,
            Some((w, h, d)) => r matches Some(f) && f@ == (path@, w, h, d),
        },
{
    let v = match get_first_video_stream(&probe.streams) {
        Some(v) => v,
        None => return None,
    };
    let stream = &probe.streams[v];
    let (width, height) = match (stream.width, stream.height) {
        (Some(w), Some(h)) => (w, h),
        _ => return None,
    };
    if width < 0 || height < 0 {
        return None;
    }
    let alternative_null_audio_duration = match get_first_audio_stream(&probe.streams) {
        Some(_) => None,
        None => match get_stream_duration(stream, &probe.format_duration) {
            Some(d) => Some(d),
            None => return None,
        },
    };
    Some(
        InputFile {
            path: String::from_str(path),
            width: width as u64,
            height: height as u64,
            alternative_null_audio_duration,
        },
    )
}

/// Analyses every probed path in order and keeps the usable ones; a path
/// whose probe failed (`None`) is dropped like an unusable one.
pub fn analyze_all(paths: &Vec<String>, probes: &Vec<Option<ProbeInfo>>) -> (r: Vec<InputFile>)
    requires
        paths.len() == probes.len(),
    ensures
        r@.map_values(|f: InputFile| f@) == analyzed(paths@, probes@),
{
    let mut out: Vec<InputFile> = Vec::new();
    let mut i: usize = 0;
    while i < paths.len()
        invariant
            i <= paths@.len(),
            paths@.len() == probes@.len(),
            out@.map_values(|f: InputFile| f@) == analyzed(
                paths@.take(i as int),
                probes@.take(i as int),
            ),
        decreases paths@.len() - i,
    {
        assert(paths@.take(i + 1).drop_last() == paths@.take(i as int));
        assert(probes@.take(i + 1).drop_last() == probes@.take(i as int));
        if let Some(p) = &probes[i] {
            if let Some(f) = analyze_video_file_impl(paths[i].as_str(), p) {
                out.push(f);
            }
        }
        i = i + 1;
    }
    assert(paths@.take(i as int) == paths@);
    assert(probes@.take(i as int) == probes@);
    out
}

} // verus!

verus! {

/// An input is dropped exactly when it has no video stream, its first video
/// stream's width or height is unknown or negative, or it has no audio
/// stream and neither that video stream nor the container gives a duration;
/// a failed probe drops it too, and the batch keeps every other input, in
/// order.
pub proof fn lemma_analysis_drops_only_unusable(path: String, p: ProbeInfo)
    ensures
        analysis_of(p) is None <==> ({
            let v = first_of_kind(p.streams@, "video"@);
            let st = p.streams@[v->Some_0];
            ||| v is None
            ||| st.width is None
            ||| st.height is None
            ||| st.width->Some_0 < 0
            ||| st.height->Some_0 < 0
            ||| (first_of_kind(p.streams@, "audio"@) is None && st.duration is None
                && p.format_duration is None)
        }),
        analyzed(seq![path], seq![None::<ProbeInfo>]) == Seq::<
            (Seq<char>, u64, u64, Option<Seq<char>>),
        >::empty(),
        analysis_of(p) is None ==> analyzed(seq![path], seq![Some(p)]) == Seq::<
            (Seq<char>, u64, u64, Option<Seq<char>>),
        >::empty(),
{
    reveal_with_fuel(analyzed, 2);
    assert(seq![path].drop_last().len() == 0);
}

} // verus!
