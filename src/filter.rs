//! The filter program that brings every input to one frame size, gives each
//! a labelled audio branch and concatenates them.
use vstd::prelude::*;
use vstd::seq_lib::lemma_flatten_concat;
use crate::input::{InputFile, silence_of};
use crate::text::{decimal, decimal_text, index_text};

verus! {

/// Largest width among the inputs (0 for none).
pub open spec fn max_width(s: Seq<InputFile>) -> nat
    decreases s.len(),
{
    if s.len() == 0 {
        0
    } else {
        let m = max_width(s.drop_last());
        if s.last().width > m {
            s.last().width as nat
        } else {
            m
        }
    }
}

/// Largest height among the inputs (0 for none).
pub open spec fn max_height(s: Seq<InputFile>) -> nat
    decreases s.len(),
{
    if s.len() == 0 {
        0
    } else {
        let m = max_height(s.drop_last());
        if s.last().height > m {
            s.last().height as nat
        } else {
            m
        }
    }
}

/// Pure rescale to the target size.
pub open spec fn scale_filter(tw: nat, th: nat) -> Seq<char> {
    "scale="@ + decimal(tw) + ":"@ + decimal(th)
}

/// Rescale inside the target box keeping the aspect ratio, then pad to the
/// target size with the picture centred.
pub open spec fn letterbox_filter(tw: nat, th: nat) -> Seq<char> {
    scale_filter(tw, th) + ":force_original_aspect_ratio=decrease,pad="@ + decimal(tw) + ":"@
        + decimal(th) + ":(ow-iw)/2:(oh-ih)/2"@
}

/// Video filter for a `w`x`h` input and a `tw`x`th` target: identity when the
/// sizes agree, rescale when the aspect ratios agree, letterbox otherwise.
pub open spec fn video_filter(w: nat, h: nat, tw: nat, th: nat) -> Seq<char> {
    if w == tw && h == th {
        "null"@
    } else if w * th == h * tw {
        scale_filter(tw, th)
    } else {
        letterbox_filter(tw, th)
    }
}

pub open spec fn video_statement(i: nat, f: InputFile, tw: nat, th: nat) -> Seq<char> {
    "["@ + decimal(i) + ":v:0]"@ + video_filter(f.width as nat, f.height as nat, tw, th) + "[v"@
        + decimal(i) + "];"@
}

/// Audio branch of input `i`: generated silence of the given duration, or
/// its own first audio stream through the neutral filter.
pub open spec fn audio_statement(i: nat, silence: Option<Seq<char>>) -> Seq<char> {
    match silence {
        Some(d) => "anullsrc=d="@ + d + "[a"@ + decimal(i) + "];"@,
        None => "["@ + decimal(i) + ":a:0]anull[a"@ + decimal(i) + "];"@,
    }
}

/// The two statements of each input, in input order.
pub open spec fn input_statements(s: Seq<InputFile>, tw: nat, th: nat) -> Seq<Seq<char>> {
    Seq::new(
        s.len(),
        |i: int| video_statement(i as nat, s[i], tw, th) + audio_statement(i as nat, silence_of(s[i])),
    )
}

/// The `k`-th input tag of the concatenation: video of input `k / 2` for even
/// `k`, its audio for odd `k`.
pub open spec fn concat_tag(k: nat) -> Seq<char> {
    if k % 2 == 0 {
        "[v"@ + decimal(k / 2) + "]"@
    } else {
        "[a"@ + decimal(k / 2) + "]"@
    }
}

pub open spec fn concat_tags(n: nat) -> Seq<Seq<char>> {
    Seq::new(2 * n, |k: int| concat_tag(k as nat))
}

pub open spec fn concat_statement(n: nat) -> Seq<char> {
    concat_tags(n).flatten() + "concat=n="@ + decimal(n) + ":v=1:a=1[vout][aout]"@
}

/// The whole program for the inputs `s`.
pub open spec fn filter_program(s: Seq<InputFile>) -> Seq<char> {
    input_statements(s, max_width(s), max_height(s)).flatten() + concat_statement(s.len())
}

/// The video filter that the program gives input `i` of `s`.
pub open spec fn input_video_filter(s: Seq<InputFile>, i: int) -> Seq<char> {
    video_filter(s[i].width as nat, s[i].height as nat, max_width(s), max_height(s))
}

/// Every input's width is at most the largest, and some input has it; the
/// same for heights.
pub proof fn lemma_target_is_max(s: Seq<InputFile>)
    ensures
        forall|i: int| 0 <= i < s.len() ==> #[trigger] s[i].width <= max_width(s) && s[i].height
            <= max_height(s),
        s.len() > 0 ==> exists|i: int| 0 <= i < s.len() && #[trigger] s[i].width == max_width(s),
        s.len() > 0 ==> exists|i: int| 0 <= i < s.len() && #[trigger] s[i].height == max_height(s),
    decreases s.len(),
{
    if s.len() > 0 {
        let t = s.drop_last();
        lemma_target_is_max(t);
        assert forall|i: int| 0 <= i < s.len() implies #[trigger] s[i].width <= max_width(s)
            && s[i].height <= max_height(s) by {
            if i < t.len() {
                assert(s[i] == t[i]);
            }
        }
        if s.last().width <= max_width(t) && t.len() > 0 {
            let j = choose|j: int| 0 <= j < t.len() && #[trigger] t[j].width == max_width(t);
            assert(s[j] == t[j]);
        } else {
            assert(s[s.len() - 1].width == max_width(s));
        }
        if s.last().height <= max_height(t) && t.len() > 0 {
            let j = choose|j: int| 0 <= j < t.len() && #[trigger] t[j].height == max_height(t);
            assert(s[j] == t[j]);
        } else {
            assert(s[s.len() - 1].height == max_height(s));
        }
    }
}

/// Inputs that all have one size are passed through the identity filter.
pub proof fn lemma_same_size_is_identity(s: Seq<InputFile>)
    requires
        s.len() > 0,
        forall|i: int| 0 <= i < s.len() ==> #[trigger] s[i].width == s[0].width && s[i].height
            == s[0].height,
    ensures
        forall|i: int| 0 <= i < s.len() ==> #[trigger] input_video_filter(s, i) == "null"@,
{
    lemma_target_is_max(s);
    let jw = choose|j: int| 0 <= j < s.len() && #[trigger] s[j].width == max_width(s);
    let jh = choose|j: int| 0 <= j < s.len() && #[trigger] s[j].height == max_height(s);
    assert(s[jw].width == s[0].width);
    assert(s[jh].width == s[0].width);
    assert(s[jh].height == s[0].height);
}

/// Two inputs with one aspect ratio and different sizes: each is passed
/// through or rescaled to the target size with no padding, and at least one
/// is rescaled.
pub proof fn lemma_same_aspect_is_rescale(a: InputFile, b: InputFile)
    requires
        a.width * b.height == a.height * b.width,
        a.width != b.width || a.height != b.height,
    ensures
        ({
            let s = seq![a, b];
            let target = scale_filter(max_width(s), max_height(s));
            &&& forall|i: int| 0 <= i < 2 ==> #[trigger] input_video_filter(s, i) == "null"@
                || input_video_filter(s, i) == target
            &&& exists|i: int| 0 <= i < 2 && #[trigger] input_video_filter(s, i) == target
        }),
{
    let s = seq![a, b];
    reveal_with_fuel(max_width, 3);
    reveal_with_fuel(max_height, 3);
    assert(s.drop_last() == seq![a]);
    assert(seq![a].drop_last() == Seq::<InputFile>::empty());
    let (w1, h1, w2, h2) = (a.width as int, a.height as int, b.width as int, b.height as int);
    let tw = if w2 > w1 { w2 } else { w1 };
    let th = if h2 > h1 { h2 } else { h1 };
    assert(max_width(s) == tw && max_height(s) == th);
    assert(s[0] == a && s[1] == b);
    assert(w1 * th == h1 * tw && w2 * th == h2 * tw) by (nonlinear_arith)
        requires
            w1 >= 0,
            h1 >= 0,
            w2 >= 0,
            h2 >= 0,
            w1 * h2 == h1 * w2,
            tw == if w2 > w1 { w2 } else { w1 },
            th == if h2 > h1 { h2 } else { h1 },
    ;
    assert(input_video_filter(s, 0) == "null"@ || input_video_filter(s, 0) == scale_filter(max_width(s), max_height(s)));
    assert(input_video_filter(s, 1) == "null"@ || input_video_filter(s, 1) == scale_filter(max_width(s), max_height(s)));
    if input_video_filter(s, 0) == "null"@ {
        assert(w1 == tw && h1 == th) by {
            reveal_strlit("null");
            reveal_strlit("scale=");
            if !(w1 == tw && h1 == th) {
                assert(input_video_filter(s, 0)[0] == 's');
            }
        }
        assert(!(w2 == tw && h2 == th));
        assert(input_video_filter(s, 1) == scale_filter(max_width(s), max_height(s)));
    } else {
        assert(input_video_filter(s, 0) == scale_filter(max_width(s), max_height(s)));
    }
}

/// Two inputs with different aspect ratios: each is passed through or
/// scaled inside the target box and padded, centred, to it; at least one is
/// padded.
pub proof fn lemma_other_aspect_is_letterboxed(a: InputFile, b: InputFile)
    requires
        a.width * b.height != a.height * b.width,
    ensures
        ({
            let s = seq![a, b];
            let target = letterbox_filter(max_width(s), max_height(s));
            &&& forall|i: int| 0 <= i < 2 ==> #[trigger] input_video_filter(s, i) == "null"@
                || input_video_filter(s, i) == target
            &&& exists|i: int| 0 <= i < 2 && #[trigger] input_video_filter(s, i) == target
        }),
{
    let s = seq![a, b];
    reveal_with_fuel(max_width, 3);
    reveal_with_fuel(max_height, 3);
    assert(s.drop_last() == seq![a]);
    assert(seq![a].drop_last() == Seq::<InputFile>::empty());
    let (w1, h1, w2, h2) = (a.width as int, a.height as int, b.width as int, b.height as int);
    let tw = if w2 > w1 { w2 } else { w1 };
    let th = if h2 > h1 { h2 } else { h1 };
    assert(max_width(s) == tw && max_height(s) == th);
    assert(s[0] == a && s[1] == b);
    assert((w1 == tw && h1 == th) || w1 * th != h1 * tw) by (nonlinear_arith)
        requires
            w1 >= 0,
            h1 >= 0,
            w2 >= 0,
            h2 >= 0,
            w1 * h2 != h1 * w2,
            tw == if w2 > w1 { w2 } else { w1 },
            th == if h2 > h1 { h2 } else { h1 },
    ;
    assert((w2 == tw && h2 == th) || w2 * th != h2 * tw) by (nonlinear_arith)
        requires
            w1 >= 0,
            h1 >= 0,
            w2 >= 0,
            h2 >= 0,
            w1 * h2 != h1 * w2,
            tw == if w2 > w1 { w2 } else { w1 },
            th == if h2 > h1 { h2 } else { h1 },
    ;
    assert(!(w1 == tw && h1 == th) || !(w2 == tw && h2 == th)) by (nonlinear_arith)
        requires
            w1 * h2 != h1 * w2,
    ;
    if w1 == tw && h1 == th {
        assert(input_video_filter(s, 1) == letterbox_filter(max_width(s), max_height(s)));
    } else {
        assert(input_video_filter(s, 0) == letterbox_filter(max_width(s), max_height(s)));
    }
}

/// Input `i`'s two statements: `[i:v:0]<its video filter>[vi];`, then
/// generated silence of its duration (`anullsrc=d=<d>[ai];`) where it has no
/// audio track of its own, or its own track through the neutral filter
/// (`[i:a:0]anull[ai];`).
pub open spec fn input_text(s: Seq<InputFile>, i: int) -> Seq<char> {
    "["@ + decimal(i as nat) + ":v:0]"@ + input_video_filter(s, i) + "[v"@ + decimal(i as nat)
        + "];"@ + match silence_of(s[i]) {
        Some(d) => "anullsrc=d="@ + d + "[a"@ + decimal(i as nat) + "];"@,
        None => "["@ + decimal(i as nat) + ":a:0]anull[a"@ + decimal(i as nat) + "];"@,
    }
}

/// Input `i`'s statements stand, whole and in order, in the program.
pub proof fn lemma_input_statements_in_program(s: Seq<InputFile>, i: int)
    requires
        0 <= i < s.len(),
    ensures
        exists|p: int|
            0 <= p && p + input_text(s, i).len() <= filter_program(s).len() && #[trigger] filter_program(
                s,
            ).subrange(p, p + input_text(s, i).len()) == input_text(s, i),
{
    let x = input_statements(s, max_width(s), max_height(s));
    let stmt = x[i];
    assert(x == x.take(i) + x.skip(i));
    lemma_flatten_concat(x.take(i), x.skip(i));
    assert(x.skip(i).first() == stmt);
    assert(x.skip(i).drop_first() == x.skip(i + 1));
    let p = x.take(i).flatten().len() as int;
    let prog = filter_program(s);
    assert(prog == x.take(i).flatten() + (stmt + x.skip(i + 1).flatten()) + concat_statement(
        s.len(),
    ));
    assert(prog.subrange(p, p + stmt.len()) == stmt);
    assert(stmt == input_text(s, i));
}

/// The concatenation lists `2 * n` tags, `[vi]` then `[ai]` for each input
/// in order, and the program ends with them and `concat=n=<n>:v=1:a=1[vout][aout]`.
pub proof fn lemma_concat_lists_every_input(s: Seq<InputFile>)
    ensures
        concat_tags(s.len()).len() == 2 * s.len(),
        forall|i: int|
            0 <= i < s.len() ==> #[trigger] concat_tags(s.len())[2 * i] == "[v"@ + decimal(i as nat)
                + "]"@ && concat_tags(s.len())[2 * i + 1] == "[a"@ + decimal(i as nat) + "]"@,
        ({
            let tail = concat_tags(s.len()).flatten() + "concat=n="@ + decimal(s.len()) + ":v=1:a=1[vout][aout]"@;
            let prog = filter_program(s);
            tail.len() <= prog.len() && prog.subrange(prog.len() - tail.len(), prog.len() as int)
                == tail
        }),
{
    assert forall|i: int| 0 <= i < s.len() implies #[trigger] concat_tags(s.len())[2 * i] == "[v"@
        + decimal(i as nat) + "]"@ && concat_tags(s.len())[2 * i + 1] == "[a"@ + decimal(i as nat)
        + "]"@ by {
        assert((2 * i) / 2 == i && (2 * i) % 2 == 0) by (nonlinear_arith);
        assert((2 * i + 1) / 2 == i && (2 * i + 1) % 2 == 1) by (nonlinear_arith);
    }
    let prog = filter_program(s);
    let head = input_statements(s, max_width(s), max_height(s)).flatten();
    let tail = concat_statement(s.len());
    assert(prog.subrange(head.len() as int, prog.len() as int) == tail);
}

/// Largest width and height among the inputs.
pub fn target_size(input_files: &Vec<InputFile>) -> (r: (u64, u64))
    ensures
        r.0 as nat == max_width(input_files@),
        r.1 as nat == max_height(input_files@),
{
    let mut w: u64 = 0;
    let mut h: u64 = 0;
    let mut i: usize = 0;
    while i < input_files.len()
        invariant
            i <= input_files@.len(),
            w as nat == max_width(input_files@.take(i as int)),
            h as nat == max_height(input_files@.take(i as int)),
        decreases input_files@.len() - i,
    {
        assert(input_files@.take(i + 1).drop_last() == input_files@.take(i as int));
        if input_files[i].width > w {
            w = input_files[i].width;
        }
        if input_files[i].height > h {
            h = input_files[i].height;
        }
        i = i + 1;
    }
    assert(input_files@.take(i as int) == input_files@);
    (w, h)
}

fn video_filter_text(w: u64, h: u64, tw: u64, th: u64) -> (r: String)
    ensures
        r@ == video_filter(w as nat, h as nat, tw as nat, th as nat),
{
    if w == tw && h == th {
        String::from_str("null")
    } else {
        let mut s = String::from_str("scale=");
        let tws = decimal_text(tw);
        let ths = decimal_text(th);
        s.append(tws.as_str());
        s.append(":");
        s.append(ths.as_str());
        let (wl, hl, twl, thl) = (w as u128, h as u128, tw as u128, th as u128);
        assert(wl * thl <= 0xffff_ffff_ffff_ffff * 0xffff_ffff_ffff_ffff) by (nonlinear_arith)
            requires
                wl <= 0xffff_ffff_ffff_ffff,
                thl <= 0xffff_ffff_ffff_ffff,
        ;
        assert(hl * twl <= 0xffff_ffff_ffff_ffff * 0xffff_ffff_ffff_ffff) by (nonlinear_arith)
            requires
                hl <= 0xffff_ffff_ffff_ffff,
                twl <= 0xffff_ffff_ffff_ffff,
        ;
        if wl * thl != hl * twl {
            s.append(":force_original_aspect_ratio=decrease,pad=");
            s.append(tws.as_str());
            s.append(":");
            s.append(ths.as_str());
            s.append(":(ow-iw)/2:(oh-ih)/2");
        }
        s
    }
}

/// Appends the video and audio statements of input `i` (whose decimal text is `index`).
fn push_input_statements(
    code: &mut String,
    index: &String,
    Ghost(i): Ghost<nat>,
    f: &InputFile,
    tw: u64,
    th: u64,
)
    requires
        index@ == decimal(i),
    ensures
        final(code)@ == old(code)@ + (video_statement(i, *f, tw as nat, th as nat) + audio_statement(
            i,
            silence_of(*f),
        )),
{
    let ghost start = code@;
    code.append("[");
    code.append(index.as_str());
    code.append(":v:0]");
    let vf = video_filter_text(f.width, f.height, tw, th);
    code.append(vf.as_str());
    code.append("[v");
    code.append(index.as_str());
    code.append("];");
    let ghost mid = code@;
    assert(mid == start + video_statement(i, *f, tw as nat, th as nat));
    match &f.alternative_null_audio_duration {
        Some(d) => {
            code.append("anullsrc=d=");
            code.append(d.as_str());
            code.append("[a");
            code.append(index.as_str());
            code.append("];");
        },
        None => {
            code.append("[");
            code.append(index.as_str());
            code.append(":a:0]anull[a");
            code.append(index.as_str());
            code.append("];");
        },
    }
    assert(code@ == mid + audio_statement(i, silence_of(*f)));
}

/// Appends the concatenation tags `[vi][ai]` of input `i`.
fn push_concat_tags(code: &mut String, index: &String, Ghost(i): Ghost<nat>)
    requires
        index@ == decimal(i),
        old(code)@ == concat_tags(i).flatten(),
    ensures
        final(code)@ == concat_tags(i + 1).flatten(),
{
    proof {
        let t = concat_tags(i);
        let a = concat_tag(2 * i);
        let b = concat_tag(2 * i + 1);
        assert(concat_tags(i + 1) == t.push(a).push(b));
        t.lemma_flatten_push(a);
        t.push(a).lemma_flatten_push(b);
        assert((2 * i) / 2 == i) by (nonlinear_arith);
        assert((2 * i + 1) / 2 == i) by (nonlinear_arith);
        assert((2 * i) % 2 == 0) by (nonlinear_arith);
        assert((2 * i + 1) % 2 == 1) by (nonlinear_arith);
    }
    code.append("[v");
    code.append(index.as_str());
    code.append("]");
    code.append("[a");
    code.append(index.as_str());
    code.append("]");
}

/// The filter program for the inputs, in their order: for input `i` a video
/// statement `[i:v:0]<filter>[vi];` and an audio statement (`anullsrc=d=<d>[ai];`
/// or `[i:a:0]anull[ai];`), then `[v0][a0]...concat=n=<N>:v=1:a=1[vout][aout]`.
pub fn get_avfilter_code(input_files: &Vec<InputFile>) -> (r: String)
    requires
        0 < input_files.len(),
    ensures
        r@ == filter_program(input_files@),
{
    let ghost s = input_files@;
    let (tw, th) = target_size(input_files);
    let ghost stmts = input_statements(s, tw as nat, th as nat);
    let mut filter_code = String::new();
    let mut concat_code = String::new();
    let mut i: usize = 0;
    while i < input_files.len()
        invariant
            s == input_files@,
            i <= s.len(),
            stmts == input_statements(s, tw as nat, th as nat),
            filter_code@ == stmts.take(i as int).flatten(),
            concat_code@ == concat_tags(i as nat).flatten(),
        decreases s.len() - i,
    {
        let index = index_text(i);
        push_input_statements(&mut filter_code, &index, Ghost(i as nat), &input_files[i], tw, th);
        push_concat_tags(&mut concat_code, &index, Ghost(i as nat));
        proof {
            assert(stmts.take(i + 1) == stmts.take(i as int).push(stmts[i as int]));
            stmts.take(i as int).lemma_flatten_push(stmts[i as int]);
        }
        i = i + 1;
    }
    assert(stmts.take(i as int) == stmts);
    filter_code.append(concat_code.as_str());
    filter_code.append("concat=n=");
    filter_code.append(index_text(i).as_str());
    filter_code.append(":v=1:a=1[vout][aout]");
    filter_code
}

} // verus!
