//! Text-to-speech requests: how the segments and their emotions are formed
//! from the command line, and the limits they must keep.
use vstd::prelude::*;
use crate::text::{self, char_count, is_blank_str, push_u64, trim_str};
use crate::failure::{self, Failure};
use crate::validators;

verus! {

/// One spoken segment: its text and, optionally, its emotion.
#[derive(Debug)]
pub struct TtsSegment {
    pub content: String,
    pub emotion: Option<String>,
}

pub open spec fn opt_view(o: Option<String>) -> Option<Seq<char>> {
    match o {
        Some(s) => Some(s@),
        None => None,
    }
}

pub open spec fn segment_view(s: TtsSegment) -> (Seq<char>, Option<Seq<char>>) {
    (s.content@, opt_view(s.emotion))
}

pub open spec fn segment_views(v: Seq<TtsSegment>) -> Seq<(Seq<char>, Option<Seq<char>>)> {
    v.map_values(|s: TtsSegment| segment_view(s))
}

/// The emotion given for position `i`, unless it is missing or blank.
pub open spec fn emotion_at(emotions: Seq<Seq<char>>, i: int) -> Option<Seq<char>> {
    if 0 <= i < emotions.len() && !text::is_blank(emotions[i]) {
        Some(emotions[i])
    } else {
        None
    }
}

/// Most segments one request may hold.
pub open spec fn max_segments() -> nat {
    20
}

/// Most characters one segment may hold.
pub open spec fn max_segment_chars() -> nat {
    2000
}

/// The segments formed from a single `--prompt` (with the first emotion)
/// or from the `--text` values (each paired with the emotion at its
/// position), or the message that rejects the combination.
pub open spec fn tts_segment_list(
    prompt: Option<Seq<char>>,
    texts: Seq<Seq<char>>,
    emotions: Seq<Seq<char>>,
) -> Result<Seq<(Seq<char>, Option<Seq<char>>)>, Seq<char>> {
    match prompt {
        Some(p) => if text::is_blank(p) {
            Err("Prompt cannot be empty"@)
        } else {
            Ok(seq![(p, emotion_at(emotions, 0))])
        },
        None => if texts.len() > 0 {
            if emotions.len() > texts.len() {
                Err(
                    "Too many --emotion values ("@ + text::decimal(emotions.len())
                        + "): must not exceed number of --text segments ("@ + text::decimal(
                        texts.len(),
                    ) + ")"@,
                )
            } else {
                Ok(Seq::new(texts.len(), |i: int| (texts[i], emotion_at(emotions, i))))
            }
        } else {
            Err("Either --prompt or at least one --text is required"@)
        },
    }
}

/// The message for the segment at position `i`, if it breaks a limit.
pub open spec fn segment_error(i: int, content: Seq<char>) -> Option<Seq<char>> {
    if text::is_blank(content) {
        Some("Segment "@ + text::decimal((i + 1) as nat) + " text cannot be empty"@)
    } else if content.len() > max_segment_chars() {
        Some(
            "Segment "@ + text::decimal((i + 1) as nat) + " text too long ("@ + text::decimal(
                content.len(),
            ) + " characters). Maximum: 2000"@,
        )
    } else {
        None
    }
}

/// The message for the first segment at or after position `i` that breaks a limit.
pub open spec fn first_segment_error(segs: Seq<(Seq<char>, Option<Seq<char>>)>, i: int) -> Option<
    Seq<char>,
>
    decreases segs.len() - i,
{
    if i < 0 || i >= segs.len() {
        None
    } else if segment_error(i, segs[i].0) is Some {
        segment_error(i, segs[i].0)
    } else {
        first_segment_error(segs, i + 1)
    }
}

/// The segments of a TTS request, or the message that rejects it.
pub open spec fn tts_plan(
    prompt: Option<Seq<char>>,
    texts: Seq<Seq<char>>,
    emotions: Seq<Seq<char>>,
) -> Result<Seq<(Seq<char>, Option<Seq<char>>)>, Seq<char>> {
    match tts_segment_list(prompt, texts, emotions) {
        Err(m) => Err(m),
        Ok(segs) => if segs.len() > max_segments() {
            Err("Too many segments ("@ + text::decimal(segs.len()) + "). Maximum: 20"@)
        } else {
            match first_segment_error(segs, 0) {
                Some(m) => Err(m),
                None => Ok(segs),
            }
        },
    }
}

fn emotion_for(emotions: &Vec<String>, i: usize) -> (r: Option<String>)
    ensures
        opt_view(r) == emotion_at(text::string_views(emotions@), i as int),
{
    if i < emotions.len() {
        if is_blank_str(emotions[i].as_str()) {
            None
        } else {
            Some(emotions[i].clone())
        }
    } else {
        None
    }
}

fn check_segment(i: usize, content: &str) -> (r: Option<String>)
    requires
        i < 100,
    ensures
        match r {
            Some(m) => segment_error(i as int, content@) == Some(m@),
            None => segment_error(i as int, content@) is None,
        },
{
    if is_blank_str(content) {
        let mut m = String::new();
        m.append("Segment ");
        push_u64(&mut m, (i + 1) as u64);
        m.append(" text cannot be empty");
        return Some(m);
    }
    let n = char_count(content);
    if n > 2000 {
        let mut m = String::new();
        m.append("Segment ");
        push_u64(&mut m, (i + 1) as u64);
        m.append(" text too long (");
        push_u64(&mut m, n as u64);
        m.append(" characters). Maximum: 2000");
        return Some(m);
    }
    None
}

/// Forms the segments of a TTS request from `--prompt` or the `--text`
/// values and their `--emotion` values, and checks their number and length.
pub fn plan_tts_segments(prompt: Option<&str>, texts: &Vec<String>, emotions: &Vec<String>) -> (r:
    Result<Vec<TtsSegment>, Failure>)
    ensures
        match r {
            Ok(v) => tts_plan(
                opt_str_view(prompt),
                text::string_views(texts@),
                text::string_views(emotions@),
            ) == Ok::<_, Seq<char>>(segment_views(v@)),
            Err(f) => failure::is_client(f) && tts_plan(
                opt_str_view(prompt),
                text::string_views(texts@),
                text::string_views(emotions@),
            ) == Err::<Seq<(Seq<char>, Option<Seq<char>>)>, _>(f.message@),
        },
{
    let ghost ts = text::string_views(texts@);
    let ghost es = text::string_views(emotions@);
    let ghost list = tts_segment_list(opt_str_view(prompt), ts, es);
    let mut segs: Vec<TtsSegment> = Vec::new();
    match prompt {
        Some(p) => {
            if is_blank_str(p) {
                return Err(Failure::client_str("Prompt cannot be empty"));
            }
            let mut c = String::new();
            c.append(p);
            segs.push(TtsSegment { content: c, emotion: emotion_for(emotions, 0) });
            assert(segment_views(segs@) =~= list->Ok_0);
        },
        None => {
            if texts.len() == 0 {
                return Err(
                    Failure::client_str("Either --prompt or at least one --text is required"),
                );
            }
            if emotions.len() > texts.len() {
                let mut m = String::new();
                m.append("Too many --emotion values (");
                push_u64(&mut m, emotions.len() as u64);
                m.append("): must not exceed number of --text segments (");
                push_u64(&mut m, texts.len() as u64);
                m.append(")");
                return Err(Failure::client(m));
            }
            let mut i: usize = 0;
            while i < texts.len()
                invariant
                    i <= texts@.len(),
                    ts == text::string_views(texts@),
                    es == text::string_views(emotions@),
                    segs@.len() == i,
                    forall|j: int|
                        0 <= j < i ==> #[trigger] segment_view(segs@[j]) == (
                            ts[j],
                            emotion_at(es, j),
                        ),
                decreases texts.len() - i,
            {
                let e = emotion_for(emotions, i);
                segs.push(TtsSegment { content: texts[i].clone(), emotion: e });
                i = i + 1;
            }
            assert(segment_views(segs@) =~= list->Ok_0);
        },
    }
    assert(list == Ok::<_, Seq<char>>(segment_views(segs@)));
    let ghost sv = segment_views(segs@);
    if segs.len() > 20 {
        let mut m = String::new();
        m.append("Too many segments (");
        push_u64(&mut m, segs.len() as u64);
        m.append("). Maximum: 20");
        return Err(Failure::client(m));
    }
    let mut i: usize = 0;
    while i < segs.len()
        invariant
            i <= segs@.len(),
            segs@.len() <= 20,
            ts == text::string_views(texts@),
            es == text::string_views(emotions@),
            sv == segment_views(segs@),
            tts_segment_list(opt_str_view(prompt), ts, es) == Ok::<_, Seq<char>>(sv),
            first_segment_error(sv, 0) == first_segment_error(sv, i as int),
        decreases segs.len() - i,
    {
        assert(sv[i as int].0 == segs@[i as int].content@);
        match check_segment(i, segs[i].content.as_str()) {
            Some(m) => {
                assert(first_segment_error(sv, i as int) == Some(m@));
                return Err(Failure::client(m));
            },
            None => {},
        }
        i = i + 1;
    }
    Ok(segs)
}

proof fn lemma_no_segment_error(segs: Seq<(Seq<char>, Option<Seq<char>>)>, i: int)
    requires
        0 <= i,
        forall|j: int| i <= j < segs.len() ==> !text::is_blank(#[trigger] segs[j].0) && segs[j].0.len()
            <= 2000,
    ensures
        first_segment_error(segs, i) is None,
    decreases segs.len() - i,
{
    if i < segs.len() {
        lemma_no_segment_error(segs, i + 1);
    }
}

/// With `--text` values, every segment is its text paired with the
/// `--emotion` at the same position when one is given there and is not
/// blank, and with no emotion otherwise; the segments are accepted when
/// there are 1 to 20 texts, none blank or over 2000 characters, and no more
/// emotions than texts, and refused when there are more emotions than texts.
/// With `--prompt`, the one segment carries the first emotion on the same
/// terms.
pub proof fn law_segments_pair_texts_with_emotions(
    prompt: Seq<char>,
    texts: Seq<Seq<char>>,
    emotions: Seq<Seq<char>>,
)
    ensures
        tts_plan(None, texts, emotions) matches Ok(segs) ==> {
            &&& segs.len() == texts.len()
            &&& forall|i: int| 0 <= i < texts.len() ==> (#[trigger] segs[i]).0 == texts[i] && (if i
                < emotions.len() && !text::is_blank(emotions[i]) {
                segs[i].1 == Some(emotions[i])
            } else {
                segs[i].1 is None
            })
        },
        0 < texts.len() <= 20 && emotions.len() <= texts.len() && (forall|i: int|
            0 <= i < texts.len() ==> !text::is_blank(#[trigger] texts[i]) && texts[i].len() <= 2000)
            ==> tts_plan(None, texts, emotions) is Ok,
        0 < texts.len() < emotions.len() ==> tts_plan(None, texts, emotions) is Err,
        tts_plan(Some(prompt), texts, emotions) matches Ok(segs) ==> segs == seq![
            (
                prompt,
                if emotions.len() > 0 && !text::is_blank(emotions[0]) {
                    Some(emotions[0])
                } else {
                    None
                },
            ),
        ],
{
    if 0 < texts.len() <= 20 && emotions.len() <= texts.len() && (forall|i: int|
        0 <= i < texts.len() ==> !text::is_blank(#[trigger] texts[i]) && texts[i].len() <= 2000) {
        let segs = Seq::new(texts.len(), |i: int| (texts[i], emotion_at(emotions, i)));
        assert forall|j: int| 0 <= j < segs.len() implies !text::is_blank(#[trigger] segs[j].0)
            && segs[j].0.len() <= 2000 by {
            assert(segs[j].0 == texts[j]);
        }
        lemma_no_segment_error(segs, 0);
    }
}

pub open spec fn opt_str_view(o: Option<&str>) -> Option<Seq<char>> {
    match o {
        Some(s) => Some(s@),
        None => None,
    }
}

/// The language boost to send: the trimmed value, unless it is blank.
pub open spec fn language_boost_value(lb: Option<Seq<char>>) -> Option<Seq<char>> {
    match lb {
        Some(s) => if text::trim(s).len() > 0 {
            Some(text::trim(s))
        } else {
            None
        },
        None => None,
    }
}

/// The language boost to send for an optional `--language-boost` value.
pub fn language_boost(lb: Option<&str>) -> (r: Option<String>)
    ensures
        opt_view(r) == language_boost_value(opt_str_view(lb)),
{
    match lb {
        Some(s) => {
            let t = trim_str(s);
            if t.is_empty() {
                None
            } else {
                let mut r = String::new();
                r.append(t);
                assert(r@ =~= t@);
                Some(r)
            }
        },
        None => None,
    }
}

/// A TTS task as it is sent (the JSON request body), but for the speed,
/// which the command line sends as given: type `tts`, the segments as
/// prompts (each a text with its optional emotion), `enhance` true, and the
/// voice, volume (`vol`), schedule mode and optional language boost.
#[derive(Debug)]
pub struct TtsRequest {
    pub task_type: String,
    pub prompts: Vec<TtsSegment>,
    pub enhance: bool,
    pub voice_id: String,
    pub volume: i32,
    pub schedule_mode: String,
    pub language_boost: Option<String>,
}

/// Forms the TTS request from planned segments, after checking the volume
/// (0-100); the language boost is sent trimmed, unless it is blank.
pub fn tts_request(
    segments: Vec<TtsSegment>,
    voice_id: &str,
    volume: i32,
    language_boost_arg: Option<&str>,
    schedule_mode: &str,
) -> (r: Result<TtsRequest, Failure>)
    ensures
        match r {
            Ok(q) => {
                &&& validators::tts_volume_error(volume as int).len() == 0
                &&& q.task_type@ == "tts"@
                &&& q.enhance
                &&& q.prompts@ == segments@
                &&& q.voice_id@ == voice_id@
                &&& q.volume == volume
                &&& q.schedule_mode@ == schedule_mode@
                &&& opt_view(q.language_boost) == language_boost_value(opt_str_view(language_boost_arg))
            },
            Err(f) => validators::tts_volume_error(volume as int).len() > 0
                && failure::is_client_failure(f, validators::tts_volume_error(volume as int)),
        },
{
    let err = validators::validate_tts_volume(volume);
    if !err.as_str().is_empty() {
        return Err(Failure::client(err));
    }
    Ok(
        TtsRequest {
            task_type: text::owned("tts"),
            prompts: segments,
            enhance: true,
            voice_id: text::owned(voice_id),
            volume,
            schedule_mode: text::owned(schedule_mode),
            language_boost: language_boost(language_boost_arg),
        },
    )
}

} // verus!
