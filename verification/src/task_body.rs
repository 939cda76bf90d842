//! The shape of a task request as the validator reads it, and the checks
//! that the client applies before a task is submitted.
use vstd::prelude::*;
use crate::text::{self, append_joined, contains_str, empty_str, push_i64, push_u128, push_u64, str_eq};
use crate::catalog::{
    self, valid_aspect_ratios, duration_ranges, image_video_transition_list, valid_model_versions,
    resolution_support, model_support, valid_task_types,
};

verus! {

/// What a JSON object holds under one key, as far as the validators read it:
/// nothing, a string, or some other JSON value.
#[derive(Debug)]
pub enum JsonField {
    Absent,
    Text(String),
    Other,
}

impl JsonField {
    /// The string held under the key, or `d` when there is none
    /// (`get(..).and_then(as_str).unwrap_or(d)`).
    pub open spec fn text_or(self, d: Seq<char>) -> Seq<char> {
        match self {
            JsonField::Text(s) => s@,
            _ => d,
        }
    }

    /// Whether the key is present at all (`get(..).is_some()`).
    pub open spec fn is_present(self) -> bool {
        !(self is Absent)
    }

    pub fn text_or_str<'a>(&'a self, d: &'a str) -> (r: &'a str)
        ensures
            r@ == self.text_or(d@),
    {
        match self {
            JsonField::Text(s) => s.as_str(),
            _ => d,
        }
    }

    pub fn present(&self) -> (b: bool)
        ensures
            b == self.is_present(),
    {
        match self {
            JsonField::Absent => false,
            _ => true,
        }
    }
}

/// The `input` object of a task request.
#[derive(Debug)]
pub struct TaskInput {
    /// `Some` when `prompts` is an array: the `type` of each of its items.
    pub prompts: Option<Vec<JsonField>>,
    /// Whether the `enhance` key is present.
    pub has_enhance: bool,
}

/// The `settings` object of a task request.
#[derive(Debug)]
pub struct TaskSettings {
    pub model_version: JsonField,
    /// `Some` when `duration` is a number that fits `i64`.
    pub duration: Option<i64>,
    pub resolution: JsonField,
    pub aspect_ratio: JsonField,
    pub transition: JsonField,
}

/// A task request: its `type`, and its `input` and `settings` when each is
/// a JSON object.
#[derive(Debug)]
pub struct TaskBody {
    pub task_type: JsonField,
    pub input: Option<TaskInput>,
    pub settings: Option<TaskSettings>,
}

/// How many prompts have the type `k`.
pub open spec fn count_typed(ps: Seq<JsonField>, k: Seq<char>) -> nat
    decreases ps.len(),
{
    if ps.len() == 0 {
        0
    } else {
        count_typed(ps.drop_last(), k) + (if ps.last().text_or(Seq::empty()) == k
            && ps.last() is Text {
            1nat
        } else {
            0nat
        })
    }
}

pub open spec fn sep() -> Seq<char> {
    ", "@
}

/// The error for the number of image and material prompts, if any.
pub open spec fn count_error(t: Seq<char>, ic: nat, mc: nat) -> Option<Seq<char>> {
    if t == "img2video"@ && ic != 1 {
        Some("img2video requires exactly 1 image, got "@ + text::decimal(ic))
    } else if t == "headtailimg2video"@ && ic != 2 {
        Some("headtailimg2video requires exactly 2 images, got "@ + text::decimal(ic))
    } else if (t == "reference2image"@ || t == "character2video"@) && ic + mc > 7 {
        Some(t + " allows max 7 images+materials, got "@ + text::decimal(ic + mc))
    } else {
        None
    }
}

/// The error for the duration, if any. Model 3.2_a takes only the
/// automatic duration -1.
pub open spec fn duration_error(t: Seq<char>, m: Seq<char>, d: int) -> Option<Seq<char>> {
    if m == "3.2_a"@ && d != -1 {
        Some("duration "@ + text::int_text(d) + " invalid for 3.2_a (use -1 for automatic duration)"@)
    } else {
        match catalog::duration_bounds(t, m) {
            Some((lo, hi)) => if lo > 0 && (d < lo || d > hi) {
                Some(
                    "duration "@ + text::int_text(d) + " out of range ["@ + text::int_text(lo) + ", "@
                        + text::int_text(hi) + "] for "@ + t + " with "@ + m,
                )
            } else {
                None
            },
            None => None,
        }
    }
}

/// The task types that take no aspect ratio.
pub open spec fn takes_no_aspect_ratio(t: Seq<char>) -> bool {
    t == "img2video"@ || t == "headtailimg2video"@ || t == "text2image"@
}

/// The error for the aspect ratio, if any.
pub open spec fn aspect_error(t: Seq<char>, ar: JsonField) -> Option<Seq<char>> {
    if !takes_no_aspect_ratio(t) && ar is Text && !catalog::aspect_ratios().contains(ar.text_or(Seq::empty())) {
        Some(
            "Invalid aspect_ratio '"@ + ar.text_or(Seq::empty()) + "'. Valid: "@ + text::join(
                catalog::aspect_ratios(),
                sep(),
            ),
        )
    } else {
        None
    }
}

/// The error for a transition given with a task type and model, if any.
pub open spec fn transition_error(t: Seq<char>, m: Seq<char>, tr: JsonField) -> Option<Seq<char>> {
    if !tr.is_present() {
        None
    } else if catalog::is_image_type(t) {
        Some(t + " should not include transition"@)
    } else if t == "text2video"@ && m != "3.2"@ {
        Some(
            "text2video with "@ + m + " should not include transition (only 3.2 supports pro/speed)"@,
        )
    } else if (t == "img2video"@ || t == "headtailimg2video"@) && !catalog::image_video_transitions(
        m,
    ).contains(tr.text_or(Seq::empty())) {
        Some(
            "Invalid transition '"@ + tr.text_or(Seq::empty()) + "' for "@ + t + " "@ + m
                + ". Valid: "@ + text::join(catalog::image_video_transitions(m), sep()),
        )
    } else {
        None
    }
}

/// The error for the transition of a character2video task, if any.
pub open spec fn character_error(t: Seq<char>, m: Seq<char>, tr: JsonField) -> Option<Seq<char>> {
    if t != "character2video"@ {
        None
    } else if m == "3.2"@ {
        match tr {
            JsonField::Text(s) => if s@ != "speed"@ && s@ != "pro"@ {
                Some(
                    "Invalid transition '"@ + s@
                        + "' for character2video 3.2. Valid: pro, speed"@,
                )
            } else {
                None
            },
            _ => Some("character2video with 3.2 requires transition parameter (speed or pro)"@),
        }
    } else if tr.is_present() {
        Some(
            "character2video with "@ + m
                + " should not include transition (only 3.2 supports pro/speed)"@,
        )
    } else {
        None
    }
}

/// The error for the settings of a task of type `t`, if any.
pub open spec fn settings_error(t: Seq<char>, s: TaskSettings) -> Option<Seq<char>> {
    let m = s.model_version.text_or("2.0"@);
    let d: int = match s.duration {
        Some(d) => d as int,
        None => 0,
    };
    let res = s.resolution.text_or(Seq::empty());
    if !catalog::model_versions().contains(m) {
        Some("Invalid model_version '"@ + m + "'. Valid: "@ + text::join(catalog::model_versions(), sep()))
    } else if catalog::supported_models(t) is Some && !catalog::supported_models(t)->0.contains(m) {
        Some("model_version "@ + m + " does not support "@ + t)
    } else if duration_error(t, m, d) is Some {
        duration_error(t, m, d)
    } else if !s.resolution.is_present() {
        Some("resolution is required for "@ + t)
    } else if !catalog::resolutions_for(t).contains(res) {
        Some(
            "Invalid resolution '"@ + res + "' for "@ + t + ". Valid: "@ + text::join(
                catalog::resolutions_for(t),
                sep(),
            ),
        )
    } else if aspect_error(t, s.aspect_ratio) is Some {
        aspect_error(t, s.aspect_ratio)
    } else if transition_error(t, m, s.transition) is Some {
        transition_error(t, m, s.transition)
    } else {
        character_error(t, m, s.transition)
    }
}

/// What the validator reads of the `input` object: when `prompts` is an
/// array, its length and the numbers of image and material prompts; and
/// whether `enhance` is present.
pub open spec fn input_summary(i: Option<TaskInput>) -> Option<(Option<(nat, nat, nat)>, bool)> {
    match i {
        None => None,
        Some(input) => Some(
            (
                match input.prompts {
                    Some(ps) => Some(
                        (
                            ps@.len(),
                            count_typed(ps@, "image"@),
                            count_typed(ps@, "material"@),
                        ),
                    ),
                    None => None,
                },
                input.has_enhance,
            ),
        ),
    }
}

/// The message that rejects a task of type `t` with the given input summary
/// and settings, or the empty text.
pub open spec fn task_error(
    t: Seq<char>,
    input: Option<(Option<(nat, nat, nat)>, bool)>,
    settings: Option<TaskSettings>,
) -> Seq<char> {
    if t.len() == 0 {
        "Missing required field: type"@
    } else if !catalog::task_types().contains(t) {
        "Invalid type '"@ + t + "'. Valid: "@ + text::join(catalog::task_types(), sep())
    } else {
        match input {
            None => "input must be an object"@,
            Some((prompts, has_enhance)) => match prompts {
                Some((n, ic, mc)) if n > 0 => {
                    if count_error(t, ic, mc) is Some {
                        count_error(t, ic, mc)->0
                    } else {
                        match settings {
                            None => "settings must be an object"@,
                            Some(s) => if settings_error(t, s) is Some {
                                settings_error(t, s)->0
                            } else if !has_enhance {
                                "input.enhance is required (true or false)"@
                            } else {
                                Seq::empty()
                            },
                        }
                    }
                },
                _ => "input.prompts is required and must not be empty"@,
            },
        }
    }
}

/// The message that rejects a task request, or the empty text when the
/// request passes every check.
pub open spec fn task_body_error(b: TaskBody) -> Seq<char> {
    task_error(b.task_type.text_or(Seq::empty()), input_summary(b.input), b.settings)
}

fn count_prompts(ps: &Vec<JsonField>, k: &str) -> (n: usize)
    ensures
        n == count_typed(ps@, k@),
{
    let mut n: usize = 0;
    let mut i: usize = 0;
    while i < ps.len()
        invariant
            i <= ps@.len(),
            n == count_typed(ps@.take(i as int), k@),
            n <= i,
        decreases ps.len() - i,
    {
        proof {
            assert(ps@.take(i + 1).drop_last() =~= ps@.take(i as int));
        }
        match &ps[i] {
            JsonField::Text(s) => {
                if str_eq(s.as_str(), k) {
                    n = n + 1;
                }
            },
            _ => {},
        }
        i = i + 1;
    }
    assert(ps@.take(ps@.len() as int) =~= ps@);
    n
}

pub fn count_message(t: &str, ic: usize, mc: usize) -> (r: Option<String>)
    ensures
        match r {
            Some(m) => count_error(t@, ic as nat, mc as nat) == Some(m@),
            None => count_error(t@, ic as nat, mc as nat) is None,
        },
{
    if str_eq(t, "img2video") && ic != 1 {
        let mut m = String::new();
        m.append("img2video requires exactly 1 image, got ");
        push_u64(&mut m, ic as u64);
        Some(m)
    } else if str_eq(t, "headtailimg2video") && ic != 2 {
        let mut m = String::new();
        m.append("headtailimg2video requires exactly 2 images, got ");
        push_u64(&mut m, ic as u64);
        Some(m)
    } else if (str_eq(t, "reference2image") || str_eq(t, "character2video")) && (ic as u128) + (mc as u128) > 7 {
        let mut m = String::new();
        m.append(t);
        m.append(" allows max 7 images+materials, got ");
        push_u128(&mut m, (ic as u128) + (mc as u128));
        Some(m)
    } else {
        None
    }
}

fn duration_message(t: &str, m: &str, d: i64) -> (r: Option<String>)
    ensures
        match r {
            Some(x) => duration_error(t@, m@, d as int) == Some(x@),
            None => duration_error(t@, m@, d as int) is None,
        },
{
    if str_eq(m, "3.2_a") && d != -1 {
        let mut x = String::new();
        x.append("duration ");
        push_i64(&mut x, d);
        x.append(" invalid for 3.2_a (use -1 for automatic duration)");
        return Some(x);
    }
    match duration_ranges(t, m) {
        Some((lo, hi)) => {
            if lo > 0 && (d < lo || d > hi) {
                let mut x = String::new();
                x.append("duration ");
                push_i64(&mut x, d);
                x.append(" out of range [");
                push_i64(&mut x, lo);
                x.append(", ");
                push_i64(&mut x, hi);
                x.append("] for ");
                x.append(t);
                x.append(" with ");
                x.append(m);
                Some(x)
            } else {
                None
            }
        },
        None => None,
    }
}

fn aspect_message(t: &str, ar: &JsonField) -> (r: Option<String>)
    ensures
        match r {
            Some(x) => aspect_error(t@, *ar) == Some(x@),
            None => aspect_error(t@, *ar) is None,
        },
{
    let no_ar = str_eq(t, "img2video") || str_eq(t, "headtailimg2video") || str_eq(t, "text2image");
    if no_ar {
        return None;
    }
    match ar {
        JsonField::Text(a) => {
            let valid = valid_aspect_ratios();
            if !contains_str(&valid, a.as_str()) {
                let mut x = String::new();
                x.append("Invalid aspect_ratio '");
                x.append(a.as_str());
                x.append("'. Valid: ");
                append_joined(&mut x, &valid, ", ");
                Some(x)
            } else {
                None
            }
        },
        _ => None,
    }
}

fn transition_message(t: &str, m: &str, tr: &JsonField) -> (r: Option<String>)
    ensures
        match r {
            Some(x) => transition_error(t@, m@, *tr) == Some(x@),
            None => transition_error(t@, m@, *tr) is None,
        },
{
    if !tr.present() {
        return None;
    }
    if str_eq(t, "reference2image") || str_eq(t, "text2image") {
        let mut x = String::new();
        x.append(t);
        x.append(" should not include transition");
        return Some(x);
    }
    if str_eq(t, "text2video") && !str_eq(m, "3.2") {
        let mut x = String::new();
        x.append("text2video with ");
        x.append(m);
        x.append(" should not include transition (only 3.2 supports pro/speed)");
        return Some(x);
    }
    if str_eq(t, "img2video") || str_eq(t, "headtailimg2video") {
        let s = tr.text_or_str(empty_str());
        let valid = image_video_transition_list(m);
        if !contains_str(&valid, s) {
            let mut x = String::new();
            x.append("Invalid transition '");
            x.append(s);
            x.append("' for ");
            x.append(t);
            x.append(" ");
            x.append(m);
            x.append(". Valid: ");
            append_joined(&mut x, &valid, ", ");
            return Some(x);
        }
    }
    None
}

fn character_message(t: &str, m: &str, tr: &JsonField) -> (r: Option<String>)
    ensures
        match r {
            Some(x) => character_error(t@, m@, *tr) == Some(x@),
            None => character_error(t@, m@, *tr) is None,
        },
{
    if !str_eq(t, "character2video") {
        return None;
    }
    if str_eq(m, "3.2") {
        match tr {
            JsonField::Text(s) => {
                if !str_eq(s.as_str(), "speed") && !str_eq(s.as_str(), "pro") {
                    let mut x = String::new();
                    x.append("Invalid transition '");
                    x.append(s.as_str());
                    x.append("' for character2video 3.2. Valid: pro, speed");
                    Some(x)
                } else {
                    None
                }
            },
            _ => {
                let mut x = String::new();
                x.append("character2video with 3.2 requires transition parameter (speed or pro)");
                Some(x)
            },
        }
    } else if tr.present() {
        let mut x = String::new();
        x.append("character2video with ");
        x.append(m);
        x.append(" should not include transition (only 3.2 supports pro/speed)");
        Some(x)
    } else {
        None
    }
}

pub fn settings_message(t: &str, s: &TaskSettings) -> (r: Option<String>)
    ensures
        match r {
            Some(x) => settings_error(t@, *s) == Some(x@),
            None => settings_error(t@, *s) is None,
        },
{
    let m = s.model_version.text_or_str("2.0");
    let d: i64 = match s.duration {
        Some(d) => d,
        None => 0,
    };
    let res = s.resolution.text_or_str(empty_str());
    let versions = valid_model_versions();
    if !contains_str(&versions, m) {
        let mut x = String::new();
        x.append("Invalid model_version '");
        x.append(m);
        x.append("'. Valid: ");
        append_joined(&mut x, &versions, ", ");
        return Some(x);
    }
    match model_support(t) {
        Some(supported) => {
            if !contains_str(&supported, m) {
                let mut x = String::new();
                x.append("model_version ");
                x.append(m);
                x.append(" does not support ");
                x.append(t);
                return Some(x);
            }
        },
        None => {},
    }
    let dm = duration_message(t, m, d);
    if dm.is_some() {
        return dm;
    }
    if !s.resolution.present() {
        let mut x = String::new();
        x.append("resolution is required for ");
        x.append(t);
        return Some(x);
    }
    let valid_res = resolution_support(t);
    if !contains_str(&valid_res, res) {
        let mut x = String::new();
        x.append("Invalid resolution '");
        x.append(res);
        x.append("' for ");
        x.append(t);
        x.append(". Valid: ");
        append_joined(&mut x, &valid_res, ", ");
        return Some(x);
    }
    let am = aspect_message(t, &s.aspect_ratio);
    if am.is_some() {
        return am;
    }
    let tm = transition_message(t, m, &s.transition);
    if tm.is_some() {
        return tm;
    }
    character_message(t, m, &s.transition)
}

/// Checks a task request before it is submitted: the empty string when it
/// passes, else the first rule that it breaks, as a message.
pub fn validate_task_body(body: &TaskBody) -> (r: String)
    ensures
        r@ == task_body_error(*body),
{
    let t = body.task_type.text_or_str(empty_str());
    if t.is_empty() {
        let mut x = String::new();
        x.append("Missing required field: type");
        return x;
    }
    let types = valid_task_types();
    if !contains_str(&types, t) {
        let mut x = String::new();
        x.append("Invalid type '");
        x.append(t);
        x.append("'. Valid: ");
        append_joined(&mut x, &types, ", ");
        return x;
    }
    let input = match &body.input {
        Some(i) => i,
        None => {
            let mut x = String::new();
            x.append("input must be an object");
            return x;
        },
    };
    let ps = match &input.prompts {
        Some(ps) => {
            if ps.len() == 0 {
                let mut x = String::new();
                x.append("input.prompts is required and must not be empty");
                return x;
            }
            ps
        },
        None => {
            let mut x = String::new();
            x.append("input.prompts is required and must not be empty");
            return x;
        },
    };
    let ic = count_prompts(ps, "image");
    let mc = count_prompts(ps, "material");
    let cm = count_message(t, ic, mc);
    match cm {
        Some(x) => {
            return x;
        },
        None => {},
    }
    let s = match &body.settings {
        Some(s) => s,
        None => {
            let mut x = String::new();
            x.append("settings must be an object");
            return x;
        },
    };
    match settings_message(t, s) {
        Some(x) => {
            return x;
        },
        None => {},
    }
    if !input.has_enhance {
        let mut x = String::new();
        x.append("input.enhance is required (true or false)");
        return x;
    }
    String::new()
}


/// The aspect ratios the documentation lists.
pub open spec fn is_listed_ratio(r: Seq<char>) -> bool {
    r == "16:9"@ || r == "9:16"@ || r == "1:1"@ || r == "4:3"@ || r == "3:4"@
}

/// The video models of the documented table with their durations: 3.0
/// takes 5 s, 3.1 takes 2 to 8 s, 3.2 takes 1 to 16 s.
pub open spec fn is_documented_video_duration(m: Seq<char>, d: int) -> bool {
    ||| m == "3.0"@ && d == 5
    ||| m == "3.1"@ && 2 <= d <= 8
    ||| m == "3.2"@ && 1 <= d <= 16
}

/// The transitions documented for a video task: creative or stable for an
/// image-driven task with 3.0, pro or speed for one with 3.1 or 3.2, and
/// pro or speed for text2video with 3.2.
pub open spec fn is_documented_transition(t: Seq<char>, m: Seq<char>, tr: Seq<char>) -> bool {
    ||| (t == "img2video"@ || t == "headtailimg2video"@) && m == "3.0"@ && (tr == "creative"@
        || tr == "stable"@)
    ||| (t == "img2video"@ || t == "headtailimg2video"@) && (m == "3.1"@ || m == "3.2"@) && (tr
        == "pro"@ || tr == "speed"@)
    ||| t == "text2video"@ && m == "3.2"@ && (tr == "pro"@ || tr == "speed"@)
}

/// The models documented for a task type (README and tests): 3.1,
/// 3.2_fast_m and 3.2_pro_m for the image types; 3.0, 3.1, 3.2 and 3.2_a
/// for text2video and img2video; 3.0, 3.1 and 3.2 for headtailimg2video;
/// 3.0, 3.1, 3.1_pro, 3.2 and 3.2_a for character2video.
pub open spec fn documented_models(t: Seq<char>) -> Seq<Seq<char>> {
    if t == "text2image"@ || t == "reference2image"@ {
        seq!["3.1"@, "3.2_fast_m"@, "3.2_pro_m"@]
    } else if t == "character2video"@ {
        seq!["3.0"@, "3.1"@, "3.1_pro"@, "3.2"@, "3.2_a"@]
    } else if t == "headtailimg2video"@ {
        seq!["3.0"@, "3.1"@, "3.2"@]
    } else {
        seq!["3.0"@, "3.1"@, "3.2"@, "3.2_a"@]
    }
}

/// The names in the task tables are told apart by their length or by one
/// of their first letters.
proof fn lemma_table_names_distinct()
    ensures
        "text2video"@ != "img2video"@,
        "text2video"@ != "headtailimg2video"@,
        "text2video"@ != "character2video"@,
        "text2video"@ != "text2image"@,
        "text2video"@ != "reference2image"@,
        "img2video"@ != "headtailimg2video"@,
        "img2video"@ != "character2video"@,
        "img2video"@ != "text2image"@,
        "img2video"@ != "reference2image"@,
        "headtailimg2video"@ != "character2video"@,
        "headtailimg2video"@ != "text2image"@,
        "headtailimg2video"@ != "reference2image"@,
        "character2video"@ != "text2image"@,
        "character2video"@ != "reference2image"@,
        "text2image"@ != "reference2image"@,
        "3.0"@ != "3.1"@,
        "3.0"@ != "3.2"@,
        "3.1"@ != "3.2"@,
        "3.0"@ != "3.2_a"@ && "3.1"@ != "3.2_a"@ && "3.2"@ != "3.2_a"@ && "3.1_pro"@ != "3.2_a"@,
        "3.0"@ != "3.1_pro"@ && "3.1"@ != "3.1_pro"@ && "3.2"@ != "3.1_pro"@,
        "3.1"@ != "3.2_fast_m"@ && "3.1"@ != "3.2_pro_m"@ && "3.2_fast_m"@ != "3.2_a"@
            && "3.2_pro_m"@ != "3.2_a"@ && "3.2_fast_m"@ != "3.2_pro_m"@,
        "image"@ != "material"@,
        "text2video"@.len() > 0 && "img2video"@.len() > 0 && "headtailimg2video"@.len() > 0
            && "character2video"@.len() > 0 && "text2image"@.len() > 0
            && "reference2image"@.len() > 0,
{
    reveal_strlit("text2video");
    reveal_strlit("img2video");
    reveal_strlit("headtailimg2video");
    reveal_strlit("character2video");
    reveal_strlit("text2image");
    reveal_strlit("reference2image");
    reveal_strlit("3.0");
    reveal_strlit("3.1");
    reveal_strlit("3.2");
    reveal_strlit("3.2_a");
    reveal_strlit("3.1_pro");
    reveal_strlit("3.2_fast_m");
    reveal_strlit("3.2_pro_m");
    reveal_strlit("image");
    reveal_strlit("material");
    assert("text2video"@.len() == 10 && "img2video"@.len() == 9 && "headtailimg2video"@.len() == 17
        && "character2video"@.len() == 15 && "text2image"@.len() == 10
        && "reference2image"@.len() == 15);
    assert("text2video"@[5] != "text2image"@[5]);
    assert("character2video"@[0] != "reference2image"@[0]);
    assert("3.0"@.len() == 3 && "3.1"@.len() == 3 && "3.2"@.len() == 3 && "3.2_a"@.len() == 5
        && "3.1_pro"@.len() == 7 && "3.2_fast_m"@.len() == 10 && "3.2_pro_m"@.len() == 9);
    assert("3.0"@[2] != "3.1"@[2] && "3.0"@[2] != "3.2"@[2] && "3.1"@[2] != "3.2"@[2]);
    assert("image"@.len() == 5 && "material"@.len() == 8);
}

/// A video task of the documented table is accepted: type text2video,
/// img2video or headtailimg2video, model 3.0 with 5 s, 3.1 with 2 to 8 s or
/// 3.2 with 1 to 16 s, resolution 1080p, one image for img2video and two
/// for headtailimg2video, a listed aspect ratio or none, no transition or a
/// documented one, and `enhance` present.
pub proof fn law_documented_video_tasks_accepted(b: TaskBody)
    requires
        b.task_type is Text,
        b.task_type.text_or(Seq::empty()) == "text2video"@ || b.task_type.text_or(Seq::empty())
            == "img2video"@ || b.task_type.text_or(Seq::empty()) == "headtailimg2video"@,
        b.input is Some,
        b.input->0.has_enhance,
        b.input->0.prompts is Some,
        b.input->0.prompts->0@.len() > 0,
        b.task_type.text_or(Seq::empty()) == "img2video"@ ==> count_typed(
            b.input->0.prompts->0@,
            "image"@,
        ) == 1,
        b.task_type.text_or(Seq::empty()) == "headtailimg2video"@ ==> count_typed(
            b.input->0.prompts->0@,
            "image"@,
        ) == 2,
        b.settings is Some,
        b.settings->0.model_version is Text,
        b.settings->0.resolution is Text,
        b.settings->0.resolution.text_or(Seq::empty()) == "1080p"@,
        b.settings->0.transition is Absent || (b.settings->0.transition is Text
            && is_documented_transition(
            b.task_type.text_or(Seq::empty()),
            b.settings->0.model_version.text_or(Seq::empty()),
            b.settings->0.transition.text_or(Seq::empty()),
        )),
        b.settings->0.aspect_ratio is Absent || (b.settings->0.aspect_ratio is Text && is_listed_ratio(
            b.settings->0.aspect_ratio.text_or(Seq::empty()),
        )),
        b.settings->0.duration is Some,
        is_documented_video_duration(
            b.settings->0.model_version.text_or(Seq::empty()),
            b.settings->0.duration->0 as int,
        ),
    ensures
        task_body_error(b) == Seq::<char>::empty(),
{
    lemma_table_names_distinct();
    let t = b.task_type.text_or(Seq::empty());
    let s = b.settings->0;
    let m = s.model_version.text_or(Seq::empty());
    assert(catalog::task_types()[1] == "headtailimg2video"@ && catalog::task_types()[2]
        == "img2video"@ && catalog::task_types()[5] == "text2video"@);
    assert(catalog::model_versions()[0] == "3.0"@ && catalog::model_versions()[1] == "3.1"@
        && catalog::model_versions()[3] == "3.2"@);
    assert(catalog::resolutions_for(t)[0] == "1080p"@);
    let ar = catalog::aspect_ratios();
    assert(ar[0] == "16:9"@ && ar[1] == "1:1"@ && ar[2] == "3:4"@ && ar[3] == "4:3"@ && ar[4]
        == "9:16"@);
    let sm = catalog::supported_models(t)->0;
    assert(sm[0] == "3.0"@ && sm[1] == "3.1"@ && sm[2] == "3.2"@);
    assert(catalog::task_types().contains(t));
    assert(catalog::model_versions().contains(m));
    assert(sm.contains(m));
    assert(catalog::resolutions_for(t).contains("1080p"@));
    reveal_strlit("creative");
    reveal_strlit("stable");
    reveal_strlit("pro");
    reveal_strlit("speed");
    let tv = catalog::image_video_transitions(m);
    if m == "3.0"@ {
        assert(tv[0] == "creative"@ && tv[1] == "stable"@);
    } else {
        assert(tv[0] == "pro"@ && tv[1] == "speed"@);
    }
}


/// A character2video task of the documented table is accepted: model 3.0
/// with 5 s, 3.1 with 2 to 8 s, 3.1_pro with -1 (automatic) or 2 to 8 s, or
/// 3.2 with 1 to 16 s and transition pro or speed (no transition with the
/// others), resolution 1080p, at most 7 images and materials, a listed
/// aspect ratio or none, and `enhance` present.
pub proof fn law_documented_character_tasks_accepted(b: TaskBody)
    requires
        b.task_type is Text,
        b.task_type.text_or(Seq::empty()) == "character2video"@,
        b.input is Some,
        b.input->0.has_enhance,
        b.input->0.prompts is Some,
        b.input->0.prompts->0@.len() > 0,
        count_typed(b.input->0.prompts->0@, "image"@) + count_typed(
            b.input->0.prompts->0@,
            "material"@,
        ) <= 7,
        b.settings is Some,
        b.settings->0.model_version is Text,
        b.settings->0.resolution is Text,
        b.settings->0.resolution.text_or(Seq::empty()) == "1080p"@,
        b.settings->0.aspect_ratio is Absent || (b.settings->0.aspect_ratio is Text && is_listed_ratio(
            b.settings->0.aspect_ratio.text_or(Seq::empty()),
        )),
        b.settings->0.duration is Some,
        is_documented_video_duration(
            b.settings->0.model_version.text_or(Seq::empty()),
            b.settings->0.duration->0 as int,
        ) || (b.settings->0.model_version.text_or(Seq::empty()) == "3.1_pro"@ && (
        b.settings->0.duration->0 == -1 || 2 <= b.settings->0.duration->0 <= 8)),
        b.settings->0.model_version.text_or(Seq::empty()) == "3.2"@ ==> (
        b.settings->0.transition is Text && (b.settings->0.transition.text_or(Seq::empty())
            == "pro"@ || b.settings->0.transition.text_or(Seq::empty()) == "speed"@)),
        b.settings->0.model_version.text_or(Seq::empty()) != "3.2"@
            ==> b.settings->0.transition is Absent,
    ensures
        task_body_error(b) == Seq::<char>::empty(),
{
    lemma_table_names_distinct();
    let t = b.task_type.text_or(Seq::empty());
    let s = b.settings->0;
    let m = s.model_version.text_or(Seq::empty());
    assert(catalog::task_types()[0] == "character2video"@);
    let mv = catalog::model_versions();
    assert(mv[0] == "3.0"@ && mv[1] == "3.1"@ && mv[2] == "3.1_pro"@ && mv[3] == "3.2"@);
    let sm = catalog::supported_models(t)->0;
    assert(sm[0] == "3.0"@ && sm[1] == "3.1"@ && sm[2] == "3.1_pro"@ && sm[3] == "3.2"@);
    assert(catalog::resolutions_for(t)[0] == "1080p"@);
    let ar = catalog::aspect_ratios();
    assert(ar[0] == "16:9"@ && ar[1] == "1:1"@ && ar[2] == "3:4"@ && ar[3] == "4:3"@ && ar[4]
        == "9:16"@);
    reveal_strlit("pro");
    reveal_strlit("speed");
    assert(catalog::model_versions().contains(m));
    assert(sm.contains(m));
    assert(catalog::resolutions_for(t).contains("1080p"@));
}

/// An image task of the documented table is accepted: type text2image or
/// reference2image, model 3.1, 3.2_fast_m or 3.2_pro_m, resolution 1080p,
/// 2k or 4k, duration 0 or none, at most 7 images and materials for
/// reference2image, a listed aspect ratio or none, no transition, and
/// `enhance` present.
pub proof fn law_documented_image_tasks_accepted(b: TaskBody)
    requires
        b.task_type is Text,
        b.task_type.text_or(Seq::empty()) == "text2image"@ || b.task_type.text_or(Seq::empty())
            == "reference2image"@,
        b.input is Some,
        b.input->0.has_enhance,
        b.input->0.prompts is Some,
        b.input->0.prompts->0@.len() > 0,
        b.task_type.text_or(Seq::empty()) == "reference2image"@ ==> count_typed(
            b.input->0.prompts->0@,
            "image"@,
        ) + count_typed(b.input->0.prompts->0@, "material"@) <= 7,
        b.settings is Some,
        b.settings->0.model_version is Text,
        b.settings->0.model_version.text_or(Seq::empty()) == "3.1"@
            || b.settings->0.model_version.text_or(Seq::empty()) == "3.2_fast_m"@
            || b.settings->0.model_version.text_or(Seq::empty()) == "3.2_pro_m"@,
        b.settings->0.resolution is Text,
        b.settings->0.resolution.text_or(Seq::empty()) == "1080p"@
            || b.settings->0.resolution.text_or(Seq::empty()) == "2k"@
            || b.settings->0.resolution.text_or(Seq::empty()) == "4k"@,
        b.settings->0.duration is None || b.settings->0.duration == Some(0i64),
        b.settings->0.transition is Absent,
        b.settings->0.aspect_ratio is Absent || (b.settings->0.aspect_ratio is Text && is_listed_ratio(
            b.settings->0.aspect_ratio.text_or(Seq::empty()),
        )),
    ensures
        task_body_error(b) == Seq::<char>::empty(),
{
    lemma_table_names_distinct();
    let t = b.task_type.text_or(Seq::empty());
    let s = b.settings->0;
    let m = s.model_version.text_or(Seq::empty());
    assert(catalog::task_types()[3] == "reference2image"@ && catalog::task_types()[4]
        == "text2image"@);
    let mv = catalog::model_versions();
    assert(mv[1] == "3.1"@ && mv[5] == "3.2_fast_m"@ && mv[6] == "3.2_pro_m"@);
    let sm = catalog::supported_models(t)->0;
    assert(sm[0] == "3.1"@ && sm[1] == "3.2_fast_m"@ && sm[2] == "3.2_pro_m"@);
    let rs = catalog::resolutions_for(t);
    assert(rs[0] == "1080p"@ && rs[1] == "2k"@ && rs[2] == "4k"@);
    let ar = catalog::aspect_ratios();
    assert(ar[0] == "16:9"@ && ar[1] == "1:1"@ && ar[2] == "3:4"@ && ar[3] == "4:3"@ && ar[4]
        == "9:16"@);
    assert(catalog::model_versions().contains(m));
    assert(sm.contains(m));
    assert(rs.contains(s.resolution.text_or(Seq::empty())));
}


/// A task of a valid type with prompts is refused for its image count when
/// img2video has not exactly one image or headtailimg2video not exactly
/// two, whatever its settings; and, when the counts pass and the model is
/// a known version outside the type's documented models, for its model.
pub proof fn law_task_rejections(b: TaskBody)
    requires
        b.task_type is Text,
        catalog::task_types().contains(b.task_type.text_or(Seq::empty())),
        b.input is Some,
        b.input->0.prompts is Some,
        b.input->0.prompts->0@.len() > 0,
    ensures
        ({
            let t = b.task_type.text_or(Seq::empty());
            let ic = count_typed(b.input->0.prompts->0@, "image"@);
            let mc = count_typed(b.input->0.prompts->0@, "material"@);
            &&& t == "img2video"@ && ic != 1 ==> task_body_error(b)
                == "img2video requires exactly 1 image, got "@ + text::decimal(ic)
            &&& t == "headtailimg2video"@ && ic != 2 ==> task_body_error(b)
                == "headtailimg2video requires exactly 2 images, got "@ + text::decimal(ic)
            &&& (t == "reference2image"@ || t == "character2video"@) && ic + mc > 7
                ==> task_body_error(b) == t + " allows max 7 images+materials, got "@
                + text::decimal(ic + mc)
        }),
        ({
            let t = b.task_type.text_or(Seq::empty());
            let ic = count_typed(b.input->0.prompts->0@, "image"@);
            let mc = count_typed(b.input->0.prompts->0@, "material"@);
            let m = b.settings->0.model_version.text_or(Seq::empty());
            b.settings is Some && count_error(t, ic, mc) is None && b.settings->0.model_version is Text
                && catalog::model_versions().contains(m) && !documented_models(t).contains(m)
                ==> task_body_error(b) == "model_version "@ + m + " does not support "@ + t
        }),
{
    lemma_table_names_distinct();
    let t = b.task_type.text_or(Seq::empty());
    let tt = catalog::task_types();
    let k = choose|k: int| 0 <= k < tt.len() && tt[k] == t;
    assert(k == 0 || k == 1 || k == 2 || k == 3 || k == 4 || k == 5);
    assert(t.len() > 0);
    assert(catalog::supported_models(t) == Some(documented_models(t)));
}

} // verus!
