//! The tables of task types, model versions and settings that the service
//! accepts. Lists are kept in sorted order, as they appear in messages.
use vstd::prelude::*;
use vstd::relations::sorted_by;
use crate::text::{self, str_eq};
use crate::sort;

verus! {

/// Task types, sorted.
pub open spec fn task_types() -> Seq<Seq<char>> {
    seq![
        "character2video"@,
        "headtailimg2video"@,
        "img2video"@,
        "reference2image"@,
        "text2image"@,
        "text2video"@,
    ]
}

pub fn valid_task_types() -> (v: Vec<&'static str>)
    ensures
        text::views(v@) == task_types(),
{
    let v = vec![
        "character2video",
        "headtailimg2video",
        "img2video",
        "reference2image",
        "text2image",
        "text2video",
    ];
    assert(text::views(v@) =~= task_types());
    v
}

/// Model versions, sorted.
pub open spec fn model_versions() -> Seq<Seq<char>> {
    seq!["3.0"@, "3.1"@, "3.1_pro"@, "3.2"@, "3.2_a"@, "3.2_fast_m"@, "3.2_pro_m"@]
}

pub fn valid_model_versions() -> (v: Vec<&'static str>)
    ensures
        text::views(v@) == model_versions(),
{
    let v = vec!["3.0", "3.1", "3.1_pro", "3.2", "3.2_a", "3.2_fast_m", "3.2_pro_m"];
    assert(text::views(v@) =~= model_versions());
    v
}

/// Aspect ratios, sorted.
pub open spec fn aspect_ratios() -> Seq<Seq<char>> {
    seq!["16:9"@, "1:1"@, "3:4"@, "4:3"@, "9:16"@]
}

pub fn valid_aspect_ratios() -> (v: Vec<&'static str>)
    ensures
        text::views(v@) == aspect_ratios(),
{
    let v = vec!["16:9", "1:1", "3:4", "4:3", "9:16"];
    assert(text::views(v@) =~= aspect_ratios());
    v
}

/// The image task types, which take resolutions up to 4k.
pub open spec fn is_image_type(t: Seq<char>) -> bool {
    t == "text2image"@ || t == "reference2image"@
}

/// Resolutions that a task type supports, sorted.
pub open spec fn resolutions_for(t: Seq<char>) -> Seq<Seq<char>> {
    if is_image_type(t) {
        seq!["1080p"@, "2k"@, "4k"@]
    } else {
        seq!["1080p"@]
    }
}

pub fn resolution_support(t: &str) -> (v: Vec<&'static str>)
    ensures
        text::views(v@) == resolutions_for(t@),
{
    if str_eq(t, "text2image") || str_eq(t, "reference2image") {
        let v = vec!["1080p", "2k", "4k"];
        assert(text::views(v@) =~= resolutions_for(t@));
        v
    } else {
        let v = vec!["1080p"];
        assert(text::views(v@) =~= resolutions_for(t@));
        v
    }
}

/// Model versions that a task type supports (`None` for an unknown type).
pub open spec fn supported_models(t: Seq<char>) -> Option<Seq<Seq<char>>> {
    if is_image_type(t) {
        Some(seq!["3.1"@, "3.2_fast_m"@, "3.2_pro_m"@])
    } else if t == "text2video"@ || t == "img2video"@ {
        Some(seq!["3.0"@, "3.1"@, "3.2"@, "3.2_a"@])
    } else if t == "headtailimg2video"@ {
        Some(seq!["3.0"@, "3.1"@, "3.2"@])
    } else if t == "character2video"@ {
        Some(seq!["3.0"@, "3.1"@, "3.1_pro"@, "3.2"@, "3.2_a"@])
    } else {
        None
    }
}

pub fn model_support(t: &str) -> (r: Option<Vec<&'static str>>)
    ensures
        match r {
            Some(v) => supported_models(t@) == Some(text::views(v@)),
            None => supported_models(t@) is None,
        },
{
    if str_eq(t, "text2image") || str_eq(t, "reference2image") {
        let v = vec!["3.1", "3.2_fast_m", "3.2_pro_m"];
        assert(text::views(v@) =~= seq!["3.1"@, "3.2_fast_m"@, "3.2_pro_m"@]);
        Some(v)
    } else if str_eq(t, "text2video") || str_eq(t, "img2video") {
        let v = vec!["3.0", "3.1", "3.2", "3.2_a"];
        assert(text::views(v@) =~= seq!["3.0"@, "3.1"@, "3.2"@, "3.2_a"@]);
        Some(v)
    } else if str_eq(t, "headtailimg2video") {
        let v = vec!["3.0", "3.1", "3.2"];
        assert(text::views(v@) =~= seq!["3.0"@, "3.1"@, "3.2"@]);
        Some(v)
    } else if str_eq(t, "character2video") {
        let v = vec!["3.0", "3.1", "3.1_pro", "3.2", "3.2_a"];
        assert(text::views(v@) =~= seq!["3.0"@, "3.1"@, "3.1_pro"@, "3.2"@, "3.2_a"@]);
        Some(v)
    } else {
        None
    }
}

/// The video task types that take a duration in seconds.
pub open spec fn is_timed_video_type(t: Seq<char>) -> bool {
    t == "text2video"@ || t == "img2video"@ || t == "headtailimg2video"@ || t
        == "character2video"@
}

/// The allowed duration range for a task type and model version, where the
/// service publishes one.
pub open spec fn duration_bounds(t: Seq<char>, m: Seq<char>) -> Option<(int, int)> {
    if is_timed_video_type(t) {
        if m == "3.0"@ {
            Some((5, 5))
        } else if m == "3.1"@ {
            Some((2, 8))
        } else if m == "3.2"@ {
            Some((1, 16))
        } else if t == "character2video"@ && m == "3.1_pro"@ {
            Some((-1, 8))
        } else {
            None
        }
    } else if is_image_type(t) {
        if m == "3.1"@ || m == "3.2_fast_m"@ || m == "3.2_pro_m"@ {
            Some((0, 0))
        } else {
            None
        }
    } else {
        None
    }
}

pub fn duration_ranges(t: &str, m: &str) -> (r: Option<(i64, i64)>)
    ensures
        match r {
            Some((lo, hi)) => duration_bounds(t@, m@) == Some((lo as int, hi as int)),
            None => duration_bounds(t@, m@) is None,
        },
{
    if str_eq(t, "text2video") || str_eq(t, "img2video") || str_eq(t, "headtailimg2video")
        || str_eq(t, "character2video") {
        if str_eq(m, "3.0") {
            Some((5, 5))
        } else if str_eq(m, "3.1") {
            Some((2, 8))
        } else if str_eq(m, "3.2") {
            Some((1, 16))
        } else if str_eq(t, "character2video") && str_eq(m, "3.1_pro") {
            Some((-1, 8))
        } else {
            None
        }
    } else if str_eq(t, "text2image") || str_eq(t, "reference2image") {
        if str_eq(m, "3.1") || str_eq(m, "3.2_fast_m") || str_eq(m, "3.2_pro_m") {
            Some((0, 0))
        } else {
            None
        }
    } else {
        None
    }
}

/// Transition styles for image-driven video tasks of a model version, sorted.
pub open spec fn image_video_transitions(m: Seq<char>) -> Seq<Seq<char>> {
    if m == "3.0"@ {
        seq!["creative"@, "stable"@]
    } else {
        seq!["pro"@, "speed"@]
    }
}

pub fn image_video_transition_list(m: &str) -> (v: Vec<&'static str>)
    ensures
        text::views(v@) == image_video_transitions(m@),
{
    if str_eq(m, "3.0") {
        let v = vec!["creative", "stable"];
        assert(text::views(v@) =~= image_video_transitions(m@));
        v
    } else {
        let v = vec!["pro", "speed"];
        assert(text::views(v@) =~= image_video_transitions(m@));
        v
    }
}

/// Schedule modes, sorted.
pub open spec fn schedule_modes() -> Seq<Seq<char>> {
    seq!["claw_pass"@, "normal"@]
}

pub fn schedule_mode_list() -> (v: Vec<&'static str>)
    ensures
        text::views(v@) == schedule_modes(),
{
    let v = vec!["claw_pass", "normal"];
    assert(text::views(v@) =~= schedule_modes());
    v
}

/// A list of choices as the messages print it: in order, each once.
pub open spec fn ascending(s: Seq<Seq<char>>) -> bool {
    sorted_by(s, sort::lex_le_fn()) && s.no_duplicates()
}

proof fn lemma_two(a: Seq<char>, b: Seq<char>, k: int)
    requires
        0 <= k <= a.len(),
        k <= b.len(),
        forall|j: int| 0 <= j < k ==> a[j] == b[j],
        (k == a.len() && k < b.len()) || (k < a.len() && k < b.len() && a[k] < b[k]),
    ensures
        ascending(seq![a, b]),
{
    sort::lemma_lex_lt_at(a, b, k);
    sort::lemma_strictly_ascending(seq![a, b]);
}

/// Every list of choices that the validators print (task types, model
/// versions, aspect ratios, resolutions, transitions, schedule modes) is in
/// order with no choice twice, as a sorted set prints; and every model that
/// a task type supports is a known model version.
pub proof fn law_tables_ascending()
    ensures
        ascending(task_types()),
        ascending(model_versions()),
        ascending(aspect_ratios()),
        forall|t: Seq<char>| ascending(#[trigger] resolutions_for(t)),
        forall|m: Seq<char>| ascending(#[trigger] image_video_transitions(m)),
        ascending(schedule_modes()),
        forall|t: Seq<char>, m: Seq<char>|
            #[trigger] supported_models(t) is Some && supported_models(t)->0.contains(m)
                ==> #[trigger] model_versions().contains(m),
{
    reveal_strlit("character2video");
    reveal_strlit("headtailimg2video");
    reveal_strlit("img2video");
    reveal_strlit("reference2image");
    reveal_strlit("text2image");
    reveal_strlit("text2video");
    let tt = task_types();
    sort::lemma_lex_lt_at(tt[0], tt[1], 0);
    sort::lemma_lex_lt_at(tt[1], tt[2], 0);
    sort::lemma_lex_lt_at(tt[2], tt[3], 0);
    sort::lemma_lex_lt_at(tt[3], tt[4], 0);
    sort::lemma_lex_lt_at(tt[4], tt[5], 5);
    sort::lemma_strictly_ascending(tt);

    reveal_strlit("3.0");
    reveal_strlit("3.1");
    reveal_strlit("3.1_pro");
    reveal_strlit("3.2");
    reveal_strlit("3.2_a");
    reveal_strlit("3.2_fast_m");
    reveal_strlit("3.2_pro_m");
    let mv = model_versions();
    sort::lemma_lex_lt_at(mv[0], mv[1], 2);
    sort::lemma_lex_lt_at(mv[1], mv[2], 3);
    sort::lemma_lex_lt_at(mv[2], mv[3], 2);
    sort::lemma_lex_lt_at(mv[3], mv[4], 3);
    sort::lemma_lex_lt_at(mv[4], mv[5], 4);
    sort::lemma_lex_lt_at(mv[5], mv[6], 4);
    sort::lemma_strictly_ascending(mv);

    reveal_strlit("16:9");
    reveal_strlit("1:1");
    reveal_strlit("3:4");
    reveal_strlit("4:3");
    reveal_strlit("9:16");
    let ar = aspect_ratios();
    sort::lemma_lex_lt_at(ar[0], ar[1], 1);
    sort::lemma_lex_lt_at(ar[1], ar[2], 0);
    sort::lemma_lex_lt_at(ar[2], ar[3], 0);
    sort::lemma_lex_lt_at(ar[3], ar[4], 0);
    sort::lemma_strictly_ascending(ar);

    reveal_strlit("1080p");
    reveal_strlit("2k");
    reveal_strlit("4k");
    let hi = seq!["1080p"@, "2k"@, "4k"@];
    sort::lemma_lex_lt_at(hi[0], hi[1], 0);
    sort::lemma_lex_lt_at(hi[1], hi[2], 0);
    sort::lemma_strictly_ascending(hi);
    sort::lemma_strictly_ascending(seq!["1080p"@]);
    assert forall|t: Seq<char>| ascending(#[trigger] resolutions_for(t)) by {
        if is_image_type(t) {
            assert(resolutions_for(t) == hi);
        } else {
            assert(resolutions_for(t) == seq!["1080p"@]);
        }
    }

    reveal_strlit("creative");
    reveal_strlit("stable");
    reveal_strlit("pro");
    reveal_strlit("speed");
    lemma_two("creative"@, "stable"@, 0);
    lemma_two("pro"@, "speed"@, 0);
    assert forall|m: Seq<char>| ascending(#[trigger] image_video_transitions(m)) by {}

    reveal_strlit("claw_pass");
    reveal_strlit("normal");
    lemma_two("claw_pass"@, "normal"@, 0);

    assert forall|t: Seq<char>, m: Seq<char>|
        #[trigger] supported_models(t) is Some && supported_models(t)->0.contains(m)
            implies #[trigger] model_versions().contains(m) by {
        if is_image_type(t) {
            assert(m == mv[1] || m == mv[5] || m == mv[6]);
        } else if t == "text2video"@ || t == "img2video"@ {
            assert(m == mv[0] || m == mv[1] || m == mv[3] || m == mv[4]);
        } else if t == "headtailimg2video"@ {
            assert(m == mv[0] || m == mv[1] || m == mv[3]);
        } else {
            assert(m == mv[0] || m == mv[1] || m == mv[2] || m == mv[3] || m == mv[4]);
        }
    }
}

} // verus!
