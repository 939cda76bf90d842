use serde_json::Value;
use vidu_cli::catalog::{
    duration_ranges, image_video_transition_list, model_support, resolution_support,
    schedule_mode_list, valid_aspect_ratios, valid_model_versions, valid_task_types,
};
use vidu_cli::compose::{
    compose_media_kind, looks_like_timeline_path, media_url_key, normalize_file_url,
    normalize_media_url, require_compose_task_id, upload_compose_media, upload_local_media,
    upload_local_subtitle, validate_clip_timing, validate_compose_media, validate_track_limits,
    ClipTiming, MediaKind, TrackCounts, UrlAction,
};
use vidu_cli::elements::{create_request, element_components, preprocess_body, preprocess_request};
use vidu_cli::failure::{failure_kind_name, Failure, FailureKind};
use vidu_cli::lip_sync::{calculate_text_duration, lip_sync_source, plan_text_lip_sync, LipSyncSource};
use vidu_cli::media::{
    download_file_name, download_step, download_urls, ext_from_bytes, reports_failure, task_report,
    DownloadStep,
};
use vidu_cli::paths::lower_extension_of;
use vidu_cli::requests::{
    base_url, element_list_params, element_search_params, get_headers, query_credits,
    query_lip_sync_credits, query_tts_credits,
};
use vidu_cli::responses::{
    http_failure, id_text, invalid_json_failure, network_failure, parse_error_body, put_failure,
    require_task_id, upload_id_of, upload_target, upload_uri, ErrorBody, IdValue, JsonValueText,
};
use vidu_cli::retry::{attempts_for, next_step, AttemptOutcome, RetryStep};
use vidu_cli::sort::{lex_le_str, sort_strings};
use vidu_cli::string_map::StringMap;
use vidu_cli::submission::{upload_local_file, upload_media_file};
use vidu_cli::task_body::{validate_task_body, JsonField, TaskBody, TaskInput, TaskSettings};
use vidu_cli::tts::{language_boost, plan_tts_segments, tts_request, TtsSegment};
use vidu_cli::timeline::{clip_timings, clip_urls, rewrite_clip_urls, track_counts, JsonValue, TrackKind};
use vidu_cli::upload::{compress_image_if_needed, compress_to_fit, image_put_headers, needs_compression, upload_mime};
use vidu_cli::usage::strip_ansi;
use vidu_cli::validators::{
    validate_audio_file, validate_element_preprocess, validate_image_file,
    validate_lip_sync_text, validate_schedule_mode, validate_tts_volume, validate_video_file,
    validate_voice_id, ElementBody, ElementFields, JsonList,
};
use vidu_cli::voices::all_voice_ids;

fn strings(v: &[&str]) -> Vec<String> {
    v.iter().map(|s| s.to_string()).collect()
}

fn map_of(m: &StringMap) -> Vec<(String, String)> {
    let mut v = m.entries().clone();
    v.sort();
    v
}

fn pairs(v: &[(&str, &str)]) -> Vec<(String, String)> {
    let mut v: Vec<(String, String)> = v.iter().map(|(a, b)| (a.to_string(), b.to_string())).collect();
    v.sort();
    v
}

fn text(s: &str) -> JsonField {
    JsonField::Text(s.to_string())
}

fn body(t: &str, prompt_types: &[&str], settings: TaskSettings) -> TaskBody {
    TaskBody {
        task_type: text(t),
        input: Some(TaskInput {
            prompts: Some(prompt_types.iter().map(|p| text(p)).collect()),
            has_enhance: true,
        }),
        settings: Some(settings),
    }
}

fn settings(m: &str, d: i64, res: &str) -> TaskSettings {
    TaskSettings {
        model_version: text(m),
        duration: Some(d),
        resolution: text(res),
        aspect_ratio: JsonField::Absent,
        transition: JsonField::Absent,
    }
}

// --- Task bodies -------------------------------------------------------------

#[test]
fn task_body_accepts_the_documented_combinations() {
    assert_eq!(validate_task_body(&body("text2video", &["text"], settings("3.2", 8, "1080p"))), "");
    assert_eq!(validate_task_body(&body("text2video", &["text"], settings("3.0", 5, "1080p"))), "");
    assert_eq!(validate_task_body(&body("img2video", &["text", "image"], settings("3.1", 4, "1080p"))), "");
    assert_eq!(
        validate_task_body(&body("headtailimg2video", &["text", "image", "image"], settings("3.2", 5, "1080p"))),
        ""
    );
    assert_eq!(validate_task_body(&body("text2image", &["text"], settings("3.2_pro_m", 0, "4k"))), "");
    let mut s = settings("3.2", 4, "1080p");
    s.transition = text("pro");
    assert_eq!(
        validate_task_body(&body("character2video", &["text", "image", "material"], s)),
        ""
    );
    let mut s = settings("3.1_pro", -1, "1080p");
    s.aspect_ratio = text("9:16");
    assert_eq!(validate_task_body(&body("character2video", &["text", "image"], s)), "");
}

#[test]
fn task_body_structure_errors() {
    let mut b = body("", &["text"], settings("3.2", 5, "1080p"));
    assert_eq!(validate_task_body(&b), "Missing required field: type");
    b.task_type = JsonField::Other;
    assert_eq!(validate_task_body(&b), "Missing required field: type");
    b.task_type = text("text2video");
    b.input = None;
    assert_eq!(validate_task_body(&b), "input must be an object");
    b.input = Some(TaskInput { prompts: Some(vec![]), has_enhance: true });
    assert_eq!(validate_task_body(&b), "input.prompts is required and must not be empty");
    b.input = Some(TaskInput { prompts: None, has_enhance: true });
    assert_eq!(validate_task_body(&b), "input.prompts is required and must not be empty");
    b.input = Some(TaskInput { prompts: Some(vec![text("text")]), has_enhance: false });
    assert_eq!(validate_task_body(&b), "input.enhance is required (true or false)");
    b.settings = None;
    assert_eq!(validate_task_body(&b), "settings must be an object");
}

#[test]
fn task_body_settings_errors() {
    let mut s = settings("3.2", 5, "1080p");
    s.model_version = JsonField::Absent;
    assert_eq!(
        validate_task_body(&body("text2video", &["text"], s)),
        "Invalid model_version '2.0'. Valid: 3.0, 3.1, 3.1_pro, 3.2, 3.2_a, 3.2_fast_m, 3.2_pro_m"
    );
    let mut s = settings("3.2", 5, "1080p");
    s.resolution = JsonField::Absent;
    assert_eq!(validate_task_body(&body("text2video", &["text"], s)), "resolution is required for text2video");
    let mut s = settings("3.2", 5, "1080p");
    s.resolution = JsonField::Other;
    assert_eq!(
        validate_task_body(&body("text2video", &["text"], s)),
        "Invalid resolution '' for text2video. Valid: 1080p"
    );
    let mut s = settings("3.1", 0, "2k");
    s.transition = text("pro");
    assert_eq!(
        validate_task_body(&body("reference2image", &["text"], s)),
        "reference2image should not include transition"
    );
    let mut s = settings("3.2", 5, "1080p");
    s.transition = text("slow");
    assert_eq!(
        validate_task_body(&body("character2video", &["text", "image"], s)),
        "Invalid transition 'slow' for character2video 3.2. Valid: pro, speed"
    );
    let mut s = settings("3.1", 5, "1080p");
    s.transition = text("pro");
    assert_eq!(
        validate_task_body(&body("character2video", &["text", "image"], s)),
        "character2video with 3.1 should not include transition (only 3.2 supports pro/speed)"
    );
    let s = settings("3.2", 5, "1080p");
    assert_eq!(
        validate_task_body(&body("character2video", &["text", "image"], s)),
        "character2video with 3.2 requires transition parameter (speed or pro)"
    );
    let mut s = settings("3.2", 0, "1080p");
    s.duration = None;
    assert_eq!(
        validate_task_body(&body("text2video", &["text"], s)),
        "duration 0 out of range [1, 16] for text2video with 3.2"
    );
    let mut s = settings("3.1", 5, "1080p");
    s.aspect_ratio = text("2:1");
    assert_eq!(validate_task_body(&body("img2video", &["text", "image"], s)), "");
}

#[test]
fn task_body_counts_images_and_materials() {
    let s = settings("3.1", 5, "1080p");
    assert_eq!(
        validate_task_body(&body("img2video", &["text", "image", "image"], s)),
        "img2video requires exactly 1 image, got 2"
    );
    let s = settings("3.1", 0, "1080p");
    assert_eq!(
        validate_task_body(&body(
            "reference2image",
            &["text", "image", "image", "image", "image", "material", "material", "material", "material"],
            s
        )),
        "reference2image allows max 7 images+materials, got 8"
    );
}

#[test]
fn catalogs_are_sorted_and_complete() {
    assert_eq!(
        valid_task_types(),
        vec!["character2video", "headtailimg2video", "img2video", "reference2image", "text2image", "text2video"]
    );
    assert_eq!(valid_model_versions(), vec!["3.0", "3.1", "3.1_pro", "3.2", "3.2_a", "3.2_fast_m", "3.2_pro_m"]);
    assert_eq!(valid_aspect_ratios(), vec!["16:9", "1:1", "3:4", "4:3", "9:16"]);
    assert_eq!(resolution_support("text2image"), vec!["1080p", "2k", "4k"]);
    assert_eq!(resolution_support("img2video"), vec!["1080p"]);
    assert_eq!(resolution_support("unknown"), vec!["1080p"]);
    assert_eq!(model_support("character2video"), Some(vec!["3.0", "3.1", "3.1_pro", "3.2", "3.2_a"]));
    assert_eq!(model_support("tts"), None);
    assert_eq!(duration_ranges("text2video", "3.1"), Some((2, 8)));
    assert_eq!(duration_ranges("character2video", "3.1_pro"), Some((-1, 8)));
    assert_eq!(duration_ranges("text2image", "3.1"), Some((0, 0)));
    assert_eq!(duration_ranges("text2video", "3.2_a"), None);
    assert_eq!(image_video_transition_list("3.0"), vec!["creative", "stable"]);
    assert_eq!(image_video_transition_list("3.2"), vec!["pro", "speed"]);
    assert_eq!(schedule_mode_list(), vec!["claw_pass", "normal"]);
    let mut sorted = valid_task_types();
    sorted.sort();
    assert_eq!(sorted, valid_task_types());
}

#[test]
fn schedule_mode_validation() {
    assert_eq!(validate_schedule_mode("normal"), "");
    assert_eq!(validate_schedule_mode("claw_pass"), "");
    assert_eq!(validate_schedule_mode("x"), "Invalid schedule_mode 'x'. Valid: claw_pass, normal");
}

// --- Elements ------------------------------------------------------------------

#[test]
fn element_preprocess_validation_messages() {
    assert_eq!(validate_element_preprocess(&ElementBody::NotObject), "body must be an object");
    let fields = |components: JsonList, has_name: bool, has_type: bool| {
        ElementBody::Object(ElementFields { components, has_name, has_type })
    };
    assert_eq!(
        validate_element_preprocess(&fields(JsonList::Absent, true, true)),
        "Missing required field: components"
    );
    assert_eq!(
        validate_element_preprocess(&fields(JsonList::Items(vec![text("main")]), false, true)),
        "Missing required field: name"
    );
    assert_eq!(
        validate_element_preprocess(&fields(JsonList::Items(vec![text("main")]), true, false)),
        "Missing required field: type"
    );
    assert_eq!(
        validate_element_preprocess(&fields(JsonList::Other, true, true)),
        "components must be a non-empty array"
    );
    assert_eq!(
        validate_element_preprocess(&fields(JsonList::Items(vec![]), true, true)),
        "components must be a non-empty array"
    );
    assert_eq!(
        validate_element_preprocess(&fields(
            JsonList::Items(vec![text("main"), text("auxiliary"), text("auxiliary"), text("auxiliary")]),
            true,
            true
        )),
        "components must have at most 3 items"
    );
    assert_eq!(
        validate_element_preprocess(&fields(JsonList::Items(vec![text("auxiliary"), JsonField::Other]), true, true)),
        "components must have exactly one item with type='main'"
    );
    assert_eq!(
        validate_element_preprocess(&fields(JsonList::Items(vec![text("main"), text("auxiliary")]), true, true)),
        ""
    );
}

#[test]
fn element_components_first_is_main() {
    let cs = element_components(&strings(&["ssupload:?id=1", "ssupload:?id=2"])).unwrap();
    assert_eq!(cs.len(), 2);
    assert_eq!(cs[0].kind, "main");
    assert_eq!(cs[1].kind, "auxiliary");
    assert_eq!(cs[1].content, "ssupload:?id=2");
    assert_eq!(cs[1].src_img, "ssupload:?id=2");
    assert_eq!(cs[0].content_type, "image");
    let f = element_components(&vec![]).unwrap_err();
    assert_eq!(f.message, "Must provide 1-3 images");
    assert!(element_components(&strings(&["a", "b", "c", "d"])).is_err());
}

#[test]
fn built_preprocess_request_passes_validation() {
    let req = preprocess_request("hero", "user", &strings(&["ssupload:?id=1", "ssupload:?id=2", "ssupload:?id=3"])).unwrap();
    assert_eq!(req.name, "hero");
    assert_eq!(req.elem_type, "user");
    assert_eq!(validate_element_preprocess(&preprocess_body(&req)), "");
    let req = create_request("e1", "hero", "image", "user", &strings(&["ssupload:?id=1"]), "0", "d").unwrap();
    assert_eq!(req.id, "e1");
    assert_eq!(req.components.len(), 1);
    assert_eq!(req.components[0].kind, "main");
}

// --- Files and media -------------------------------------------------------------

#[test]
fn file_checks() {
    assert_eq!(validate_image_file("a.png", true), "");
    assert_eq!(validate_image_file("a.png", false), "Image file not found: a.png");
    assert_eq!(validate_video_file("/x/v.MP4", true, 10), "");
    assert_eq!(validate_video_file("v.avi", true, 10), "");
    assert_eq!(validate_video_file("v.mkv", true, 10), "Invalid video format 'mkv'. Supported: mp4, mov, avi");
    assert_eq!(validate_video_file("v", true, 10), "Invalid video format ''. Supported: mp4, mov, avi");
    assert_eq!(validate_video_file("v.mp4", false, 10), "Video file not found: v.mp4");
    assert_eq!(
        validate_video_file("v.mov", true, 500 * 1024 * 1024 + 1),
        "Video file too large (500.0MB). Max: 500MB"
    );
    assert_eq!(validate_video_file("v.mov", true, 500 * 1024 * 1024), "");
    assert_eq!(validate_audio_file("s.M4A", true, 1), "");
    assert_eq!(validate_audio_file("s.ogg", true, 1), "Invalid audio format 'ogg'. Supported: mp3, wav, aac, m4a");
    assert_eq!(validate_audio_file("s.mp3", false, 1), "Audio file not found: s.mp3");
    assert_eq!(
        validate_audio_file("s.wav", true, 157 * 1024 * 1024 + 512 * 1024),
        "Audio file too large (157.5MB). Max: 100MB"
    );
}

#[test]
fn lower_case_extensions() {
    assert_eq!(lower_extension_of("a/b.TXT"), "txt");
    assert_eq!(lower_extension_of("a.dir/b"), "");
    assert_eq!(lower_extension_of(".hidden"), "");
    assert_eq!(lower_extension_of("archive.tar.GZ"), "gz");
    assert_eq!(lower_extension_of("clip.MOV"), "mov");
    assert_eq!(lower_extension_of("clip"), "");
}

#[test]
fn compose_rules() {
    assert!(looks_like_timeline_path("t.json"));
    assert!(looks_like_timeline_path("dir/t"));
    assert!(looks_like_timeline_path("dir\\t"));
    assert!(looks_like_timeline_path("t.txt"));
    assert!(!looks_like_timeline_path("{\"a\":1}"));
    assert!(!looks_like_timeline_path("not json"));
    let ok = TrackCounts { video: 100, audio: 0, subtitle: 0, effect: 0 };
    assert!(validate_track_limits(&ok).is_none());
    let bad = TrackCounts { video: 1, audio: 2, subtitle: 101, effect: 0 };
    assert_eq!(
        validate_track_limits(&bad).unwrap().message,
        "Subtitle track count (101) exceeds maximum of 100."
    );
    assert_eq!(compose_media_kind("a.JPEG"), MediaKind::Image);
    assert_eq!(compose_media_kind("a.mov"), MediaKind::Video);
    assert_eq!(compose_media_kind("a.srt"), MediaKind::Other);
}

fn clip(has_in: bool, has_out: bool) -> ClipTiming {
    ClipTiming {
        track_key: "video_tracks".to_string(),
        clip_key: "video_track_clips".to_string(),
        track_index: 0,
        clip_index: 0,
        has_timeline_in: has_in,
        has_timeline_out: has_out,
    }
}

fn json_value(v: &serde_json::Value) -> JsonValue {
    match v {
        Value::Null => JsonValue::Null,
        Value::Bool(b) => JsonValue::Bool(*b),
        Value::Number(n) => JsonValue::Number(n.to_string()),
        Value::String(s) => JsonValue::Text(s.clone()),
        Value::Array(a) => JsonValue::Array(a.iter().map(json_value).collect()),
        Value::Object(m) => JsonValue::Object(m.iter().map(|(k, x)| (k.clone(), json_value(x))).collect()),
    }
}

fn serde_value(v: JsonValue) -> serde_json::Value {
    match v {
        JsonValue::Null => Value::Null,
        JsonValue::Bool(b) => Value::Bool(b),
        JsonValue::Number(n) => Value::Number(n.parse().unwrap()),
        JsonValue::Text(s) => Value::String(s),
        JsonValue::Array(a) => Value::Array(a.into_iter().map(serde_value).collect()),
        JsonValue::Object(fs) => Value::Object(fs.into_iter().map(|(k, x)| (k, serde_value(x))).collect()),
    }
}

fn timeline(text: &str) -> JsonValue {
    json_value(&serde_json::from_str(text).unwrap())
}

#[test]
fn compose_timeline_missing_fields() {
    let t = timeline(r#"{"video_tracks":[{"video_track_clips":[{"media_url":"x"}]}]}"#);
    let f = validate_clip_timing(&clip_timings(&t)).unwrap();
    assert_eq!(f.kind, FailureKind::ClientError);
    assert!(f.message.contains("missing required field 'timeline_in'"), "got: {:?}", f);
}

#[test]
fn compose_timeline_null_fields() {
    let t = timeline(
        r#"{"video_tracks":[{"video_track_clips":[{"timeline_in":null,"timeline_out":5,"media_url":"x"}]}]}"#,
    );
    let f = validate_clip_timing(&clip_timings(&t)).unwrap();
    assert!(f.message.contains("missing required field 'timeline_in'"), "got: {:?}", f);
}

#[test]
fn timeline_timings_and_counts() {
    let t = timeline(
        r#"{"audio_tracks":[{"audio_track_clips":[{"timeline_in":0,"timeline_out":1}]},{"x":1}],
            "video_tracks":[{"video_track_clips":[{"timeline_in":0,"timeline_out":5},{"timeline_in":1}]}],
            "effect_tracks":[{},{},{}]}"#,
    );
    let ts = clip_timings(&t);
    assert_eq!(ts.len(), 3);
    assert_eq!((ts[0].track_key.as_str(), ts[0].clip_index), ("video_tracks", 0));
    assert_eq!((ts[1].clip_key.as_str(), ts[1].clip_index, ts[1].has_timeline_out), ("video_track_clips", 1, false));
    assert_eq!(ts[2].track_key, "audio_tracks");
    assert_eq!(
        validate_clip_timing(&ts).unwrap().message,
        "video_tracks[0].video_track_clips[1]: missing required field 'timeline_out'"
    );
    let c = track_counts(&t);
    assert_eq!((c.video, c.audio, c.subtitle, c.effect), (1, 2, 0, 3));
}

#[test]
fn timeline_urls_are_collected_and_rewritten() {
    let t = timeline(
        r#"{"video_tracks":[{"video_track_clips":[
              {"media_url":"ssupload:?id=1","timeline_in":0},
              {"media_url":"http://x/v.mp4"},
              {"media_url":7},
              {"other":"y"}]}],
            "subtitle_tracks":[{"subtitle_track_clips":[{"file_url":"./s.srt"}]}],
            "keep":[1,2.5,true,null]}"#,
    );
    let urls = clip_urls(&t, TrackKind::Video);
    assert_eq!(urls, vec!["ssupload:?id=1", "http://x/v.mp4"]);
    assert_eq!(clip_urls(&t, TrackKind::Audio), Vec::<String>::new());
    assert_eq!(clip_urls(&t, TrackKind::Subtitle), vec!["./s.srt"]);
    let t2 = rewrite_clip_urls(t, TrackKind::Video, &urls);
    let t3 = rewrite_clip_urls(t2, TrackKind::Subtitle, &vec!["ssupload:?id=9".to_string()]);
    let expected = timeline(
        r#"{"video_tracks":[{"video_track_clips":[
              {"timeline_in":0,"media_id":"ssupload:?id=1"},
              {"media_url":"http://x/v.mp4"},
              {"media_url":7},
              {"other":"y"}]}],
            "subtitle_tracks":[{"subtitle_track_clips":[{"file_url":"ssupload:?id=9"}]}],
            "keep":[1,2.5,true,null]}"#,
    );
    assert_eq!(serde_value(t3), serde_value(expected));
}

#[test]
fn media_id_replaces_an_existing_one() {
    let t = timeline(r#"{"audio_tracks":[{"audio_track_clips":[{"media_id":"old","media_url":"./a.mp3"}]}]}"#);
    let t2 = rewrite_clip_urls(t, TrackKind::Audio, &vec!["ssupload:?id=5".to_string()]);
    let expected = timeline(r#"{"audio_tracks":[{"audio_track_clips":[{"media_id":"ssupload:?id=5"}]}]}"#);
    assert_eq!(serde_value(t2), serde_value(expected));
}

#[test]
fn clip_timing_names_the_first_bad_clip() {
    let mut second = clip(true, false);
    second.clip_index = 1;
    second.track_index = 2;
    let f = validate_clip_timing(&vec![clip(true, true), second]).unwrap();
    assert_eq!(
        f.message,
        "video_tracks[2].video_track_clips[1]: missing required field 'timeline_out'"
    );
    assert!(validate_clip_timing(&vec![clip(true, true)]).is_none());
}

#[test]
fn compose_urls() {
    assert!(matches!(normalize_media_url("ssupload:?id=1", false), UrlAction::Keep));
    assert!(matches!(normalize_media_url("https://x/v.mp4", false), UrlAction::Keep));
    assert!(matches!(normalize_media_url("./v.mp4", true), UrlAction::Upload));
    match normalize_media_url("x", false) {
        UrlAction::Fail(f) => assert_eq!(
            f.message,
            "Cannot resolve media_url: 'x'. Expected ssupload:?id=, URL, or local file path."
        ),
        other => panic!("unexpected {:?}", other),
    }
    match normalize_file_url("subs.srt", false) {
        UrlAction::Fail(f) => assert_eq!(
            f.message,
            "Cannot resolve file_url: 'subs.srt'. Expected ssupload:?id=, URL, or local file path."
        ),
        other => panic!("unexpected {:?}", other),
    }
    assert_eq!(media_url_key("ssupload:?id=9"), "media_id");
    assert_eq!(media_url_key("https://x"), "media_url");
    assert_eq!(
        upload_local_subtitle("s.srt", false).unwrap().message,
        "Subtitle file not found: s.srt"
    );
    assert!(upload_local_subtitle("s.srt", true).is_none());
    assert_eq!(upload_local_media("m.mp4", false).unwrap().message, "Media file not found: m.mp4");
    assert_eq!(upload_local_file("i.png", false).unwrap().message, "Image file not found: i.png");
    assert_eq!(upload_media_file("v.mp4", false).unwrap().message, "File not found: v.mp4");
    assert!(upload_media_file("v.mp4", true).is_none());
}

#[test]
fn compose_media_limits() {
    assert_eq!(
        validate_compose_media("a.png", 10, Some((1920, 1080))).unwrap(),
        Some((1920, 1080))
    );
    assert_eq!(validate_compose_media("a.srt", 1 << 40, None).unwrap(), None);
    assert_eq!(
        validate_compose_media("a.png", 60 * 1024 * 1024, None).unwrap_err().message,
        "Image too large: a.png (60.0MB). Maximum: 50MB."
    );
    assert_eq!(
        validate_compose_media("a.mp4", 501 * 1024 * 1024, None).unwrap_err().message,
        "Video too large: a.mp4 (501.0MB). Maximum: 500MB."
    );
    assert_eq!(
        validate_compose_media("a.mp4", 1, Some((100, 720))).unwrap_err().message,
        "Media dimensions too small: 100x720. Minimum: 128x128."
    );
    assert_eq!(
        validate_compose_media("a.mp4", 1, Some((5000, 720))).unwrap_err().message,
        "Media dimensions too large: 5000x720. Maximum: 4096x4096."
    );
    assert_eq!(
        validate_compose_media("a.mp4", 1, Some((3840, 2400))).unwrap_err().message,
        "Short side too large: 3840x2400 (short side 2400). Maximum short side: 2160."
    );
}

#[test]
fn compose_upload_metadata_and_task_id() {
    let m = upload_compose_media(Some((1920, 1080))).unwrap();
    assert_eq!(map_of(&m), pairs(&[("image-width", "1920"), ("image-height", "1080")]));
    assert!(upload_compose_media(None).is_none());
    assert_eq!(require_compose_task_id(&text("t1"), "{}").unwrap(), "t1");
    let f = require_compose_task_id(&JsonField::Absent, "{\"job\":{}}").unwrap_err();
    assert_eq!(f.kind, FailureKind::ParseError);
    assert_eq!(f.message, "No task_id in response: {\"job\":{}}");
}

#[test]
fn media_extension_from_bytes() {
    assert_eq!(ext_from_bytes(&[0xFF, 0xD8, 0xFF, 0xE0]), "jpg");
    assert_eq!(ext_from_bytes(&[0x89, b'P', b'N', b'G', 0x0D]), "png");
    assert_eq!(ext_from_bytes(b"GIF89a"), "gif");
    assert_eq!(ext_from_bytes(b"RIFF\0\0\0\0WEBPVP8 "), "webp");
    assert_eq!(ext_from_bytes(b"RIFF\0\0\0\0WAVEfmt "), "wav");
    assert_eq!(ext_from_bytes(b"ID3\x04\0\0"), "mp3");
    assert_eq!(ext_from_bytes(&[0xFF, 0xFB, 0x90, 0x00]), "mp3");
    assert_eq!(ext_from_bytes(&[0xFF, 0xF1, 0x50, 0x80]), "mp3");
    assert_eq!(ext_from_bytes(b"\0\0\0\x18ftypmp42"), "mp4");
    assert_eq!(ext_from_bytes(b"ab"), "mp4");
    assert_eq!(download_file_name("t9", 2, &[0xFF, 0xD8, 0xFF, 0xDB]), "t9_2.jpg");
}

#[test]
fn task_get_download_decisions() {
    assert_eq!(download_step("success", true), DownloadStep::Download);
    assert_eq!(download_step("processing", true), DownloadStep::Skip);
    assert_eq!(download_step("success", false), DownloadStep::NotRequested);
    assert!(reports_failure("failed"));
    assert!(!reports_failure("success"));
    let urls = download_urls(&vec![Some("u1".to_string()), None, Some("u2".to_string())]);
    assert_eq!(urls, vec!["u1", "u2"]);
}

// --- Lip sync and TTS ------------------------------------------------------------

#[test]
fn lip_sync_inputs() {
    assert_eq!(
        lip_sync_source(Some("t"), Some("a")).unwrap_err().message,
        "--text and --audio are mutually exclusive"
    );
    assert_eq!(lip_sync_source(None, None).unwrap_err().message, "Either --text or --audio is required");
    assert!(matches!(lip_sync_source(Some("hi"), None), Ok(LipSyncSource::Text(s)) if s == "hi"));
    assert!(matches!(lip_sync_source(None, Some("a.mp3")), Ok(LipSyncSource::Audio(s)) if s == "a.mp3"));
}

#[test]
fn text_duration_by_script() {
    assert_eq!(calculate_text_duration("abcdefghijk"), 2);
    assert_eq!(calculate_text_duration("abcdefghij"), 1);
    assert_eq!(calculate_text_duration("你好世界你好"), 2);
    assert_eq!(calculate_text_duration("你好"), 1);
    assert_eq!(calculate_text_duration(""), 0);
}

#[test]
fn lip_sync_text_rules() {
    assert_eq!(validate_lip_sync_text(""), "Text content cannot be empty");
    assert_eq!(validate_lip_sync_text("abc"), "English text must be 4-2000 characters, got 3");
    assert_eq!(validate_lip_sync_text("abcd"), "");
    assert_eq!(validate_lip_sync_text("你"), "Chinese text must be 2-1000 characters, got 1");
    assert_eq!(validate_lip_sync_text("你好"), "");
    let long: String = std::iter::repeat('a').take(2001).collect();
    assert_eq!(validate_lip_sync_text(&long), "English text must be 4-2000 characters, got 2001");
    assert_eq!(validate_voice_id("English_Aussie_Bloke"), "");
    assert_eq!(validate_voice_id("Nobody"), "Invalid voice_id 'Nobody'");
    assert_eq!(
        plan_text_lip_sync("Hello there friend", "English_Aussie_Bloke").unwrap(),
        2
    );
    assert_eq!(
        plan_text_lip_sync("Hello", "English_Aussie_Bloke").unwrap_err().message,
        "Text is too short, duration must be at least 2 seconds"
    );
    assert_eq!(
        plan_text_lip_sync("Hello there friend", "x").unwrap_err().message,
        "Invalid voice_id 'x'"
    );
}

#[test]
fn voice_list() {
    let v = all_voice_ids();
    assert_eq!(v.len(), 79);
    assert_eq!(v[0], "male-qn-qingse");
    assert!(v.contains(&"Cantonese_ProfessionalHost（F)"));
    assert_eq!(*v.last().unwrap(), "English_Gentle-voiced_man");
}

#[test]
fn tts_segments() {
    let segs = plan_tts_segments(Some("hello"), &vec![], &strings(&["happy", "sad"])).unwrap();
    assert_eq!(segs.len(), 1);
    assert_eq!(segs[0].content, "hello");
    assert_eq!(segs[0].emotion, Some("happy".to_string()));
    let segs = plan_tts_segments(None, &strings(&["a", "b", "c"]), &strings(&["x", " "])).unwrap();
    assert_eq!(segs.len(), 3);
    assert_eq!(segs[0].emotion, Some("x".to_string()));
    assert_eq!(segs[1].emotion, None);
    assert_eq!(segs[2].emotion, None);
    assert_eq!(
        plan_tts_segments(Some("  "), &vec![], &vec![]).unwrap_err().message,
        "Prompt cannot be empty"
    );
    assert_eq!(
        plan_tts_segments(None, &vec![], &vec![]).unwrap_err().message,
        "Either --prompt or at least one --text is required"
    );
    assert_eq!(
        plan_tts_segments(None, &strings(&["a"]), &strings(&["x", "y"])).unwrap_err().message,
        "Too many --emotion values (2): must not exceed number of --text segments (1)"
    );
    let many: Vec<String> = (0..21).map(|i| format!("s{i}")).collect();
    assert_eq!(
        plan_tts_segments(None, &many, &vec![]).unwrap_err().message,
        "Too many segments (21). Maximum: 20"
    );
    assert_eq!(
        plan_tts_segments(None, &strings(&["ok", " "]), &vec![]).unwrap_err().message,
        "Segment 2 text cannot be empty"
    );
    let long: String = std::iter::repeat('b').take(2001).collect();
    assert_eq!(
        plan_tts_segments(Some(&long), &vec![], &vec![]).unwrap_err().message,
        "Segment 1 text too long (2001 characters). Maximum: 2000"
    );
    assert_eq!(validate_tts_volume(80), "");
    assert_eq!(validate_tts_volume(101), "volume must be between 0 and 100, got 101");
    assert_eq!(validate_tts_volume(-1), "volume must be between 0 and 100, got -1");
    assert_eq!(language_boost(Some("  English ")), Some("English".to_string()));
    assert_eq!(language_boost(Some("   ")), None);
    assert_eq!(language_boost(None), None);
}

// --- Requests and responses ------------------------------------------------------

#[test]
fn headers_need_a_token_and_take_overrides() {
    let f = get_headers("", "https://b", None).unwrap_err();
    assert_eq!(f.kind, FailureKind::ClientError);
    assert_eq!(f.message, "VIDU_TOKEN not set");
    let h = get_headers("abc", "https://b", None).unwrap();
    assert_eq!(
        map_of(&h),
        pairs(&[
            ("Authorization", "Token abc"),
            ("Content-Type", "application/json"),
            ("User-Agent", "viduclawbot/1.0 (+https://b)"),
        ])
    );
    let mut extra = StringMap::new();
    extra.insert("Content-Type".to_string(), "image/png".to_string());
    extra.insert("X-Step".to_string(), "1".to_string());
    let h = get_headers("abc", "https://b", Some(&extra)).unwrap();
    assert_eq!(h.len(), 4);
    assert_eq!(h.get("Content-Type"), Some(&"image/png".to_string()));
    assert_eq!(h.get("X-Step"), Some(&"1".to_string()));
    assert_eq!(base_url(None), "https://service.vidu.cn");
    assert_eq!(base_url(Some("https://service.vidu.com")), "https://service.vidu.com");
}

#[test]
fn string_map_keeps_one_value_per_key() {
    let mut m = StringMap::new();
    assert_eq!(m.len(), 0);
    m.insert("a".to_string(), "1".to_string());
    m.insert("b".to_string(), "2".to_string());
    m.insert("a".to_string(), "3".to_string());
    assert_eq!(m.len(), 2);
    assert_eq!(m.get("a"), Some(&"3".to_string()));
    assert_eq!(m.get("z"), None);
}

#[test]
fn credit_queries() {
    let q = query_credits("text2video", "3.2", 8, "1080p", Some("16:9"), None, 1, "h265", "normal");
    assert_eq!(
        map_of(&q),
        pairs(&[
            ("type", "text2video"),
            ("settings.model_version", "3.2"),
            ("settings.duration", "8"),
            ("settings.resolution", "1080p"),
            ("settings.sample_count", "1"),
            ("settings.codec", "h265"),
            ("settings.schedule_mode", "normal"),
            ("settings.aspect_ratio", "16:9"),
        ])
    );
    let q = query_tts_credits("Hi", "v", "1.2", 0, 80, "claw_pass");
    assert_eq!(
        map_of(&q),
        pairs(&[
            ("type", "tts"),
            ("settings.voice_id", "v"),
            ("settings.speed", "1.2"),
            ("settings.pitch", "0"),
            ("settings.volume", "80"),
            ("settings.schedule_mode", "claw_pass"),
            ("text", "Hi"),
        ])
    );
    let q = query_lip_sync_credits(-5, "v", "1", None, "h264", "normal");
    assert_eq!(
        map_of(&q),
        pairs(&[
            ("type", "lip_sync"),
            ("settings.duration", "-5"),
            ("settings.voice_id", "v"),
            ("settings.speed", "1"),
            ("settings.codec", "h264"),
            ("settings.schedule_mode", "normal"),
        ])
    );
    let q = query_lip_sync_credits(5, "v", "1", Some("0.5"), "h264", "normal");
    assert_eq!(q.get("settings.volume"), Some(&"0.5".to_string()));
}

#[test]
fn element_queries() {
    let q = element_list_params(Some("char"), 0, 20);
    assert_eq!(
        map_of(&q),
        pairs(&[("pager.page", "0"), ("pager.pagesz", "20"), ("modalities", "image"), ("keyword", "char")])
    );
    assert_eq!(element_list_params(None, 1, 5).len(), 3);
    let q = element_search_params("anime", 20, "recommend", "").unwrap();
    assert_eq!(
        map_of(&q),
        pairs(&[
            ("keyword", "anime"),
            ("pager.page_token", ""),
            ("pager.pagesz", "20"),
            ("modalities", "image"),
            ("sort_by", "recommend"),
            ("is_like", "false"),
            ("is_collect", "false"),
        ])
    );
    assert_eq!(
        element_search_params("", 20, "recommend", "").unwrap_err().message,
        "--keyword is required for search"
    );
}

fn value(text: Option<&str>, rendered: &str) -> Option<JsonValueText> {
    Some(JsonValueText { text: text.map(|s| s.to_string()), rendered: rendered.to_string() })
}

#[test]
fn error_bodies() {
    let b = ErrorBody {
        code: value(Some("E42"), "\"E42\""),
        err_code: None,
        message: JsonField::Absent,
        msg: text("bad"),
        err_msg: text("worse"),
    };
    assert_eq!(parse_error_body("{...}", &Some(b)), ("E42".to_string(), "bad".to_string()));
    let b = ErrorBody {
        code: None,
        err_code: value(None, "1001"),
        message: JsonField::Other,
        msg: JsonField::Absent,
        err_msg: JsonField::Absent,
    };
    assert_eq!(parse_error_body("raw", &Some(b)), ("1001".to_string(), "raw".to_string()));
    let b = ErrorBody {
        code: value(Some(""), "\"\""),
        err_code: None,
        message: JsonField::Absent,
        msg: JsonField::Absent,
        err_msg: JsonField::Absent,
    };
    assert_eq!(parse_error_body("t", &Some(b)), ("\"\"".to_string(), "t".to_string()));
    let long: String = std::iter::repeat('x').take(250).collect();
    let (code, msg) = parse_error_body(&long, &None);
    assert_eq!(code, "");
    assert_eq!(msg.chars().count(), 200);
}

#[test]
fn failures_of_responses() {
    let f = http_failure(503, String::new(), "down".to_string(), Some("upload"));
    assert_eq!(f.kind, FailureKind::HttpError);
    assert_eq!(f.http_status, Some(503));
    assert_eq!(f.code, None);
    assert_eq!(f.step, Some("upload".to_string()));
    let f = http_failure(400, "E1".to_string(), "bad".to_string(), None);
    assert_eq!(f.code, Some("E1".to_string()));
    let f = network_failure("timeout", None);
    assert_eq!(f.kind, FailureKind::NetworkError);
    assert_eq!(f.message, "timeout");
    let f = invalid_json_failure("<html>", Some("create"));
    assert_eq!(f.kind, FailureKind::ParseError);
    assert_eq!(f.message, "Response is not valid JSON: <html>");
    let f = put_failure(403, "denied", None);
    assert_eq!(f.message, "PUT failed: denied");
    assert_eq!(f.http_status, Some(403));
    assert_eq!(failure_kind_name(FailureKind::ClientError), "client_error");
    assert_eq!(failure_kind_name(FailureKind::HttpError), "http_error");
    assert_eq!(failure_kind_name(FailureKind::NetworkError), "network_error");
    assert_eq!(failure_kind_name(FailureKind::ParseError), "parse_error");
    let f = Failure::client_str("m");
    assert_eq!(f.kind, FailureKind::ClientError);
}

#[test]
fn ids_and_upload_references() {
    assert_eq!(id_text(&IdValue::Number("123".to_string())), "123");
    assert_eq!(id_text(&IdValue::Other), "");
    assert_eq!(require_task_id(&IdValue::Text("t1".to_string()), "{}").unwrap(), "t1");
    let f = require_task_id(&IdValue::Absent, "{\"x\":1}").unwrap_err();
    assert_eq!(f.message, "No task id in response: {\"x\":1}");
    assert_eq!(
        upload_target(&IdValue::Number("7".to_string()), &text("https://put"), "{}").unwrap(),
        ("7".to_string(), "https://put".to_string())
    );
    let f = upload_target(&IdValue::Text("7".to_string()), &JsonField::Absent, "{}").unwrap_err();
    assert_eq!(f.message, "Unexpected create_upload response: {}");
    assert_eq!(f.step, Some("create_upload".to_string()));
    assert_eq!(upload_uri("abc"), "ssupload:?id=abc");
    assert_eq!(upload_id_of(&upload_uri("abc")), "abc");
    assert_eq!(upload_id_of("https://x"), "");
}

#[test]
fn retry_policy() {
    assert_eq!(attempts_for(true), 3);
    assert_eq!(attempts_for(false), 1);
    assert!(matches!(next_step(0, 3, &AttemptOutcome::Status(502)), RetryStep::Retry(1)));
    assert!(matches!(next_step(1, 3, &AttemptOutcome::Status(500)), RetryStep::Retry(2)));
    assert!(matches!(next_step(2, 3, &AttemptOutcome::Status(500)), RetryStep::FailHttp(500)));
    assert!(matches!(next_step(0, 3, &AttemptOutcome::Status(404)), RetryStep::FailHttp(404)));
    assert!(matches!(next_step(0, 3, &AttemptOutcome::Status(200)), RetryStep::Return));
    assert!(matches!(
        next_step(1, 3, &AttemptOutcome::Transport("timeout".to_string())),
        RetryStep::Retry(2)
    ));
    assert!(matches!(
        next_step(2, 3, &AttemptOutcome::Transport("timeout".to_string())),
        RetryStep::FailNetwork(e) if e == "timeout"
    ));
    assert!(matches!(
        next_step(0, 1, &AttemptOutcome::Status(503)),
        RetryStep::FailHttp(503)
    ));
}

// --- Upload ----------------------------------------------------------------------

#[test]
fn upload_content_type_and_size() {
    assert_eq!(upload_mime("photo.png"), "image/png");
    assert_eq!(upload_mime("photo.JPG"), "image/jpeg");
    assert_eq!(upload_mime("photo.webp"), "image/webp");
    assert_eq!(upload_mime("notes.txt"), "image/jpeg");
    assert_eq!(upload_mime("noext"), "image/jpeg");
    assert!(needs_compression(10 * 1024 * 1024 + 1));
    assert!(!needs_compression(10 * 1024 * 1024));
}

#[test]
fn compress_small_image_gives_a_jpeg() {
    let (w, h) = (16u32, 8u32);
    let rgb: Vec<u8> = (0..(w * h * 3)).map(|i| (i % 251) as u8).collect();
    let out = compress_to_fit(w, h, &rgb).unwrap();
    assert_eq!(&out[..3], &[0xFF, 0xD8, 0xFF]);
    assert_eq!(ext_from_bytes(&out), "jpg");
    assert!(out.len() <= 10 * 1024 * 1024);
}

#[test]
fn small_image_is_uploaded_as_it_is() {
    let (w, h) = (16u32, 8u32);
    let rgb: Vec<u8> = (0..(w * h * 3)).map(|i| (i % 251) as u8).collect();
    let png = rgb_png(w, h, &rgb);
    let (bytes, cw, ch, mime) = compress_image_if_needed("small.png", png.clone()).unwrap();
    assert_eq!((cw, ch), (16, 8));
    assert_eq!(bytes, png);
    assert_eq!(mime, "image/png");
}

#[test]
fn undecodable_image_is_refused_with_the_decoder_error() {
    let rgb: Vec<u8> = vec![7u8; 4 * 4 * 3];
    let png = rgb_png(4, 4, &rgb);
    let garbage = compress_image_if_needed("small.png", b"not an image".to_vec()).unwrap_err();
    assert!(garbage.starts_with("Cannot read image: "));
    assert!(garbage.len() > "Cannot read image: ".len());
    let unknown = compress_image_if_needed("small.unknown", png).unwrap_err();
    assert!(unknown.starts_with("Cannot read image: "));
    assert!(unknown.len() > "Cannot read image: ".len());
}

#[test]
fn large_image_is_compressed_to_jpeg() {
    let (w, h) = (2400u32, 1600u32);
    let mut rgb: Vec<u8> = Vec::with_capacity((w * h * 3) as usize);
    for y in 0..h {
        for x in 0..w {
            rgb.push((x % 256) as u8);
            rgb.push((y % 256) as u8);
            rgb.push(((x + y) % 256) as u8);
        }
    }
    let img = image::RgbImage::from_raw(w, h, rgb).unwrap();
    let mut buf = std::io::Cursor::new(Vec::new());
    img.write_to(&mut buf, image::ImageFormat::Bmp).unwrap();
    let bmp = buf.into_inner();
    assert!(bmp.len() > 10 * 1024 * 1024);
    let (bytes, cw, ch, mime) = compress_image_if_needed("big.bmp", bmp).unwrap();
    assert_eq!((cw, ch), (w, h));
    assert_eq!(mime, "image/jpeg");
    assert_eq!(&bytes[..3], &[0xFF, 0xD8, 0xFF]);
    assert!(bytes.len() <= 10 * 1024 * 1024);
}

fn rgb_png(w: u32, h: u32, rgb: &[u8]) -> Vec<u8> {
    let img = image::RgbImage::from_raw(w, h, rgb.to_vec()).unwrap();
    let mut buf = std::io::Cursor::new(Vec::new());
    img.write_to(&mut buf, image::ImageFormat::Png).unwrap();
    buf.into_inner()
}

#[test]
fn image_put_headers_carry_type_and_size() {
    let h = image_put_headers("image/png", 640, 480);
    assert_eq!(
        map_of(&h),
        pairs(&[
            ("Content-Type", "image/png"),
            ("x-amz-meta-image-width", "640"),
            ("x-amz-meta-image-height", "480"),
        ])
    );
}

// --- Text helpers ------------------------------------------------------------------

#[test]
fn sorting_is_by_character() {
    assert_eq!(
        sort_strings(strings(&["task", "element", "Zed", "quota", "task"])),
        vec!["Zed", "element", "quota", "task", "task"]
    );
    assert!(lex_le_str("3.2", "3.2_a"));
    assert!(!lex_le_str("b", "a"));
    assert!(lex_le_str("", ""));
    assert_eq!(strip_ansi("\u{1b}[32mok\u{1b}[0m"), "ok");
}

#[test]
fn mib_text_matches_float_formatting() {
    let mut sizes: Vec<u64> = vec![0, 1, 1023, 1024 * 1024, 500 * 1024 * 1024 + 1];
    for k in [1u64, 3, 5, 401, 2001, 40001] {
        sizes.push(k << 18);
        sizes.push((k << 18) + 1);
        sizes.push((k << 18) - 1);
        sizes.push(k << 17);
    }
    for i in 0..2000u64 {
        sizes.push(i.wrapping_mul(2654435761) % (1u64 << 40));
    }
    for size in sizes {
        let mut s = String::new();
        vidu_cli::text::push_mib(&mut s, size);
        let expected = format!("{:.1}", size as f64 / 1024.0 / 1024.0);
        assert_eq!(s, expected, "size {size}");
    }
}

#[test]
fn whitespace_class_matches_char_is_whitespace() {
    for u in 0u32..0x110000 {
        if let Some(c) = char::from_u32(u) {
            assert_eq!(vidu_cli::text::is_whitespace_char(c), c.is_whitespace(), "U+{u:04X}");
        }
    }
}

#[test]
fn trimming_and_splitting_match_str() {
    let samples = [
        "", " ", "a", "  a b  ", "\u{3000}x\u{a0}", "\tUsage: vidu-cli task\r", "a\u{2028}b", "中文 文本 ",
    ];
    for s in samples {
        assert_eq!(vidu_cli::text::trim_str(s), s.trim(), "{s:?}");
        assert_eq!(vidu_cli::text::trim_start_str(s), s.trim_start(), "{s:?}");
        let words: Vec<String> = s.split_whitespace().map(|w| w.to_string()).collect();
        assert_eq!(vidu_cli::text::split_whitespace_str(s), words, "{s:?}");
        let parts: Vec<String> = s.split(' ').map(|w| w.to_string()).collect();
        assert_eq!(vidu_cli::text::split_str(s, ' '), parts, "{s:?}");
        assert_eq!(vidu_cli::text::is_blank_str(s), s.trim().is_empty(), "{s:?}");
    }
}

#[test]
fn sorting_matches_vec_sort() {
    let words = ["b", "a", "", "ab", "Ä", "z", "é", "中", "aa", "a b", "A", "~", "3.2_a", "3.2"];
    for n in 0..words.len() {
        let v: Vec<String> = words.iter().cycle().skip(n * 3).take(n + 2).map(|s| s.to_string()).collect();
        let mut expected = v.clone();
        expected.sort();
        assert_eq!(sort_strings(v), expected);
    }
    for a in words {
        for b in words {
            assert_eq!(lex_le_str(a, b), a <= b, "{a:?} {b:?}");
        }
    }
}

#[test]
fn get_reports_a_skipped_download_as_true() {
    let r = task_report(
        "t1",
        &text("processing"),
        &text("text2video"),
        &text("vidu-3.2"),
        &JsonField::Absent,
        &JsonField::Absent,
        true,
    );
    assert_eq!(r.task_id, "t1");
    assert_eq!(r.state, "processing");
    assert_eq!(r.task_type, "text2video");
    assert_eq!(r.model, "vidu-3.2");
    assert!(r.failure.is_none());
    assert_eq!(r.download, DownloadStep::Skip);
    assert!(r.download_skipped);
    let r = task_report("t1", &text("success"), &JsonField::Other, &JsonField::Absent, &JsonField::Absent, &JsonField::Absent, true);
    assert_eq!(r.download, DownloadStep::Download);
    assert!(!r.download_skipped);
    assert_eq!(r.task_type, "");
    let r = task_report("t1", &text("failed"), &text("tts"), &text("m"), &text("E1"), &text("boom"), false);
    assert_eq!(r.failure, Some(("E1".to_string(), "boom".to_string())));
    assert_eq!(r.download, DownloadStep::NotRequested);
    assert!(!r.download_skipped);
}

#[test]
fn tts_request_has_type_tts_and_enhance() {
    let segs = plan_tts_segments(None, &strings(&["a", "b"]), &strings(&["happy"])).unwrap();
    let q = tts_request(segs, "English_Trustworthy_Man", 80, Some(" English "), "normal").unwrap();
    assert_eq!(q.task_type, "tts");
    assert!(q.enhance);
    assert_eq!(q.prompts.len(), 2);
    assert_eq!(q.prompts[0].emotion, Some("happy".to_string()));
    assert_eq!(q.prompts[1].emotion, None);
    assert_eq!(q.voice_id, "English_Trustworthy_Man");
    assert_eq!(q.volume, 80);
    assert_eq!(q.schedule_mode, "normal");
    assert_eq!(q.language_boost, Some("English".to_string()));
    let segs = vec![TtsSegment { content: "x".to_string(), emotion: None }];
    assert_eq!(
        tts_request(segs, "v", 120, None, "normal").unwrap_err().message,
        "volume must be between 0 and 100, got 120"
    );
}

#[test]
fn strip_ansi_is_idempotent_and_leaves_no_escape() {
    for s in ["\u{1b}[1mA\u{1b}[0m", "a\u{1b}\u{1b}[2;3Hb", "\u{1b}\u{1b}x", "plain", "\u{1b}"] {
        let once = strip_ansi(s);
        assert!(!once.contains('\u{1b}'), "{s:?}");
        assert_eq!(strip_ansi(&once), once);
    }
}
