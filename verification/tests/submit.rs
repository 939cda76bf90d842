use std::path::Path;
use vidu_cli::failure::{Failure, FailureKind};
use vidu_cli::requests::{base_url, get_headers};
use vidu_cli::submission::{
    build_submission, check_reference_media, check_submission, choose_codec,
    process_image_input, resolve_schedule_mode, ImageInput, MediaInput, Prompt, SubmitRequest,
};

// The command-line values of `task submit` that the tests vary.
struct Submit<'a> {
    task_type: &'a str,
    prompt: &'a str,
    images: Vec<&'a str>,
    materials: Vec<&'a str>,
    audios: Vec<&'a str>,
    videos: Vec<&'a str>,
    duration: i64,
    model_version: &'a str,
    resolution: &'a str,
    transition: Option<&'a str>,
    aspect_ratio: Option<&'a str>,
}

fn submit<'a>(task_type: &'a str, duration: i64, model_version: &'a str, resolution: &'a str) -> Submit<'a> {
    Submit {
        task_type,
        prompt: "test",
        images: vec![],
        materials: vec![],
        audios: vec![],
        videos: vec![],
        duration,
        model_version,
        resolution,
        transition: None,
        aspect_ratio: None,
    }
}

fn media_input(value: &str) -> MediaInput {
    let p = Path::new(value);
    MediaInput {
        value: value.to_string(),
        is_file: p.is_file(),
        size: p.metadata().map(|m| m.len()).unwrap_or(0),
    }
}

fn strings(v: &[&str]) -> Vec<String> {
    v.iter().map(|s| s.to_string()).collect()
}

// The steps of `task submit --schedule-mode normal` up to the first
// request, without a token: the failure it ends with.
fn run_submit(a: &Submit) -> Failure {
    let schedule_mode = resolve_schedule_mode(Some("normal"), false).unwrap();
    let codec = choose_codec("h265", true).to_string();
    let audios: Vec<MediaInput> = a.audios.iter().map(|v| media_input(v)).collect();
    let videos: Vec<MediaInput> = a.videos.iter().map(|v| media_input(v)).collect();
    if let Some(f) = check_reference_media(a.task_type, a.model_version, &audios, &videos) {
        return f;
    }
    let mut images = Vec::new();
    for i in &a.images {
        match process_image_input(i) {
            ImageInput::Uploaded(u) => images.push(u),
            other => panic!("test inputs are upload references, got {:?}", other),
        }
    }
    let req = SubmitRequest {
        task_type: a.task_type.to_string(),
        prompt: a.prompt.to_string(),
        images,
        materials: strings(&a.materials),
        audios: strings(&a.audios),
        videos: strings(&a.videos),
        duration: a.duration,
        model_version: a.model_version.to_string(),
        aspect_ratio: a.aspect_ratio.map(|s| s.to_string()),
        transition: a.transition.map(|s| s.to_string()),
        resolution: a.resolution.to_string(),
        sample_count: 1,
        codec,
        movement_amplitude: "auto".to_string(),
        schedule_mode,
    };
    let task = match build_submission(&req) {
        Ok(t) => t,
        Err(f) => return f,
    };
    let err = check_submission(&task);
    if !err.is_empty() {
        return Failure::client(err);
    }
    match get_headers("", &base_url(None), None) {
        Ok(_) => panic!("no token, yet headers were built"),
        Err(f) => f,
    }
}

fn assert_client_error(f: &Failure, expected_msg: &str) {
    assert_eq!(f.kind, FailureKind::ClientError, "Expected a client error, got: {:?}", f);
    assert!(f.message.contains(expected_msg), "Expected '{}' in output: {:?}", expected_msg, f);
}

#[test]
fn submit_invalid_type() {
    let f = run_submit(&submit("bad_type", 5, "3.2", "1080p"));
    assert_client_error(&f, "Invalid type");
}

#[test]
fn submit_invalid_model_version() {
    let f = run_submit(&submit("text2video", 5, "9.9", "1080p"));
    assert_client_error(&f, "Invalid model_version");
}

#[test]
fn submit_3_2_a_invalid_duration() {
    let f = run_submit(&submit("text2video", 3, "3.2_a", "1080p"));
    assert_client_error(&f, "invalid for 3.2_a");
}

#[test]
fn submit_duration_out_of_range() {
    let f = run_submit(&submit("text2video", 99, "3.1", "1080p"));
    assert_client_error(&f, "out of range");
}

#[test]
fn submit_img2video_missing_image() {
    let f = run_submit(&submit("img2video", 5, "3.1", "1080p"));
    assert_client_error(&f, "requires exactly 1 image");
}

#[test]
fn submit_character2video_3_2_missing_transition() {
    let mut a = submit("character2video", 8, "3.2", "1080p");
    a.images = vec!["ssupload:?id=fake"];
    let f = run_submit(&a);
    assert_client_error(&f, "requires transition");
}

#[test]
fn submit_audio_wrong_task_type() {
    let mut a = submit("text2video", 5, "3.2", "1080p");
    a.audios = vec!["ssupload:?id=fake"];
    let f = run_submit(&a);
    assert_client_error(&f, "Audio input is only supported for character2video");
}

#[test]
fn submit_audio_too_many() {
    let mut a = submit("character2video", -1, "3.2_a", "1080p");
    a.images = vec!["ssupload:?id=fake"];
    a.audios = vec!["ssupload:?id=a1", "ssupload:?id=a2", "ssupload:?id=a3", "ssupload:?id=a4"];
    let f = run_submit(&a);
    assert_client_error(&f, "Too many audio inputs");
}

#[test]
fn submit_video_wrong_task_type() {
    let mut a = submit("text2video", 5, "3.2", "1080p");
    a.videos = vec!["ssupload:?id=fake"];
    let f = run_submit(&a);
    assert_client_error(&f, "Video input is only supported for character2video");
}

#[test]
fn submit_video_wrong_model() {
    let mut a = submit("character2video", 8, "3.2", "1080p");
    a.images = vec!["ssupload:?id=fake"];
    a.videos = vec!["ssupload:?id=fake"];
    a.transition = Some("pro");
    let f = run_submit(&a);
    assert_client_error(
        &f,
        "Video input is only supported for character2video with model_version 3.2_a",
    );
}

#[test]
fn submit_video_exceeds_3() {
    let mut a = submit("character2video", -1, "3.2_a", "1080p");
    a.images = vec!["ssupload:?id=fake"];
    a.videos = vec!["ssupload:?id=v1", "ssupload:?id=v2", "ssupload:?id=v3", "ssupload:?id=v4"];
    let f = run_submit(&a);
    assert_client_error(&f, "Too many video inputs");
}

#[test]
fn submit_audio_url_rejected() {
    let mut a = submit("character2video", -1, "3.2_a", "1080p");
    a.images = vec!["ssupload:?id=fake"];
    a.audios = vec!["https://example.com/audio.wav"];
    let f = run_submit(&a);
    assert_client_error(&f, "HTTP/HTTPS URLs are not supported for audio");
}

#[test]
fn submit_video_url_rejected() {
    let mut a = submit("character2video", -1, "3.2_a", "1080p");
    a.images = vec!["ssupload:?id=fake"];
    a.videos = vec!["https://example.com/video.mp4"];
    let f = run_submit(&a);
    assert_client_error(&f, "HTTP/HTTPS URLs are not supported for video");
}

#[test]
fn submit_video_nonexistent_file() {
    let mut a = submit("character2video", -1, "3.2_a", "1080p");
    a.images = vec!["ssupload:?id=fake"];
    a.videos = vec!["/tmp/nonexistent_video_12345.mp4"];
    let f = run_submit(&a);
    assert_client_error(&f, "Video file not found");
}

#[test]
fn submit_valid_text2video_reaches_token_check() {
    let mut a = submit("text2video", 5, "3.2", "1080p");
    a.prompt = "a cat";
    let f = run_submit(&a);
    assert_client_error(&f, "VIDU_TOKEN");
}

#[test]
fn submit_invalid_resolution() {
    let f = run_submit(&submit("text2video", 5, "3.2", "8k"));
    assert_client_error(&f, "Invalid resolution");
}

#[test]
fn submit_text2image_high_res() {
    let f = run_submit(&submit("text2image", 0, "3.1", "4k"));
    assert_client_error(&f, "VIDU_TOKEN");
}

#[test]
fn submit_without_token_fails() {
    let f = run_submit(&submit("text2video", 5, "3.2", "1080p"));
    assert_client_error(&f, "VIDU_TOKEN");
}

#[test]
fn submit_video_wrong_format() {
    let m = MediaInput { value: "/tmp/vidu_test_bad.avi".to_string(), is_file: true, size: 4 };
    let f = check_reference_media("character2video", "3.2_a", &vec![], &vec![m]).unwrap();
    assert_client_error(&f, "Invalid video format");
    assert_eq!(f.message, "Invalid video format 'avi'. Supported: mp4, mov");
}

#[test]
fn submit_audio_wrong_format() {
    let m = MediaInput { value: "/tmp/vidu_test_bad.ogg".to_string(), is_file: true, size: 4 };
    let f = check_reference_media("character2video", "3.2_a", &vec![m], &vec![]).unwrap();
    assert_client_error(&f, "Invalid audio format");
    assert_eq!(f.message, "Invalid audio format 'ogg'. Supported: mp3, wav, aac, m4a");
}

#[test]
fn reference_media_exact_messages() {
    let f = check_reference_media(
        "character2video",
        "3.2_a",
        &vec![],
        &(1..=5).map(|i| media_input(&format!("ssupload:?id=v{i}"))).collect(),
    )
    .unwrap();
    assert_eq!(f.message, "Too many video inputs (5). Maximum: 3");
    let big = MediaInput { value: "clip.MOV".to_string(), is_file: true, size: 600 * 1024 * 1024 };
    let f = check_reference_media("character2video", "3.2_a", &vec![], &vec![big]).unwrap();
    assert_eq!(f.message, "Video file too large (600.0MB). Max: 500MB");
    let ok = MediaInput { value: "voice.WAV".to_string(), is_file: true, size: 1024 };
    assert!(check_reference_media("character2video", "3.2_a", &vec![ok], &vec![]).is_none());
    let url = media_input("http://example.com/a.mp3");
    let f = check_reference_media("character2video", "3.2", &vec![url], &vec![]).unwrap();
    assert_eq!(
        f.message,
        "HTTP/HTTPS URLs are not supported for audio input: http://example.com/a.mp3"
    );
}

#[test]
fn schedule_mode_is_checked_or_detected() {
    assert_eq!(resolve_schedule_mode(Some("claw_pass"), false).unwrap(), "claw_pass");
    assert_eq!(resolve_schedule_mode(None, true).unwrap(), "claw_pass");
    assert_eq!(resolve_schedule_mode(None, false).unwrap(), "normal");
    let f = resolve_schedule_mode(Some("cheap"), true).unwrap_err();
    assert_eq!(f.kind, FailureKind::ClientError);
    assert!(f.message.contains("cheap"), "got: {:?}", f);
}

#[test]
fn codec_falls_back_without_ffprobe() {
    assert_eq!(choose_codec("h265", false), "h264");
    assert_eq!(choose_codec("h265", true), "h265");
    assert_eq!(choose_codec("h264", false), "h264");
}

#[test]
fn image_inputs_are_classified() {
    assert!(matches!(process_image_input("ssupload:?id=1"), ImageInput::Uploaded(s) if s == "ssupload:?id=1"));
    assert!(matches!(process_image_input("https://x/y.png"), ImageInput::Remote(s) if s == "https://x/y.png"));
    assert!(matches!(process_image_input("http://x/y.png"), ImageInput::Remote(_)));
    assert!(matches!(process_image_input("./cat.jpg"), ImageInput::Local(s) if s == "./cat.jpg"));
}

#[test]
fn an_upload_reference_fed_back_is_kept() {
    let first = match process_image_input("ssupload:?id=fake") {
        ImageInput::Uploaded(s) => s,
        other => panic!("expected an upload reference, got {:?}", other),
    };
    assert_eq!(first, "ssupload:?id=fake");
    assert!(matches!(process_image_input(&first), ImageInput::Uploaded(s) if s == first));
    let made = vidu_cli::responses::upload_uri("u-42");
    assert!(matches!(process_image_input(&made), ImageInput::Uploaded(s) if s == "ssupload:?id=u-42"));
}

#[test]
fn submission_prompts_come_in_order_and_settings_are_kept() {
    let req = SubmitRequest {
        task_type: "character2video".to_string(),
        prompt: "walk".to_string(),
        images: strings(&["ssupload:?id=1"]),
        materials: strings(&["hero:e1:2"]),
        audios: strings(&["ssupload:?id=a"]),
        videos: strings(&["ssupload:?id=v"]),
        duration: -1,
        model_version: "3.2_a".to_string(),
        aspect_ratio: Some("16:9".to_string()),
        transition: None,
        resolution: "1080p".to_string(),
        sample_count: 2,
        codec: "h264".to_string(),
        movement_amplitude: "large".to_string(),
        schedule_mode: "normal".to_string(),
    };
    let s = build_submission(&req).unwrap();
    assert_eq!(s.prompts.len(), 5);
    assert!(matches!(&s.prompts[0], Prompt::Text(c) if c == "walk"));
    assert!(matches!(&s.prompts[1], Prompt::Image(c) if c == "ssupload:?id=1"));
    assert!(matches!(&s.prompts[2], Prompt::Material { name, id, version }
        if name == "hero" && id == "e1" && version == "2"));
    assert!(matches!(&s.prompts[3], Prompt::Audio(c) if c == "ssupload:?id=a"));
    assert!(matches!(&s.prompts[4], Prompt::Video(c) if c == "ssupload:?id=v"));
    assert_eq!(s.movement_amplitude, Some("large".to_string()));
    assert_eq!(s.sample_count, 2);
    assert_eq!(check_submission(&s), "");
}

#[test]
fn malformed_material_is_rejected() {
    let mut a = submit("reference2image", 0, "3.1", "1080p");
    a.materials = vec!["hero:e1"];
    let f = run_submit(&a);
    assert_eq!(f.message, "Invalid material format 'hero:e1'. Expected 'name:id:version'");
}

#[test]
fn auto_movement_amplitude_is_not_sent() {
    let req = SubmitRequest {
        task_type: "text2video".to_string(),
        prompt: "p".to_string(),
        images: vec![],
        materials: vec![],
        audios: vec![],
        videos: vec![],
        duration: 5,
        model_version: "3.2".to_string(),
        aspect_ratio: None,
        transition: None,
        resolution: "1080p".to_string(),
        sample_count: 1,
        codec: "h265".to_string(),
        movement_amplitude: "auto".to_string(),
        schedule_mode: "normal".to_string(),
    };
    assert_eq!(build_submission(&req).unwrap().movement_amplitude, None);
}

#[test]
fn submission_exact_validation_messages() {
    let mut a = submit("text2video", 99, "3.1", "1080p");
    assert_eq!(
        run_submit(&a).message,
        "duration 99 out of range [2, 8] for text2video with 3.1"
    );
    a.duration = 3;
    a.model_version = "3.2_a";
    assert_eq!(
        run_submit(&a).message,
        "duration 3 invalid for 3.2_a (use -1 for automatic duration)"
    );
    let a = submit("bad_type", 5, "3.2", "1080p");
    assert_eq!(
        run_submit(&a).message,
        "Invalid type 'bad_type'. Valid: character2video, headtailimg2video, img2video, reference2image, text2image, text2video"
    );
    let a = submit("text2video", 5, "3.2", "8k");
    assert_eq!(run_submit(&a).message, "Invalid resolution '8k' for text2video. Valid: 1080p");
    let mut a = submit("text2video", 5, "3.2", "1080p");
    a.aspect_ratio = Some("2:1");
    assert_eq!(
        run_submit(&a).message,
        "Invalid aspect_ratio '2:1'. Valid: 16:9, 1:1, 3:4, 4:3, 9:16"
    );
    let a = submit("text2image", 0, "3.0", "1080p");
    assert_eq!(run_submit(&a).message, "model_version 3.0 does not support text2image");
    let mut a = submit("img2video", 5, "3.0", "1080p");
    a.images = vec!["ssupload:?id=1"];
    a.transition = Some("pro");
    assert_eq!(
        run_submit(&a).message,
        "Invalid transition 'pro' for img2video 3.0. Valid: creative, stable"
    );
    let mut a = submit("text2video", 5, "3.1", "1080p");
    a.transition = Some("pro");
    assert_eq!(
        run_submit(&a).message,
        "text2video with 3.1 should not include transition (only 3.2 supports pro/speed)"
    );
    let mut a = submit("headtailimg2video", 5, "3.2", "1080p");
    a.images = vec!["ssupload:?id=1"];
    assert_eq!(run_submit(&a).message, "headtailimg2video requires exactly 2 images, got 1");
}
