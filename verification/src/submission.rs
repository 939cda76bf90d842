//! Forming a generation task from the command line: schedule mode, codec,
//! image, audio and video inputs, material references, and the request
//! that is checked and sent.
use vstd::prelude::*;
use crate::text::{self, owned, push_mib, push_u64, split_str, starts_with_str, str_eq};
use crate::failure::{self, Failure};
use crate::validators::{self, validate_audio_file, validate_schedule_mode};
use crate::paths::{self, lower_extension_of};
use crate::catalog::valid_task_types;
use crate::responses;
use crate::task_body::{self, count_message, settings_message, JsonField, TaskBody, TaskSettings};

verus! {

/// The schedule mode for a request: the one given on the command line after
/// it is checked, else `claw_pass` when the account holds a claw pass
/// (`has_pass`, which is consulted only then) and `normal` otherwise.
pub fn resolve_schedule_mode(explicit: Option<&str>, has_pass: bool) -> (r: Result<
    String,
    Failure,
>)
    ensures
        match explicit {
            Some(m) => match r {
                Ok(s) => validators::schedule_mode_error(m@).len() == 0 && s@ == m@,
                Err(f) => failure::is_client(f) && validators::schedule_mode_error(m@).len() > 0
                    && f.message@ == validators::schedule_mode_error(m@),
            },
            None => match r {
                Ok(s) => s@ == (if has_pass {
                    "claw_pass"@
                } else {
                    "normal"@
                }),
                Err(_) => false,
            },
        },
{
    match explicit {
        Some(m) => {
            let err = validate_schedule_mode(m);
            if !err.as_str().is_empty() {
                return Err(Failure::client(err));
            }
            let mut s = String::new();
            s.append(m);
            assert(s@ =~= m@);
            Ok(s)
        },
        None => {
            let mut s = String::new();
            if has_pass {
                s.append("claw_pass");
            } else {
                s.append("normal");
            }
            assert(s@ =~= (if has_pass {
                "claw_pass"@
            } else {
                "normal"@
            }));
            Ok(s)
        },
    }
}

/// The codec to request: `h265` falls back to `h264` when ffprobe is not
/// available; any other codec is kept.
pub open spec fn codec_for(codec: Seq<char>, ffprobe_available: bool) -> Seq<char> {
    if codec == "h265"@ && !ffprobe_available {
        "h264"@
    } else {
        codec
    }
}

pub fn choose_codec<'a>(codec: &'a str, ffprobe_available: bool) -> (r: &'a str)
    ensures
        r@ == codec_for(codec@, ffprobe_available),
{
    if str_eq(codec, "h265") && !ffprobe_available {
        "h264"
    } else {
        codec
    }
}

/// How an `--image` value is turned into an upload reference.
#[derive(Debug)]
pub enum ImageInput {
    /// Already an upload reference (`ssupload:...`): used as it is.
    Uploaded(String),
    /// An HTTP or HTTPS URL: downloaded, then uploaded.
    Remote(String),
    /// Anything else: a local file to upload.
    Local(String),
}

pub open spec fn is_http_url(s: Seq<char>) -> bool {
    text::starts_with(s, "http://"@) || text::starts_with(s, "https://"@)
}

pub open spec fn is_upload_ref(s: Seq<char>) -> bool {
    text::starts_with(s, "ssupload:"@)
}

pub fn is_http_url_str(s: &str) -> (b: bool)
    ensures
        b == is_http_url(s@),
{
    starts_with_str(s, "http://") || starts_with_str(s, "https://")
}

pub fn is_upload_ref_str(s: &str) -> (b: bool)
    ensures
        b == is_upload_ref(s@),
{
    starts_with_str(s, "ssupload:")
}

/// Classifies an `--image` value: an upload reference is kept, an HTTP(S)
/// URL is downloaded and uploaded, anything else is a local file to upload.
pub fn process_image_input(input: &str) -> (r: ImageInput)
    ensures
        match r {
            ImageInput::Uploaded(s) => is_upload_ref(input@) && s@ == input@,
            ImageInput::Remote(s) => !is_upload_ref(input@) && is_http_url(input@) && s@
                == input@,
            ImageInput::Local(s) => !is_upload_ref(input@) && !is_http_url(input@) && s@
                == input@,
        },
{
    if is_upload_ref_str(input) {
        ImageInput::Uploaded(owned(input))
    } else if is_http_url_str(input) {
        ImageInput::Remote(owned(input))
    } else {
        ImageInput::Local(owned(input))
    }
}

/// The upload reference that an `--image` value ends as: the value itself
/// when it is one already, else the reference to the upload (`upload_id`)
/// that its file or download became.
pub open spec fn image_reference(input: Seq<char>, upload_id: Seq<char>) -> Seq<char> {
    if is_upload_ref(input) {
        input
    } else {
        responses::upload_uri_of(upload_id)
    }
}

/// Whatever an `--image` value was, the reference it ends as is an upload
/// reference, and handing that reference back in as an `--image` value
/// gives it again unchanged, whatever upload would have been made.
pub proof fn law_image_reference_is_kept(input: Seq<char>, upload_id: Seq<char>, other_id: Seq<char>)
    ensures
        is_upload_ref(image_reference(input, upload_id)),
        image_reference(image_reference(input, upload_id), other_id) == image_reference(
            input,
            upload_id,
        ),
{
    let p = "ssupload:"@;
    let q = "ssupload:?id="@;
    reveal_strlit("ssupload:");
    reveal_strlit("ssupload:?id=");
    if !is_upload_ref(input) {
        let r = q + upload_id;
        assert(r.take(p.len() as int) =~= p);
    }
}

/// The failure for a local image path that does not exist, if it does not.
pub fn upload_local_file(path: &str, exists: bool) -> (r: Option<Failure>)
    ensures
        match r {
            Some(f) => !exists && failure::is_client_failure(f, "Image file not found: "@ + path@),
            None => exists,
        },
{
    if !exists {
        let mut m = String::new();
        m.append("Image file not found: ");
        m.append(path);
        return Some(Failure::client(m));
    }
    None
}

/// The failure for a local media path that does not exist, if it does not.
pub fn upload_media_file(path: &str, exists: bool) -> (r: Option<Failure>)
    ensures
        match r {
            Some(f) => !exists && failure::is_client_failure(f, "File not found: "@ + path@),
            None => exists,
        },
{
    if !exists {
        let mut m = String::new();
        m.append("File not found: ");
        m.append(path);
        return Some(Failure::client(m));
    }
    None
}

/// An `--audio` or `--video` value with what the file system says of it.
#[derive(Debug)]
pub struct MediaInput {
    pub value: String,
    /// Whether the value names a regular file.
    pub is_file: bool,
    /// The file's length in bytes (0 when unknown).
    pub size: u64,
}

/// Most audio or video references one task may carry.
pub open spec fn max_reference_media() -> nat {
    3
}

/// The message for a reference video file: MP4 or MOV of at most 500 MiB.
pub open spec fn reference_video_error(path: Seq<char>, is_file: bool, size: nat) -> Seq<char> {
    let ext = paths::lower_extension(path);
    if !is_file {
        "Video file not found: "@ + path
    } else if !(ext == "mp4"@ || ext == "mov"@) {
        "Invalid video format '"@ + ext + "'. Supported: mp4, mov"@
    } else if size > validators::max_video_bytes() {
        "Video file too large ("@ + text::mib_text(size) + "MB). Max: 500MB"@
    } else {
        Seq::empty()
    }
}

/// The message for one audio or video input, if it is rejected: URLs are
/// not accepted, upload references are, and local files must pass the
/// file checks.
pub open spec fn media_input_error(m: MediaInput, is_audio: bool) -> Option<Seq<char>> {
    if is_http_url(m.value@) {
        Some(
            "HTTP/HTTPS URLs are not supported for "@ + (if is_audio {
                "audio"@
            } else {
                "video"@
            }) + " input: "@ + m.value@,
        )
    } else if is_upload_ref(m.value@) {
        None
    } else {
        let e = if is_audio {
            validators::audio_file_error(m.value@, m.is_file, m.size as nat)
        } else {
            reference_video_error(m.value@, m.is_file, m.size as nat)
        };
        if e.len() > 0 {
            Some(e)
        } else {
            None
        }
    }
}

/// The message for the first rejected input at or after position `i`.
pub open spec fn first_media_error(ms: Seq<MediaInput>, is_audio: bool, i: int) -> Option<
    Seq<char>,
>
    decreases ms.len() - i,
{
    if i < 0 || i >= ms.len() {
        None
    } else if media_input_error(ms[i], is_audio) is Some {
        media_input_error(ms[i], is_audio)
    } else {
        first_media_error(ms, is_audio, i + 1)
    }
}

/// The message that rejects the audio and video inputs of a task, if any:
/// they are taken by character2video only, videos by model 3.2_a only, at
/// most three of each, and each must pass `media_input_error`.
pub open spec fn reference_media_error(
    t: Seq<char>,
    m: Seq<char>,
    audios: Seq<MediaInput>,
    videos: Seq<MediaInput>,
) -> Option<Seq<char>> {
    if audios.len() > 0 && t != "character2video"@ {
        Some("Audio input is only supported for character2video"@)
    } else if videos.len() > 0 && t != "character2video"@ {
        Some("Video input is only supported for character2video"@)
    } else if videos.len() > 0 && m != "3.2_a"@ {
        Some("Video input is only supported for character2video with model_version 3.2_a"@)
    } else if audios.len() > max_reference_media() {
        Some("Too many audio inputs ("@ + text::decimal(audios.len()) + "). Maximum: 3"@)
    } else if videos.len() > max_reference_media() {
        Some("Too many video inputs ("@ + text::decimal(videos.len()) + "). Maximum: 3"@)
    } else if first_media_error(audios, true, 0) is Some {
        first_media_error(audios, true, 0)
    } else {
        first_media_error(videos, false, 0)
    }
}

fn reference_video_message(path: &str, is_file: bool, size: u64) -> (r: String)
    ensures
        r@ == reference_video_error(path@, is_file, size as nat),
{
    if !is_file {
        let mut r = String::new();
        r.append("Video file not found: ");
        r.append(path);
        return r;
    }
    let ext = lower_extension_of(path);
    if !(str_eq(ext.as_str(), "mp4") || str_eq(ext.as_str(), "mov")) {
        let mut r = String::new();
        r.append("Invalid video format '");
        r.append(ext.as_str());
        r.append("'. Supported: mp4, mov");
        return r;
    }
    if size > 500 * 1024 * 1024 {
        let mut r = String::new();
        r.append("Video file too large (");
        push_mib(&mut r, size);
        r.append("MB). Max: 500MB");
        return r;
    }
    String::new()
}

fn media_input_message(m: &MediaInput, is_audio: bool) -> (r: Option<String>)
    ensures
        match r {
            Some(x) => media_input_error(*m, is_audio) == Some(x@),
            None => media_input_error(*m, is_audio) is None,
        },
{
    if is_http_url_str(m.value.as_str()) {
        let mut x = String::new();
        x.append("HTTP/HTTPS URLs are not supported for ");
        if is_audio {
            x.append("audio");
        } else {
            x.append("video");
        }
        x.append(" input: ");
        x.append(m.value.as_str());
        return Some(x);
    }
    if is_upload_ref_str(m.value.as_str()) {
        return None;
    }
    let e = if is_audio {
        validate_audio_file(m.value.as_str(), m.is_file, m.size)
    } else {
        reference_video_message(m.value.as_str(), m.is_file, m.size)
    };
    if e.as_str().is_empty() {
        None
    } else {
        Some(e)
    }
}

fn first_media_message(ms: &Vec<MediaInput>, is_audio: bool) -> (r: Option<String>)
    ensures
        match r {
            Some(x) => first_media_error(ms@, is_audio, 0) == Some(x@),
            None => first_media_error(ms@, is_audio, 0) is None,
        },
{
    let mut i: usize = 0;
    while i < ms.len()
        invariant
            i <= ms@.len(),
            first_media_error(ms@, is_audio, 0) == first_media_error(ms@, is_audio, i as int),
        decreases ms.len() - i,
    {
        let r = media_input_message(&ms[i], is_audio);
        if r.is_some() {
            return r;
        }
        i = i + 1;
    }
    None
}

/// Checks the audio and video inputs of a task before anything is uploaded.
pub fn check_reference_media(
    task_type: &str,
    model_version: &str,
    audios: &Vec<MediaInput>,
    videos: &Vec<MediaInput>,
) -> (r: Option<Failure>)
    ensures
        match r {
            Some(f) => failure::is_client(f) && reference_media_error(
                task_type@,
                model_version@,
                audios@,
                videos@,
            ) == Some(f.message@),
            None => reference_media_error(task_type@, model_version@, audios@, videos@) is None,
        },
{
    let c2v = str_eq(task_type, "character2video");
    if audios.len() > 0 && !c2v {
        return Some(Failure::client_str("Audio input is only supported for character2video"));
    }
    if videos.len() > 0 && !c2v {
        return Some(Failure::client_str("Video input is only supported for character2video"));
    }
    if videos.len() > 0 && !str_eq(model_version, "3.2_a") {
        return Some(
            Failure::client_str(
                "Video input is only supported for character2video with model_version 3.2_a",
            ),
        );
    }
    if audios.len() > 3 {
        let mut m = String::new();
        m.append("Too many audio inputs (");
        push_u64(&mut m, audios.len() as u64);
        m.append("). Maximum: 3");
        return Some(Failure::client(m));
    }
    if videos.len() > 3 {
        let mut m = String::new();
        m.append("Too many video inputs (");
        push_u64(&mut m, videos.len() as u64);
        m.append("). Maximum: 3");
        return Some(Failure::client(m));
    }
    match first_media_message(audios, true) {
        Some(m) => {
            return Some(Failure::client(m));
        },
        None => {},
    }
    match first_media_message(videos, false) {
        Some(m) => Some(Failure::client(m)),
        None => None,
    }
}

/// One prompt of a generation task.
#[derive(Debug)]
pub enum Prompt {
    Text(String),
    Image(String),
    Material { name: String, id: String, version: String },
    Audio(String),
    Video(String),
}

/// A prompt as text: its `type`, then its fields in order.
pub open spec fn prompt_view(p: Prompt) -> Seq<Seq<char>> {
    match p {
        Prompt::Text(c) => seq!["text"@, c@],
        Prompt::Image(c) => seq!["image"@, c@],
        Prompt::Material { name, id, version } => seq!["material"@, name@, id@, version@],
        Prompt::Audio(c) => seq!["audio"@, c@],
        Prompt::Video(c) => seq!["video"@, c@],
    }
}

pub open spec fn prompt_views(ps: Seq<Prompt>) -> Seq<Seq<Seq<char>>> {
    ps.map_values(|p: Prompt| prompt_view(p))
}

/// The command-line values of `task submit`, with images, audios and videos
/// already turned into upload references.
#[derive(Debug)]
pub struct SubmitRequest {
    pub task_type: String,
    pub prompt: String,
    pub images: Vec<String>,
    pub materials: Vec<String>,
    pub audios: Vec<String>,
    pub videos: Vec<String>,
    pub duration: i64,
    pub model_version: String,
    pub aspect_ratio: Option<String>,
    pub transition: Option<String>,
    pub resolution: String,
    pub sample_count: i64,
    pub codec: String,
    pub movement_amplitude: String,
    pub schedule_mode: String,
}

/// A generation task as it is sent (the JSON request body), with
/// `editor_mode` "normal" and `enhance` true.
#[derive(Debug)]
pub struct TaskSubmission {
    pub task_type: String,
    pub prompts: Vec<Prompt>,
    pub duration: i64,
    pub model_version: String,
    pub sample_count: i64,
    pub schedule_mode: String,
    pub codec: String,
    pub resolution: String,
    pub aspect_ratio: Option<String>,
    pub transition: Option<String>,
    /// Sent only when it is not `auto`.
    pub movement_amplitude: Option<String>,
}

/// The prompts of a task: the text, each image, each material reference
/// (`name:id:version`), each audio and each video, in that order.
pub open spec fn expected_prompts(r: SubmitRequest) -> Seq<Seq<Seq<char>>> {
    seq![seq!["text"@, r.prompt@]] + r.images@.map_values(|u: String| seq!["image"@, u@])
        + r.materials@.map_values(|m: String| seq!["material"@] + text::split_on(m@, ':'))
        + r.audios@.map_values(|u: String| seq!["audio"@, u@]) + r.videos@.map_values(
        |u: String| seq!["video"@, u@],
    )
}

/// The message for the first material reference that is not `name:id:version`.
pub open spec fn material_error(ms: Seq<String>, i: int) -> Option<Seq<char>>
    decreases ms.len() - i,
{
    if i < 0 || i >= ms.len() {
        None
    } else if text::split_on(ms[i]@, ':').len() != 3 {
        Some("Invalid material format '"@ + ms[i]@ + "'. Expected 'name:id:version'"@)
    } else {
        material_error(ms, i + 1)
    }
}

pub open spec fn opt_string_view(o: Option<String>) -> Option<Seq<char>> {
    match o {
        Some(s) => Some(s@),
        None => None,
    }
}

fn push_tagged(ps: &mut Vec<Prompt>, items: &Vec<String>, kind: u8, Ghost(tag): Ghost<Seq<char>>)
    requires
        kind <= 2,
        tag == (if kind == 0 {
            "image"@
        } else if kind == 1 {
            "audio"@
        } else {
            "video"@
        }),
    ensures
        prompt_views(final(ps)@) == prompt_views(old(ps)@) + items@.map_values(
            |u: String| seq![tag, u@],
        ),
{
    let ghost start = prompt_views(ps@);
    let mut i: usize = 0;
    while i < items.len()
        invariant
            i <= items@.len(),
            kind <= 2,
            tag == (if kind == 0 {
                "image"@
            } else if kind == 1 {
                "audio"@
            } else {
                "video"@
            }),
            prompt_views(ps@) == start + items@.take(i as int).map_values(
                |u: String| seq![tag, u@],
            ),
        decreases items.len() - i,
    {
        let u = items[i].clone();
        let p = if kind == 0 {
            Prompt::Image(u)
        } else if kind == 1 {
            Prompt::Audio(u)
        } else {
            Prompt::Video(u)
        };
        let ghost before = ps@;
        ps.push(p);
        assert(prompt_views(ps@) =~= prompt_views(before).push(seq![tag, items@[i as int]@]));
        assert(items@.take(i + 1).map_values(|u: String| seq![tag, u@]) =~= items@.take(
            i as int,
        ).map_values(|u: String| seq![tag, u@]).push(seq![tag, items@[i as int]@]));
        i = i + 1;
    }
    assert(items@.take(items@.len() as int) =~= items@);
}

/// Forms the task to send from the command-line values: the prompts in
/// order, the settings as given, and `movement_amplitude` only when it is
/// not `auto`. Fails on the first material reference that does not have
/// exactly three `:`-separated parts.
pub fn build_submission(r: &SubmitRequest) -> (res: Result<TaskSubmission, Failure>)
    ensures
        match res {
            Ok(s) => {
                &&& material_error(r.materials@, 0) is None
                &&& prompt_views(s.prompts@) == expected_prompts(*r)
                &&& s.task_type@ == r.task_type@
                &&& s.duration == r.duration
                &&& s.model_version@ == r.model_version@
                &&& s.sample_count == r.sample_count
                &&& s.schedule_mode@ == r.schedule_mode@
                &&& s.codec@ == r.codec@
                &&& s.resolution@ == r.resolution@
                &&& opt_string_view(s.aspect_ratio) == opt_string_view(r.aspect_ratio)
                &&& opt_string_view(s.transition) == opt_string_view(r.transition)
                &&& opt_string_view(s.movement_amplitude) == (if r.movement_amplitude@
                    == "auto"@ {
                    None
                } else {
                    Some(r.movement_amplitude@)
                })
            },
            Err(f) => failure::is_client(f) && material_error(r.materials@, 0) == Some(
                f.message@,
            ),
        },
{
    let mut prompts: Vec<Prompt> = Vec::new();
    prompts.push(Prompt::Text(r.prompt.clone()));
    assert(prompt_views(prompts@) =~= seq![seq!["text"@, r.prompt@]]);
    push_tagged(&mut prompts, &r.images, 0, Ghost("image"@));
    let ghost after_images = prompt_views(prompts@);
    let mut i: usize = 0;
    while i < r.materials.len()
        invariant
            i <= r.materials@.len(),
            material_error(r.materials@, 0) == material_error(r.materials@, i as int),
            prompt_views(prompts@) == after_images + r.materials@.take(i as int).map_values(
                |m: String| seq!["material"@] + text::split_on(m@, ':'),
            ),
        decreases r.materials.len() - i,
    {
        let mat = r.materials[i].as_str();
        let parts = split_str(mat, ':');
        if parts.len() != 3 {
            let mut m = String::new();
            m.append("Invalid material format '");
            m.append(mat);
            m.append("'. Expected 'name:id:version'");
            return Err(Failure::client(m));
        }
        let ghost before = prompts@;
        proof {
            let sp = text::split_on(r.materials@[i as int]@, ':');
            assert(sp == text::string_views(parts@));
            assert(sp[0] == parts@[0]@);
            assert(sp[1] == parts@[1]@);
            assert(sp[2] == parts@[2]@);
            assert(seq!["material"@] + sp =~= seq!["material"@, parts@[0]@, parts@[1]@, parts@[2]@]);
        }
        prompts.push(
            Prompt::Material {
                name: parts[0].clone(),
                id: parts[1].clone(),
                version: parts[2].clone(),
            },
        );
        assert(prompt_views(prompts@) =~= prompt_views(before).push(
            seq!["material"@] + text::split_on(r.materials@[i as int]@, ':'),
        ));
        assert(r.materials@.take(i + 1).map_values(
            |m: String| seq!["material"@] + text::split_on(m@, ':'),
        ) =~= r.materials@.take(i as int).map_values(
            |m: String| seq!["material"@] + text::split_on(m@, ':'),
        ).push(seq!["material"@] + text::split_on(r.materials@[i as int]@, ':')));
        i = i + 1;
    }
    assert(r.materials@.take(r.materials@.len() as int) =~= r.materials@);
    push_tagged(&mut prompts, &r.audios, 1, Ghost("audio"@));
    push_tagged(&mut prompts, &r.videos, 2, Ghost("video"@));
    assert(prompt_views(prompts@) =~= expected_prompts(*r));
    let amplitude = if str_eq(r.movement_amplitude.as_str(), "auto") {
        None
    } else {
        Some(r.movement_amplitude.clone())
    };
    Ok(
        TaskSubmission {
            task_type: r.task_type.clone(),
            prompts,
            duration: r.duration,
            model_version: r.model_version.clone(),
            sample_count: r.sample_count,
            schedule_mode: r.schedule_mode.clone(),
            codec: r.codec.clone(),
            resolution: r.resolution.clone(),
            aspect_ratio: r.aspect_ratio.clone(),
            transition: r.transition.clone(),
            movement_amplitude: amplitude,
        },
    )
}

/// How many prompts of a task are of the given kind.
pub open spec fn count_kind(ps: Seq<Prompt>, kind: Seq<char>) -> nat
    decreases ps.len(),
{
    if ps.len() == 0 {
        0
    } else {
        count_kind(ps.drop_last(), kind) + (if prompt_view(ps.last())[0] == kind {
            1nat
        } else {
            0nat
        })
    }
}

pub open spec fn opt_field(o: Option<String>) -> JsonField {
    match o {
        Some(s) => JsonField::Text(s),
        None => JsonField::Absent,
    }
}

/// The settings of a task as the validator reads them.
pub open spec fn submission_settings(s: TaskSubmission) -> TaskSettings {
    TaskSettings {
        model_version: JsonField::Text(s.model_version),
        duration: Some(s.duration),
        resolution: JsonField::Text(s.resolution),
        aspect_ratio: opt_field(s.aspect_ratio),
        transition: opt_field(s.transition),
    }
}

/// The message that rejects a task as it would be sent, or the empty text:
/// `validate_task_body` on its JSON body.
pub open spec fn submission_error(s: TaskSubmission) -> Seq<char> {
    task_body::task_error(
        s.task_type@,
        Some(
            (
                Some(
                    (
                        s.prompts@.len(),
                        count_kind(s.prompts@, "image"@),
                        count_kind(s.prompts@, "material"@),
                    ),
                ),
                true,
            ),
        ),
        Some(submission_settings(s)),
    )
}

/// The `type` fields of the prompts of a JSON body, one per prompt, as
/// the prompts of a task are written out.
pub open spec fn prompt_type_fields(ps: Seq<Prompt>, fs: Seq<JsonField>) -> bool {
    &&& fs.len() == ps.len()
    &&& forall|j: int|
        0 <= j < fs.len() ==> #[trigger] fs[j] is Text && fs[j].text_or(Seq::empty())
            == prompt_view(ps[j])[0]
}

proof fn lemma_counts_agree(ps: Seq<Prompt>, fs: Seq<JsonField>, k: Seq<char>)
    requires
        prompt_type_fields(ps, fs),
    ensures
        count_kind(ps, k) == task_body::count_typed(fs, k),
    decreases ps.len(),
{
    if ps.len() > 0 {
        assert(fs.last() == fs[fs.len() - 1]);
        assert(prompt_type_fields(ps.drop_last(), fs.drop_last())) by {
            assert forall|j: int| 0 <= j < fs.drop_last().len() implies #[trigger] fs.drop_last()[j] is Text
                && fs.drop_last()[j].text_or(Seq::empty()) == prompt_view(ps.drop_last()[j])[0] by {
                assert(fs.drop_last()[j] == fs[j]);
                assert(ps.drop_last()[j] == ps[j]);
            }
        }
        lemma_counts_agree(ps.drop_last(), fs.drop_last(), k);
    }
}

/// A task is checked before it is sent exactly as `validate_task_body`
/// checks the JSON body that carries it: same type, one prompt per prompt
/// with its kind as `type`, `enhance` present, and the same settings.
pub proof fn law_submission_checked_as_sent(s: TaskSubmission, b: TaskBody)
    requires
        b.task_type is Text,
        b.task_type.text_or(Seq::empty()) == s.task_type@,
        b.input matches Some(i) && i.has_enhance && (i.prompts matches Some(fs)
            && prompt_type_fields(s.prompts@, fs@)),
        b.settings == Some(submission_settings(s)),
    ensures
        submission_error(s) == task_body::task_body_error(b),
{
    let i = b.input->0;
    let fs = i.prompts->0;
    lemma_counts_agree(s.prompts@, fs@, "image"@);
    lemma_counts_agree(s.prompts@, fs@, "material"@);
}

proof fn lemma_kinds_distinct()
    ensures
        "text"@ != "image"@,
        "text"@ != "material"@,
        "audio"@ != "image"@,
        "audio"@ != "material"@,
        "video"@ != "image"@,
        "video"@ != "material"@,
        "image"@ != "material"@,
{
    reveal_strlit("image");
    reveal_strlit("material");
    reveal_strlit("text");
    reveal_strlit("audio");
    reveal_strlit("video");
    assert("text"@[0] != "image"@[0]);
    assert("audio"@[0] != "image"@[0]);
    assert("video"@[0] != "image"@[0]);
    assert("text"@[0] != "material"@[0]);
    assert("audio"@[0] != "material"@[0]);
    assert("video"@[0] != "material"@[0]);
    assert("image"@[0] != "material"@[0]);
}

fn count_kind_exec(ps: &Vec<Prompt>, images: bool) -> (n: usize)
    ensures
        n == count_kind(
            ps@,
            if images {
                "image"@
            } else {
                "material"@
            },
        ),
{
    let ghost kind = if images {
        "image"@
    } else {
        "material"@
    };
    let mut n: usize = 0;
    let mut i: usize = 0;
    while i < ps.len()
        invariant
            i <= ps@.len(),
            n <= i,
            kind == (if images {
                "image"@
            } else {
                "material"@
            }),
            n == count_kind(ps@.take(i as int), kind),
        decreases ps.len() - i,
    {
        proof {
            lemma_kinds_distinct();
            assert(ps@.take(i + 1).drop_last() =~= ps@.take(i as int));
            assert(ps@.take(i + 1).last() == ps@[i as int]);
        }
        let hit = match &ps[i] {
            Prompt::Image(_) => images,
            Prompt::Material { .. } => !images,
            _ => false,
        };
        assert(hit == (prompt_view(ps@[i as int])[0] == kind));
        if hit {
            n = n + 1;
        }
        i = i + 1;
    }
    assert(ps@.take(ps@.len() as int) =~= ps@);
    n
}

fn opt_field_exec(o: &Option<String>) -> (f: JsonField)
    ensures
        f == opt_field(*o),
{
    match o {
        Some(s) => JsonField::Text(s.clone()),
        None => JsonField::Absent,
    }
}

/// Checks a task as it would be sent; the empty string when it passes.
pub fn check_submission(s: &TaskSubmission) -> (r: String)
    ensures
        r@ == submission_error(*s),
{
    let t = s.task_type.as_str();
    if t.is_empty() {
        return owned("Missing required field: type");
    }
    let types = valid_task_types();
    if !text::contains_str(&types, t) {
        let mut x = String::new();
        x.append("Invalid type '");
        x.append(t);
        x.append("'. Valid: ");
        text::append_joined(&mut x, &types, ", ");
        return x;
    }
    if s.prompts.len() == 0 {
        return owned("input.prompts is required and must not be empty");
    }
    let ic = count_kind_exec(&s.prompts, true);
    let mc = count_kind_exec(&s.prompts, false);
    match count_message(t, ic, mc) {
        Some(x) => {
            return x;
        },
        None => {},
    }
    let settings = TaskSettings {
        model_version: JsonField::Text(s.model_version.clone()),
        duration: Some(s.duration),
        resolution: JsonField::Text(s.resolution.clone()),
        aspect_ratio: opt_field_exec(&s.aspect_ratio),
        transition: opt_field_exec(&s.transition),
    };
    assert(settings == submission_settings(*s));
    match settings_message(t, &settings) {
        Some(x) => x,
        None => String::new(),
    }
}

} // verus!
