//! Video composition from a timeline: reading the `--timeline` argument,
//! the track and clip rules, how media URLs are resolved, and the limits on
//! local media.
use vstd::prelude::*;
use crate::text::{self, contains_char, ends_with_str, push_mib, push_u64, starts_with_str, str_eq};
use crate::failure::{self, Failure, FailureKind};
use crate::paths::{self, extension_of, lower_extension_of};
use crate::submission::{self, is_http_url_str, is_upload_ref_str};
use crate::task_body::JsonField;
use crate::string_map::StringMap;

verus! {

/// Whether `--timeline` names a file rather than holding JSON: it ends in
/// `.json`, holds a slash or backslash, or has an extension and does not
/// begin with `{`.
pub open spec fn timeline_is_path(input: Seq<char>) -> bool {
    ||| text::ends_with(input, ".json"@)
    ||| input.contains('/')
    ||| input.contains('\\')
    ||| (paths::path_extension(input) is Some && !text::starts_with(input, "{"@))
}

/// Whether `--timeline` names a file rather than holding JSON.
pub fn looks_like_timeline_path(input: &str) -> (b: bool)
    ensures
        b == timeline_is_path(input@),
{
    ends_with_str(input, ".json") || contains_char(input, '/') || contains_char(input, '\\') || (
    extension_of(input).is_some() && !starts_with_str(input, "{"))
}

/// How many tracks of each kind a timeline holds.
#[derive(Debug)]
pub struct TrackCounts {
    pub video: usize,
    pub audio: usize,
    pub subtitle: usize,
    pub effect: usize,
}

/// Most tracks of one kind.
pub open spec fn max_tracks() -> nat {
    100
}

/// The message for a track kind with too many tracks.
pub open spec fn track_limit_message(label: Seq<char>, n: nat) -> Seq<char> {
    label + " track count ("@ + text::decimal(n) + ") exceeds maximum of 100."@
}

/// The message for the first track kind (video, audio, subtitle, effect)
/// with more than 100 tracks.
pub open spec fn track_limit_error(c: TrackCounts) -> Option<Seq<char>> {
    if c.video > max_tracks() {
        Some(track_limit_message("Video"@, c.video as nat))
    } else if c.audio > max_tracks() {
        Some(track_limit_message("Audio"@, c.audio as nat))
    } else if c.subtitle > max_tracks() {
        Some(track_limit_message("Subtitle"@, c.subtitle as nat))
    } else if c.effect > max_tracks() {
        Some(track_limit_message("Effect"@, c.effect as nat))
    } else {
        None
    }
}

fn track_limit_failure(label: &str, n: usize) -> (f: Failure)
    ensures
        failure::is_client_failure(f, track_limit_message(label@, n as nat)),
{
    let mut m = String::new();
    m.append(label);
    m.append(" track count (");
    push_u64(&mut m, n as u64);
    m.append(") exceeds maximum of 100.");
    Failure::client(m)
}

/// Checks the number of tracks of each kind.
pub fn validate_track_limits(c: &TrackCounts) -> (r: Option<Failure>)
    ensures
        match r {
            Some(f) => failure::is_client(f) && track_limit_error(*c) == Some(f.message@),
            None => track_limit_error(*c) is None,
        },
{
    if c.video > 100 {
        Some(track_limit_failure("Video", c.video))
    } else if c.audio > 100 {
        Some(track_limit_failure("Audio", c.audio))
    } else if c.subtitle > 100 {
        Some(track_limit_failure("Subtitle", c.subtitle))
    } else if c.effect > 100 {
        Some(track_limit_failure("Effect", c.effect))
    } else {
        None
    }
}

/// Where a clip sits in the timeline and whether its timing fields hold a
/// value (present and not null).
#[derive(Debug)]
pub struct ClipTiming {
    pub track_key: String,
    pub clip_key: String,
    pub track_index: usize,
    pub clip_index: usize,
    pub has_timeline_in: bool,
    pub has_timeline_out: bool,
}

/// `tracks[i].clips[j]: ` for a clip.
pub open spec fn clip_location(c: ClipTiming) -> Seq<char> {
    c.track_key@ + "["@ + text::decimal(c.track_index as nat) + "]."@ + c.clip_key@ + "["@
        + text::decimal(c.clip_index as nat) + "]: "@
}

/// The message for a clip without `timeline_in` or `timeline_out`.
pub open spec fn clip_timing_error(c: ClipTiming) -> Option<Seq<char>> {
    if !c.has_timeline_in {
        Some(clip_location(c) + "missing required field 'timeline_in'"@)
    } else if !c.has_timeline_out {
        Some(clip_location(c) + "missing required field 'timeline_out'"@)
    } else {
        None
    }
}

/// The message for the first clip at or after position `i` that lacks timing.
pub open spec fn first_clip_error(cs: Seq<ClipTiming>, i: int) -> Option<Seq<char>>
    decreases cs.len() - i,
{
    if i < 0 || i >= cs.len() {
        None
    } else if clip_timing_error(cs[i]) is Some {
        clip_timing_error(cs[i])
    } else {
        first_clip_error(cs, i + 1)
    }
}

fn clip_message(c: &ClipTiming) -> (r: Option<String>)
    ensures
        match r {
            Some(m) => clip_timing_error(*c) == Some(m@),
            None => clip_timing_error(*c) is None,
        },
{
    if c.has_timeline_in && c.has_timeline_out {
        return None;
    }
    let mut m = String::new();
    m.append(c.track_key.as_str());
    m.append("[");
    push_u64(&mut m, c.track_index as u64);
    m.append("].");
    m.append(c.clip_key.as_str());
    m.append("[");
    push_u64(&mut m, c.clip_index as u64);
    m.append("]: ");
    if !c.has_timeline_in {
        m.append("missing required field 'timeline_in'");
    } else {
        m.append("missing required field 'timeline_out'");
    }
    Some(m)
}

/// Checks that every media clip of a timeline carries its timing, in
/// timeline order.
pub fn validate_clip_timing(clips: &Vec<ClipTiming>) -> (r: Option<Failure>)
    ensures
        match r {
            Some(f) => failure::is_client(f) && first_clip_error(clips@, 0) == Some(f.message@),
            None => first_clip_error(clips@, 0) is None,
        },
{
    let mut i: usize = 0;
    while i < clips.len()
        invariant
            i <= clips@.len(),
            first_clip_error(clips@, 0) == first_clip_error(clips@, i as int),
        decreases clips.len() - i,
    {
        match clip_message(&clips[i]) {
            Some(m) => {
                return Some(Failure::client(m));
            },
            None => {},
        }
        i = i + 1;
    }
    None
}

/// What becomes of a media or subtitle URL in a timeline.
#[derive(Debug)]
pub enum UrlAction {
    /// An upload reference or HTTP(S) URL: kept as it is.
    Keep,
    /// An existing local file: uploaded, and its reference used.
    Upload,
    /// Anything else: the composition fails.
    Fail(Failure),
}

/// The message for a URL that cannot be resolved; `field` is `media_url` or
/// `file_url`.
pub open spec fn unresolved_url_message(field: Seq<char>, url: Seq<char>) -> Seq<char> {
    "Cannot resolve "@ + field + ": '"@ + url
        + "'. Expected ssupload:?id=, URL, or local file path."@
}

/// Resolves a `media_url` (`is_media`) or `file_url` of a clip; `exists`
/// tells whether it names an existing local path.
fn resolve_url(url: &str, exists: bool, is_media: bool) -> (r: UrlAction)
    ensures
        match r {
            UrlAction::Keep => submission::is_upload_ref(url@) || submission::is_http_url(url@),
            UrlAction::Upload => !submission::is_upload_ref(url@) && !submission::is_http_url(
                url@,
            ) && exists,
            UrlAction::Fail(f) => !submission::is_upload_ref(url@) && !submission::is_http_url(
                url@,
            ) && !exists && failure::is_client_failure(
                f,
                unresolved_url_message(
                    if is_media {
                        "media_url"@
                    } else {
                        "file_url"@
                    },
                    url@,
                ),
            ),
        },
{
    if is_upload_ref_str(url) || is_http_url_str(url) {
        return UrlAction::Keep;
    }
    if exists {
        return UrlAction::Upload;
    }
    let mut m = String::new();
    m.append("Cannot resolve ");
    if is_media {
        m.append("media_url");
    } else {
        m.append("file_url");
    }
    m.append(": '");
    m.append(url);
    m.append("'. Expected ssupload:?id=, URL, or local file path.");
    UrlAction::Fail(Failure::client(m))
}

/// Resolves a clip's `media_url`: kept, uploaded as composition media, or
/// refused.
pub fn normalize_media_url(url: &str, exists: bool) -> (r: UrlAction)
    ensures
        match r {
            UrlAction::Keep => submission::is_upload_ref(url@) || submission::is_http_url(url@),
            UrlAction::Upload => !submission::is_upload_ref(url@) && !submission::is_http_url(
                url@,
            ) && exists,
            UrlAction::Fail(f) => !submission::is_upload_ref(url@) && !submission::is_http_url(
                url@,
            ) && !exists && failure::is_client_failure(
                f,
                unresolved_url_message("media_url"@, url@),
            ),
        },
{
    resolve_url(url, exists, true)
}

/// Resolves a subtitle clip's `file_url`: kept, uploaded as a subtitle, or
/// refused.
pub fn normalize_file_url(url: &str, exists: bool) -> (r: UrlAction)
    ensures
        match r {
            UrlAction::Keep => submission::is_upload_ref(url@) || submission::is_http_url(url@),
            UrlAction::Upload => !submission::is_upload_ref(url@) && !submission::is_http_url(
                url@,
            ) && exists,
            UrlAction::Fail(f) => !submission::is_upload_ref(url@) && !submission::is_http_url(
                url@,
            ) && !exists && failure::is_client_failure(
                f,
                unresolved_url_message("file_url"@, url@),
            ),
        },
{
    resolve_url(url, exists, false)
}

/// The key under which a clip carries its resolved media reference: an
/// upload reference goes under `media_id`, anything else stays under
/// `media_url`.
pub open spec fn media_key_for(resolved: Seq<char>) -> Seq<char> {
    if submission::is_upload_ref(resolved) {
        "media_id"@
    } else {
        "media_url"@
    }
}

/// The key under which a clip carries its resolved media reference.
pub fn media_url_key(resolved: &str) -> (r: &'static str)
    ensures
        r@ == media_key_for(resolved@),
{
    if is_upload_ref_str(resolved) {
        "media_id"
    } else {
        "media_url"
    }
}

/// The failure for a subtitle file that does not exist, if it does not.
pub fn upload_local_subtitle(path: &str, exists: bool) -> (r: Option<Failure>)
    ensures
        match r {
            Some(f) => !exists && failure::is_client_failure(f, "Subtitle file not found: "@ + path@),
            None => exists,
        },
{
    if !exists {
        let mut m = String::new();
        m.append("Subtitle file not found: ");
        m.append(path);
        return Some(Failure::client(m));
    }
    None
}

/// The failure for a clip's media file that does not exist, if it does not.
pub fn upload_local_media(path: &str, exists: bool) -> (r: Option<Failure>)
    ensures
        match r {
            Some(f) => !exists && failure::is_client_failure(f, "Media file not found: "@ + path@),
            None => exists,
        },
{
    if !exists {
        let mut m = String::new();
        m.append("Media file not found: ");
        m.append(path);
        return Some(Failure::client(m));
    }
    None
}

/// The upload metadata of a composition's media: its width and height in
/// decimal under `image-width` and `image-height`, when they are known.
pub open spec fn compose_metadata_of(dims: Option<(u32, u32)>) -> Option<Map<Seq<char>, Seq<char>>> {
    match dims {
        Some((w, h)) => Some(
            map![
                "image-width"@ => text::decimal(w as nat),
                "image-height"@ => text::decimal(h as nat),
            ],
        ),
        None => None,
    }
}

/// The upload metadata of a composition's media.
pub fn upload_compose_media(dims: Option<(u32, u32)>) -> (r: Option<StringMap>)
    ensures
        match r {
            Some(m) => m.wf() && compose_metadata_of(dims) == Some(m@),
            None => dims is None,
        },
{
    match dims {
        Some((w, h)) => {
            let mut m = StringMap::new();
            let mut ws = String::new();
            push_u64(&mut ws, w as u64);
            let mut hs = String::new();
            push_u64(&mut hs, h as u64);
            m.insert(text::owned("image-width"), ws);
            m.insert(text::owned("image-height"), hs);
            proof {
                reveal_strlit("image-width");
                reveal_strlit("image-height");
                assert("image-width"@ != "image-height"@) by {
                    assert("image-width"@[6] != "image-height"@[6]);
                }
            }
            assert(m@ =~= map![
                "image-width"@ => text::decimal(w as nat),
                "image-height"@ => text::decimal(h as nat),
            ]);
            Some(m)
        },
        None => None,
    }
}

/// The kind of a local media file by its extension.
#[derive(Debug, PartialEq, Eq, Structural, Clone, Copy)]
pub enum MediaKind {
    Image,
    Video,
    Other,
}

/// JPEG, PNG, BMP and WebP are images; MP4 and MOV are videos.
pub open spec fn media_kind_of(ext: Seq<char>) -> MediaKind {
    if ext == "jpg"@ || ext == "jpeg"@ || ext == "png"@ || ext == "bmp"@ || ext == "webp"@ {
        MediaKind::Image
    } else if ext == "mp4"@ || ext == "mov"@ {
        MediaKind::Video
    } else {
        MediaKind::Other
    }
}

/// The kind of a local media file by its (lower-cased) extension.
pub fn compose_media_kind(path: &str) -> (k: MediaKind)
    ensures
        k == media_kind_of(paths::lower_extension(path@)),
{
    let e = lower_extension_of(path);
    let s = e.as_str();
    if str_eq(s, "jpg") || str_eq(s, "jpeg") || str_eq(s, "png") || str_eq(s, "bmp") || str_eq(
        s,
        "webp",
    ) {
        MediaKind::Image
    } else if str_eq(s, "mp4") || str_eq(s, "mov") {
        MediaKind::Video
    } else {
        MediaKind::Other
    }
}

/// The tracks of an MP4 or MOV file as `mp4parse::read_mp4` reads them:
/// for each, whether it is a video track and, when its first sample
/// description is a video one, that description's width and height; `None`
/// when the file cannot be parsed.
pub uninterp spec fn mp4_tracks(bytes: Seq<u8>) -> Option<Seq<(bool, Option<(u16, u16)>)>>;

/// Parses an MP4 or MOV file with `mp4parse::read_mp4` and lists its tracks.
/// The contract claims only that the result is a function of the bytes,
/// named `mp4_tracks`.
#[verifier::external_body]
fn read_mp4_tracks(bytes: &[u8]) -> (r: Option<Vec<(bool, Option<(u16, u16)>)>>)
    ensures
        match r {
            Some(v) => mp4_tracks(bytes@) == Some(v@),
            None => mp4_tracks(bytes@) is None,
        },
{
    let ctx = mp4parse::read_mp4(&mut std::io::Cursor::new(bytes)).ok()?;
    Some(ctx.tracks.iter().map(|t| (
        t.track_type == mp4parse::TrackType::Video,
        match t.stsd.as_ref().and_then(|s| s.descriptions.first()) {
            Some(mp4parse::SampleEntry::Video(v)) => Some((v.width, v.height)),
            _ => None,
        },
    )).collect())
}

/// The size of the first video track that has a video sample description.
pub open spec fn first_video_size(tracks: Seq<(bool, Option<(u16, u16)>)>) -> Option<(u32, u32)>
    decreases tracks.len(),
{
    if tracks.len() == 0 {
        None
    } else {
        match tracks[0].1 {
            Some((w, h)) => if tracks[0].0 {
                Some((w as u32, h as u32))
            } else {
                first_video_size(tracks.drop_first())
            },
            None => first_video_size(tracks.drop_first()),
        }
    }
}

/// The size of the first video track that has a video sample description.
pub fn mp4_video_dimensions(tracks: &Vec<(bool, Option<(u16, u16)>)>) -> (r: Option<(u32, u32)>)
    ensures
        r == first_video_size(tracks@),
{
    let mut i: usize = 0;
    assert(tracks@.skip(0) =~= tracks@);
    while i < tracks.len()
        invariant
            i <= tracks@.len(),
            first_video_size(tracks@) == first_video_size(tracks@.skip(i as int)),
        decreases tracks.len() - i,
    {
        assert(tracks@.skip(i as int)[0] == tracks@[i as int]);
        assert(tracks@.skip(i as int).drop_first() =~= tracks@.skip(i + 1));
        let (is_video, size) = tracks[i];
        if is_video {
            match size {
                Some((w, h)) => {
                    return Some((w as u32, h as u32));
                },
                None => {},
            }
        }
        i = i + 1;
    }
    None
}

/// The width and height of an MP4 or MOV file: those of its first video
/// track with a video sample description; `None` when there is none or the
/// file cannot be parsed.
pub fn read_mp4_dimensions(bytes: &[u8]) -> (r: Option<(u32, u32)>)
    ensures
        r == match mp4_tracks(bytes@) {
            Some(ts) => first_video_size(ts),
            None => None,
        },
{
    match read_mp4_tracks(bytes) {
        Some(ts) => mp4_video_dimensions(&ts),
        None => None,
    }
}

/// 50 MiB, the largest image a composition takes.
pub open spec fn max_compose_image_bytes() -> nat {
    50 * 1024 * 1024
}

/// 500 MiB, the largest video a composition takes.
pub open spec fn max_compose_video_bytes() -> nat {
    500 * 1024 * 1024
}

/// The shorter side of a `w` x `h` frame.
pub open spec fn short_side(w: u32, h: u32) -> u32 {
    if w <= h {
        w
    } else {
        h
    }
}

/// The message that rejects local media of kind `kind`, `size` bytes and
/// (for images and videos) dimensions `dims`, or `None` when it passes.
pub open spec fn compose_media_error(path: Seq<char>, kind: MediaKind, size: nat, dims: Option<(u32, u32)>) -> Option<Seq<char>> {
    if kind == MediaKind::Image && size > max_compose_image_bytes() {
        Some("Image too large: "@ + path + " ("@ + text::mib_text(size) + "MB). Maximum: 50MB."@)
    } else if kind == MediaKind::Video && size > max_compose_video_bytes() {
        Some("Video too large: "@ + path + " ("@ + text::mib_text(size) + "MB). Maximum: 500MB."@)
    } else if kind == MediaKind::Other {
        None
    } else {
        match dims {
            None => None,
            Some((w, h)) => if w < 128 || h < 128 {
                Some(
                    "Media dimensions too small: "@ + text::decimal(w as nat) + "x"@
                        + text::decimal(h as nat) + ". Minimum: 128x128."@,
                )
            } else if w > 4096 || h > 4096 {
                Some(
                    "Media dimensions too large: "@ + text::decimal(w as nat) + "x"@
                        + text::decimal(h as nat) + ". Maximum: 4096x4096."@,
                )
            } else if short_side(w, h) > 2160 {
                Some(
                    "Short side too large: "@ + text::decimal(w as nat) + "x"@ + text::decimal(
                        h as nat,
                    ) + " (short side "@ + text::decimal(short_side(w, h) as nat)
                        + "). Maximum short side: 2160."@,
                )
            } else {
                None
            },
        }
    }
}

/// A local file whose lower-cased extension is jpg, jpeg, png, bmp or webp
/// is an image: above 50 MiB it is refused as too large, and within the
/// size and dimension limits it passes with its dimensions. An mp4 or mov
/// file is a video, refused above 500 MiB. Any other file is neither and
/// passes unchecked.
pub proof fn law_compose_media_kinds(path: Seq<char>, size: nat, w: u32, h: u32)
    ensures
        ({
            let ext = paths::lower_extension(path);
            let kind = media_kind_of(ext);
            &&& (ext == "jpg"@ || ext == "jpeg"@ || ext == "png"@ || ext == "bmp"@ || ext
                == "webp"@) <==> kind == MediaKind::Image
            &&& (ext == "mp4"@ || ext == "mov"@) <==> kind == MediaKind::Video
            &&& kind == MediaKind::Image && size > 50 * 1024 * 1024 ==> compose_media_error(
                path,
                kind,
                size,
                Some((w, h)),
            ) == Some("Image too large: "@ + path + " ("@ + text::mib_text(size)
                + "MB). Maximum: 50MB."@)
            &&& kind == MediaKind::Image && size <= 50 * 1024 * 1024 && 128 <= w <= 4096 && 128
                <= h <= 4096 && (w <= 2160 || h <= 2160) ==> compose_media_error(
                path,
                kind,
                size,
                Some((w, h)),
            ) is None
            &&& kind == MediaKind::Video && size > 500 * 1024 * 1024 ==> compose_media_error(
                path,
                kind,
                size,
                Some((w, h)),
            ) == Some("Video too large: "@ + path + " ("@ + text::mib_text(size)
                + "MB). Maximum: 500MB."@)
            &&& kind == MediaKind::Other ==> compose_media_error(path, kind, size, Some((w, h)))
                is None
        }),
{
    reveal_strlit("jpg");
    reveal_strlit("jpeg");
    reveal_strlit("png");
    reveal_strlit("bmp");
    reveal_strlit("webp");
    reveal_strlit("mp4");
    reveal_strlit("mov");
    // The image extensions begin with other letters than the video ones.
    assert("jpg"@[0] == 'j' && "jpeg"@[0] == 'j' && "png"@[0] == 'p' && "bmp"@[0] == 'b'
        && "webp"@[0] == 'w' && "mp4"@[0] == 'm' && "mov"@[0] == 'm');
}

fn dims_text(m: &mut String, w: u32, h: u32)
    ensures
        final(m)@ == old(m)@ + text::decimal(w as nat) + "x"@ + text::decimal(h as nat),
{
    push_u64(m, w as u64);
    m.append("x");
    push_u64(m, h as u64);
    assert(m@ =~= old(m)@ + text::decimal(w as nat) + "x"@ + text::decimal(h as nat));
}

/// Checks local media before it is uploaded for a composition: the size
/// limit of its kind (by its extension), then its dimensions (when it is an
/// image or video and they could be read). Returns the dimensions that go
/// with the upload.
pub fn validate_compose_media(path: &str, size: u64, dims: Option<(u32, u32)>) -> (r: Result<
    Option<(u32, u32)>,
    Failure,
>)
    ensures
        match r {
            Ok(d) => compose_media_error(path@, media_kind_of(paths::lower_extension(path@)), size as nat, dims) is None && d == (
            if media_kind_of(paths::lower_extension(path@)) == MediaKind::Other {
                None
            } else {
                dims
            }),
            Err(f) => failure::is_client(f) && compose_media_error(
                path@,
                media_kind_of(paths::lower_extension(path@)),
                size as nat,
                dims,
            ) == Some(f.message@),
        },
{
    let kind = compose_media_kind(path);
    if kind == MediaKind::Image && size > 50 * 1024 * 1024 {
        let mut m = String::new();
        m.append("Image too large: ");
        m.append(path);
        m.append(" (");
        push_mib(&mut m, size);
        m.append("MB). Maximum: 50MB.");
        return Err(Failure::client(m));
    }
    if kind == MediaKind::Video && size > 500 * 1024 * 1024 {
        let mut m = String::new();
        m.append("Video too large: ");
        m.append(path);
        m.append(" (");
        push_mib(&mut m, size);
        m.append("MB). Maximum: 500MB.");
        return Err(Failure::client(m));
    }
    if kind == MediaKind::Other {
        return Ok(None);
    }
    match dims {
        None => Ok(None),
        Some((w, h)) => {
            let short = if w <= h {
                w
            } else {
                h
            };
            if w < 128 || h < 128 {
                let mut m = String::new();
                m.append("Media dimensions too small: ");
                dims_text(&mut m, w, h);
                m.append(". Minimum: 128x128.");
                return Err(Failure::client(m));
            }
            if w > 4096 || h > 4096 {
                let mut m = String::new();
                m.append("Media dimensions too large: ");
                dims_text(&mut m, w, h);
                m.append(". Maximum: 4096x4096.");
                return Err(Failure::client(m));
            }
            if short > 2160 {
                let mut m = String::new();
                m.append("Short side too large: ");
                dims_text(&mut m, w, h);
                m.append(" (short side ");
                push_u64(&mut m, short as u64);
                m.append("). Maximum short side: 2160.");
                return Err(Failure::client(m));
            }
            Ok(Some((w, h)))
        },
    }
}

/// The task id of a composition response (`job.task_id`; `data` is the
/// response as JSON text), or a parse error when it is missing or empty.
pub fn require_compose_task_id(task_id: &JsonField, data: &str) -> (r: Result<String, Failure>)
    ensures
        match r {
            Ok(s) => s@ == task_id.text_or(Seq::empty()) && s@.len() > 0,
            Err(f) => task_id.text_or(Seq::empty()).len() == 0 && f.kind == FailureKind::ParseError
                && f.message@ == "No task_id in response: "@ + data@ && f.http_status is None
                && f.code is None && f.step is None,
        },
{
    let t = task_id.text_or_str(text::empty_str());
    if t.is_empty() {
        let mut m = String::new();
        m.append("No task_id in response: ");
        m.append(data);
        return Err(Failure { kind: FailureKind::ParseError, message: m, http_status: None, code: None, step: None });
    }
    Ok(text::owned(t))
}

} // verus!
