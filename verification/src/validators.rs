//! Client-side checks of element requests, media files, lip-sync text and
//! voices. Each returns the empty string when its input passes, else the
//! message that rejects it.
use vstd::prelude::*;
use crate::text::{self, append_joined, char_count, contains_str, owned, push_mib, push_u64, str_eq};
use crate::task_body::{self, JsonField};
use crate::paths::{self, lower_extension_of};
use crate::voices::{self, all_voice_ids};

verus! {

/// What a JSON object holds under a key that should be an array: nothing,
/// an array (the `type` of each item), or another value.
#[derive(Debug)]
pub enum JsonList {
    Absent,
    Items(Vec<JsonField>),
    Other,
}

/// The fields of an element request that the validator reads.
#[derive(Debug)]
pub struct ElementFields {
    pub components: JsonList,
    pub has_name: bool,
    pub has_type: bool,
}

/// An element request: a JSON object with its fields, or another value.
#[derive(Debug)]
pub enum ElementBody {
    NotObject,
    Object(ElementFields),
}

/// The message that rejects an element pre-process request, or the empty text.
pub open spec fn element_preprocess_error(b: ElementBody) -> Seq<char> {
    match b {
        ElementBody::NotObject => "body must be an object"@,
        ElementBody::Object(f) => if f.components is Absent {
            "Missing required field: components"@
        } else if !f.has_name {
            "Missing required field: name"@
        } else if !f.has_type {
            "Missing required field: type"@
        } else {
            match f.components {
                JsonList::Items(v) if v@.len() > 0 => if v@.len() > 3 {
                    "components must have at most 3 items"@
                } else if task_body::count_typed(v@, "main"@) != 1 {
                    "components must have exactly one item with type='main'"@
                } else {
                    Seq::empty()
                },
                _ => "components must be a non-empty array"@,
            }
        },
    }
}

/// Checks an element pre-process request.
pub fn validate_element_preprocess(body: &ElementBody) -> (r: String)
    ensures
        r@ == element_preprocess_error(*body),
{
    match body {
        ElementBody::NotObject => owned("body must be an object"),
        ElementBody::Object(f) => {
            match &f.components {
                JsonList::Absent => {
                    return owned("Missing required field: components");
                },
                _ => {},
            }
            if !f.has_name {
                return owned("Missing required field: name");
            }
            if !f.has_type {
                return owned("Missing required field: type");
            }
            match &f.components {
                JsonList::Items(v) => {
                    if v.len() == 0 {
                        return owned("components must be a non-empty array");
                    }
                    if v.len() > 3 {
                        return owned("components must have at most 3 items");
                    }
                    let mut main_count: usize = 0;
                    let mut i: usize = 0;
                    while i < v.len()
                        invariant
                            i <= v@.len(),
                            v@.len() <= 3,
                            main_count == task_body::count_typed(v@.take(i as int), "main"@),
                            main_count <= i,
                        decreases v.len() - i,
                    {
                        proof {
                            assert(v@.take(i + 1).drop_last() =~= v@.take(i as int));
                        }
                        match &v[i] {
                            JsonField::Text(s) => {
                                if str_eq(s.as_str(), "main") {
                                    main_count = main_count + 1;
                                }
                            },
                            _ => {},
                        }
                        i = i + 1;
                    }
                    assert(v@.take(v@.len() as int) =~= v@);
                    if main_count != 1 {
                        return owned("components must have exactly one item with type='main'");
                    }
                    String::new()
                },
                _ => owned("components must be a non-empty array"),
            }
        },
    }
}

/// The message for an image path, given whether it names a regular file.
pub open spec fn image_file_error(path: Seq<char>, is_file: bool) -> Seq<char> {
    if !is_file {
        "Image file not found: "@ + path
    } else {
        Seq::empty()
    }
}

/// Checks that an image path names a regular file; `is_file` is what
/// `Path::is_file` reports for it.
pub fn validate_image_file(path: &str, is_file: bool) -> (r: String)
    ensures
        r@ == image_file_error(path@, is_file),
{
    if !is_file {
        let mut r = String::new();
        r.append("Image file not found: ");
        r.append(path);
        return r;
    }
    String::new()
}

/// A media kind with its accepted extensions and size limit.
pub open spec fn video_extensions() -> Seq<Seq<char>> {
    seq!["mp4"@, "mov"@, "avi"@]
}

pub open spec fn audio_extensions() -> Seq<Seq<char>> {
    seq!["mp3"@, "wav"@, "aac"@, "m4a"@]
}

/// 500 MiB, the largest video that lip sync takes.
pub open spec fn max_video_bytes() -> nat {
    500 * 1024 * 1024
}

/// 100 MiB, the largest audio file that lip sync takes.
pub open spec fn max_audio_bytes() -> nat {
    100 * 1024 * 1024
}

/// The message for a video file of `size` bytes at `path`.
pub open spec fn video_file_error(path: Seq<char>, is_file: bool, size: nat) -> Seq<char> {
    let ext = paths::lower_extension(path);
    if !is_file {
        "Video file not found: "@ + path
    } else if !video_extensions().contains(ext) {
        "Invalid video format '"@ + ext + "'. Supported: mp4, mov, avi"@
    } else if size > max_video_bytes() {
        "Video file too large ("@ + text::mib_text(size) + "MB). Max: 500MB"@
    } else {
        Seq::empty()
    }
}

/// The message for an audio file of `size` bytes at `path`.
pub open spec fn audio_file_error(path: Seq<char>, is_file: bool, size: nat) -> Seq<char> {
    let ext = paths::lower_extension(path);
    if !is_file {
        "Audio file not found: "@ + path
    } else if !audio_extensions().contains(ext) {
        "Invalid audio format '"@ + ext + "'. Supported: mp3, wav, aac, m4a"@
    } else if size > max_audio_bytes() {
        "Audio file too large ("@ + text::mib_text(size) + "MB). Max: 100MB"@
    } else {
        Seq::empty()
    }
}

/// Checks a video for lip sync: it exists (`is_file`), is MP4, MOV or AVI,
/// and is at most 500 MiB (`size` is the file's length, 0 when unknown).
pub fn validate_video_file(path: &str, is_file: bool, size: u64) -> (r: String)
    ensures
        r@ == video_file_error(path@, is_file, size as nat),
{
    if !is_file {
        let mut r = String::new();
        r.append("Video file not found: ");
        r.append(path);
        return r;
    }
    let ext = lower_extension_of(path);
    let allowed = vec!["mp4", "mov", "avi"];
    assert(text::views(allowed@) =~= video_extensions());
    if !contains_str(&allowed, ext.as_str()) {
        let mut r = String::new();
        r.append("Invalid video format '");
        r.append(ext.as_str());
        r.append("'. Supported: mp4, mov, avi");
        return r;
    }
    if size > 500 * 1024 * 1024 {
        let mut r = String::new();
        r.append("Video file too large (");
        push_mib(&mut r, size);
        r.append("MB). Max: 500MB");
        return r;
    }
    String::new()
}

/// Checks an audio file for lip sync: it exists (`is_file`), is MP3, WAV,
/// AAC or M4A, and is at most 100 MiB.
pub fn validate_audio_file(path: &str, is_file: bool, size: u64) -> (r: String)
    ensures
        r@ == audio_file_error(path@, is_file, size as nat),
{
    if !is_file {
        let mut r = String::new();
        r.append("Audio file not found: ");
        r.append(path);
        return r;
    }
    let ext = lower_extension_of(path);
    let allowed = vec!["mp3", "wav", "aac", "m4a"];
    assert(text::views(allowed@) =~= audio_extensions());
    if !contains_str(&allowed, ext.as_str()) {
        let mut r = String::new();
        r.append("Invalid audio format '");
        r.append(ext.as_str());
        r.append("'. Supported: mp3, wav, aac, m4a");
        return r;
    }
    if size > 100 * 1024 * 1024 {
        let mut r = String::new();
        r.append("Audio file too large (");
        push_mib(&mut r, size);
        r.append("MB). Max: 100MB");
        return r;
    }
    String::new()
}

/// An existing audio file of at most 100 MiB whose lower-cased extension
/// is mp3, wav, aac or m4a is accepted; an existing file with any other
/// extension is refused with a message that names the extension and lists
/// those four.
pub proof fn law_audio_formats_accepted(path: Seq<char>, size: nat)
    ensures
        ({
            let ext = paths::lower_extension(path);
            &&& (ext == "mp3"@ || ext == "wav"@ || ext == "aac"@ || ext == "m4a"@) && size <= 100
                * 1024 * 1024 ==> audio_file_error(path, true, size) == Seq::<char>::empty()
            &&& !(ext == "mp3"@ || ext == "wav"@ || ext == "aac"@ || ext == "m4a"@)
                ==> audio_file_error(path, true, size) == "Invalid audio format '"@ + ext
                + "'. Supported: mp3, wav, aac, m4a"@
        }),
{
    let ext = paths::lower_extension(path);
    let allowed = audio_extensions();
    assert(allowed[0] == "mp3"@ && allowed[1] == "wav"@ && allowed[2] == "aac"@ && allowed[3]
        == "m4a"@);
}

/// An existing video of at most 500 MiB whose lower-cased extension is mp4,
/// mov or avi is accepted; an existing file with any other extension is
/// refused with a message that names the extension and lists those three.
pub proof fn law_video_formats_accepted(path: Seq<char>, size: nat)
    ensures
        ({
            let ext = paths::lower_extension(path);
            &&& (ext == "mp4"@ || ext == "mov"@ || ext == "avi"@) && size <= 500 * 1024 * 1024
                ==> video_file_error(path, true, size) == Seq::<char>::empty()
            &&& !(ext == "mp4"@ || ext == "mov"@ || ext == "avi"@) ==> video_file_error(
                path,
                true,
                size,
            ) == "Invalid video format '"@ + ext + "'. Supported: mp4, mov, avi"@
        }),
{
    let allowed = video_extensions();
    assert(allowed[0] == "mp4"@ && allowed[1] == "mov"@ && allowed[2] == "avi"@);
}

/// A CJK ideograph (the three blocks that mark a text as Chinese).
pub open spec fn is_cjk(c: char) -> bool {
    let u = c as u32;
    (0x4E00 <= u <= 0x9FFF) || (0x3400 <= u <= 0x4DBF) || (0xF900 <= u <= 0xFAFF)
}

pub fn is_cjk_char(c: char) -> (b: bool)
    ensures
        b == is_cjk(c),
{
    let u = c as u32;
    (0x4E00 <= u && u <= 0x9FFF) || (0x3400 <= u && u <= 0x4DBF) || (0xF900 <= u && u <= 0xFAFF)
}

/// Whether `s` holds a CJK ideograph.
pub open spec fn has_cjk(s: Seq<char>) -> bool {
    exists|i: int| 0 <= i < s.len() && is_cjk(#[trigger] s[i])
}

pub fn has_cjk_str(s: &str) -> (b: bool)
    ensures
        b == has_cjk(s@),
{
    for c in it: s.chars()
        invariant
            it.seq() == s@,
            forall|j: int| 0 <= j < it.index() ==> !is_cjk(#[trigger] s@[j]),
    {
        if is_cjk_char(c) {
            assert(is_cjk(s@[it.index() as int]));
            return true;
        }
    }
    false
}

/// The message for a lip-sync text: Chinese text (one with a CJK ideograph)
/// takes 2-1000 characters, other text 4-2000.
pub open spec fn lip_sync_text_error(s: Seq<char>) -> Seq<char> {
    let n = s.len();
    if n == 0 {
        "Text content cannot be empty"@
    } else if has_cjk(s) {
        if n < 2 || n > 1000 {
            "Chinese text must be 2-1000 characters, got "@ + text::decimal(n)
        } else {
            Seq::empty()
        }
    } else if n < 4 || n > 2000 {
        "English text must be 4-2000 characters, got "@ + text::decimal(n)
    } else {
        Seq::empty()
    }
}

/// Checks the length of a lip-sync text.
pub fn validate_lip_sync_text(s: &str) -> (r: String)
    ensures
        r@ == lip_sync_text_error(s@),
{
    if s.is_empty() {
        return owned("Text content cannot be empty");
    }
    let cjk = has_cjk_str(s);
    let n = char_count(s);
    if cjk {
        if n < 2 || n > 1000 {
            let mut r = String::new();
            r.append("Chinese text must be 2-1000 characters, got ");
            push_u64(&mut r, n as u64);
            return r;
        }
    } else if n < 4 || n > 2000 {
        let mut r = String::new();
        r.append("English text must be 4-2000 characters, got ");
        push_u64(&mut r, n as u64);
        return r;
    }
    String::new()
}

/// The message for a lip-sync voice id.
pub open spec fn voice_id_error(id: Seq<char>) -> Seq<char> {
    if !voices::voice_ids().contains(id) {
        "Invalid voice_id '"@ + id + "'"@
    } else {
        Seq::empty()
    }
}

/// Checks that a voice id is one that lip sync accepts.
pub fn validate_voice_id(voice_id: &str) -> (r: String)
    ensures
        r@ == voice_id_error(voice_id@),
{
    let valid = all_voice_ids();
    if !contains_str(&valid, voice_id) {
        let mut r = String::new();
        r.append("Invalid voice_id '");
        r.append(voice_id);
        r.append("'");
        return r;
    }
    String::new()
}

/// The message for a schedule mode given on the command line.
pub open spec fn schedule_mode_error(mode: Seq<char>) -> Seq<char> {
    if !crate::catalog::schedule_modes().contains(mode) {
        "Invalid schedule_mode '"@ + mode + "'. Valid: "@ + text::join(
            crate::catalog::schedule_modes(),
            ", "@,
        )
    } else {
        Seq::empty()
    }
}

/// Checks a schedule mode: `claw_pass` (daily quota) or `normal` (credits).
pub fn validate_schedule_mode(mode: &str) -> (r: String)
    ensures
        r@ == schedule_mode_error(mode@),
{
    let valid = crate::catalog::schedule_mode_list();
    if !contains_str(&valid, mode) {
        let mut r = String::new();
        r.append("Invalid schedule_mode '");
        r.append(mode);
        r.append("'. Valid: ");
        append_joined(&mut r, &valid, ", ");
        return r;
    }
    String::new()
}

/// The message for a TTS volume, which must lie in 0-100.
pub open spec fn tts_volume_error(v: int) -> Seq<char> {
    if v < 0 || v > 100 {
        "volume must be between 0 and 100, got "@ + text::int_text(v)
    } else {
        Seq::empty()
    }
}

/// Checks a TTS volume.
pub fn validate_tts_volume(volume: i32) -> (r: String)
    ensures
        r@ == tts_volume_error(volume as int),
{
    if volume < 0 || volume > 100 {
        let mut r = String::new();
        r.append("volume must be between 0 and 100, got ");
        text::push_i64(&mut r, volume as i64);
        return r;
    }
    String::new()
}

} // verus!
