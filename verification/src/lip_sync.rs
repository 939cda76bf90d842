//! Lip sync requests: the choice between text and audio, and the duration
//! that a text is spoken in.
use vstd::prelude::*;
use crate::text;
use crate::failure::{self, Failure};
use crate::validators::{self, has_cjk_str, validate_lip_sync_text, validate_voice_id};

verus! {

/// What drives the mouth movement: a text to speak, or an audio file.
#[derive(Debug)]
pub enum LipSyncSource {
    Text(String),
    Audio(String),
}

/// Exactly one of `--text` and `--audio` must be given.
pub fn lip_sync_source(text: Option<&str>, audio: Option<&str>) -> (r: Result<
    LipSyncSource,
    Failure,
>)
    ensures
        match (text, audio) {
            (Some(t), Some(_)) => r matches Err(f) && failure::is_client_failure(
                f,
                "--text and --audio are mutually exclusive"@,
            ),
            (None, None) => r matches Err(f) && failure::is_client_failure(
                f,
                "Either --text or --audio is required"@,
            ),
            (Some(t), None) => r matches Ok(LipSyncSource::Text(s)) && s@ == t@,
            (None, Some(a)) => r matches Ok(LipSyncSource::Audio(s)) && s@ == a@,
        },
{
    match (text, audio) {
        (Some(_), Some(_)) => Err(Failure::client_str("--text and --audio are mutually exclusive")),
        (None, None) => Err(Failure::client_str("Either --text or --audio is required")),
        (Some(t), None) => {
            let mut s = String::new();
            s.append(t);
            assert(s@ =~= t@);
            Ok(LipSyncSource::Text(s))
        },
        (None, Some(a)) => {
            let mut s = String::new();
            s.append(a);
            assert(s@ =~= a@);
            Ok(LipSyncSource::Audio(s))
        },
    }
}

/// Seconds needed to speak `s`: five Chinese characters a second when it
/// holds a CJK ideograph, else ten characters a second, rounded up.
pub open spec fn text_duration(s: Seq<char>) -> int {
    if validators::has_cjk(s) {
        ((s.len() + 4) / 5) as int
    } else {
        ((s.len() + 9) / 10) as int
    }
}

/// Seconds needed to speak a lip-sync text.
pub fn calculate_text_duration(s: &str) -> (d: i64)
    ensures
        d == text_duration(s@),
{
    let cjk = has_cjk_str(s);
    let n = s.unicode_len() as u128;
    let d128: u128 = if cjk {
        (n + 4) / 5
    } else {
        (n + 9) / 10
    };
    assert(d128 <= 0x7fff_ffff_ffff_ffff);
    d128 as i64
}

/// Checks a text lip sync and returns the duration to request: the text
/// length, then the voice, then a duration of at least 2 seconds.
pub fn plan_text_lip_sync(s: &str, voice_id: &str) -> (r: Result<i64, Failure>)
    ensures
        match r {
            Ok(d) => {
                &&& validators::lip_sync_text_error(s@).len() == 0
                &&& validators::voice_id_error(voice_id@).len() == 0
                &&& d == text_duration(s@)
                &&& d >= 2
            },
            Err(f) => failure::is_client(f) && (if validators::lip_sync_text_error(s@).len() > 0 {
                f.message@ == validators::lip_sync_text_error(s@)
            } else if validators::voice_id_error(voice_id@).len() > 0 {
                f.message@ == validators::voice_id_error(voice_id@)
            } else {
                text_duration(s@) < 2 && f.message@
                    == "Text is too short, duration must be at least 2 seconds"@
            }),
        },
{
    let err = validate_lip_sync_text(s);
    if !err.as_str().is_empty() {
        return Err(Failure::client(err));
    }
    let err = validate_voice_id(voice_id);
    if !err.as_str().is_empty() {
        return Err(Failure::client(err));
    }
    let d = calculate_text_duration(s);
    if d < 2 {
        return Err(Failure::client_str("Text is too short, duration must be at least 2 seconds"));
    }
    Ok(d)
}

} // verus!
