//! Recognising downloaded media by their first bytes, and naming the files
//! they are saved to.
use vstd::prelude::*;
use crate::text::{self, push_u64};
use crate::task_body::JsonField;

verus! {

/// Whether `b` begins with the bytes `p`.
pub open spec fn bytes_start_with(b: Seq<u8>, p: Seq<u8>) -> bool {
    p.len() <= b.len() && b.take(p.len() as int) == p
}

/// The file extension for media that begins with `b`: JPEG, PNG and GIF
/// signatures, WebP and WAV inside RIFF, MP3 by its ID3 tag or frame sync,
/// and `mp4` for an `ftyp` box and for everything else. An AAC (ADTS) header
/// `FF F1` also passes the frame-sync test, so it is named `mp3`: the `aac`
/// branch after that test is never taken.
pub open spec fn ext_for(b: Seq<u8>) -> Seq<char> {
    if b.len() < 4 {
        "mp4"@
    } else if bytes_start_with(b, seq![0xFFu8, 0xD8u8, 0xFFu8]) {
        "jpg"@
    } else if bytes_start_with(b, seq![0x89u8, 0x50u8, 0x4Eu8, 0x47u8]) {
        "png"@
    } else if bytes_start_with(b, seq![0x47u8, 0x49u8, 0x46u8, 0x38u8]) {
        "gif"@
    } else if bytes_start_with(b, seq![0x52u8, 0x49u8, 0x46u8, 0x46u8]) && b.len() >= 12
        && b.subrange(8, 12) == seq![0x57u8, 0x45u8, 0x42u8, 0x50u8] {
        "webp"@
    } else if bytes_start_with(b, seq![0x52u8, 0x49u8, 0x46u8, 0x46u8]) && b.len() >= 12
        && b.subrange(8, 12) == seq![0x57u8, 0x41u8, 0x56u8, 0x45u8] {
        "wav"@
    } else if bytes_start_with(b, seq![0x49u8, 0x44u8, 0x33u8]) || (b[0] == 0xFFu8 && (b[1]
        & 0xE0u8) == 0xE0u8) {
        "mp3"@
    } else if b[0] == 0xFFu8 && b[1] == 0xF1u8 {
        "aac"@
    } else {
        "mp4"@
    }
}

fn starts(b: &[u8], p: &[u8]) -> (r: bool)
    ensures
        r == bytes_start_with(b@, p@),
{
    if p.len() > b.len() {
        return false;
    }
    let mut i: usize = 0;
    while i < p.len()
        invariant
            p@.len() <= b@.len(),
            i <= p@.len(),
            forall|j: int| 0 <= j < i ==> b@[j] == p@[j],
        decreases p.len() - i,
    {
        if b[i] != p[i] {
            assert(b@.take(p@.len() as int)[i as int] != p@[i as int]);
            return false;
        }
        i = i + 1;
    }
    assert(b@.take(p@.len() as int) =~= p@);
    true
}

fn window_is(b: &[u8], at: usize, p: &[u8]) -> (r: bool)
    requires
        at + p@.len() <= b@.len(),
    ensures
        r == (b@.subrange(at as int, at + p@.len()) == p@),
{
    let bl = b.len();
    let mut i: usize = 0;
    while i < p.len()
        invariant
            bl == b@.len(),
            at + p@.len() <= b@.len(),
            i <= p@.len(),
            forall|j: int| 0 <= j < i ==> b@[at + j] == p@[j],
        decreases p.len() - i,
    {
        if b[at + i] != p[i] {
            assert(b@.subrange(at as int, at + p@.len())[i as int] != p@[i as int]);
            return false;
        }
        i = i + 1;
    }
    assert(b@.subrange(at as int, at + p@.len()) =~= p@);
    true
}

/// The file extension for media that begins with `bytes`.
pub fn ext_from_bytes(bytes: &[u8]) -> (r: &'static str)
    ensures
        r@ == ext_for(bytes@),
{
    if bytes.len() < 4 {
        return "mp4";
    }
    let jpeg: [u8; 3] = [0xFF, 0xD8, 0xFF];
    let png: [u8; 4] = [0x89, 0x50, 0x4E, 0x47];
    let gif: [u8; 4] = [0x47, 0x49, 0x46, 0x38];
    let riff: [u8; 4] = [0x52, 0x49, 0x46, 0x46];
    let webp: [u8; 4] = [0x57, 0x45, 0x42, 0x50];
    let wave: [u8; 4] = [0x57, 0x41, 0x56, 0x45];
    let id3: [u8; 3] = [0x49, 0x44, 0x33];
    assert(jpeg@ =~= seq![0xFFu8, 0xD8u8, 0xFFu8]);
    assert(png@ =~= seq![0x89u8, 0x50u8, 0x4Eu8, 0x47u8]);
    assert(gif@ =~= seq![0x47u8, 0x49u8, 0x46u8, 0x38u8]);
    assert(riff@ =~= seq![0x52u8, 0x49u8, 0x46u8, 0x46u8]);
    assert(webp@ =~= seq![0x57u8, 0x45u8, 0x42u8, 0x50u8]);
    assert(wave@ =~= seq![0x57u8, 0x41u8, 0x56u8, 0x45u8]);
    assert(id3@ =~= seq![0x49u8, 0x44u8, 0x33u8]);
    if starts(bytes, &jpeg) {
        return "jpg";
    }
    if starts(bytes, &png) {
        return "png";
    }
    if starts(bytes, &gif) {
        return "gif";
    }
    let is_riff = starts(bytes, &riff);
    if is_riff && bytes.len() >= 12 {
        if window_is(bytes, 8, &webp) {
            return "webp";
        }
        if window_is(bytes, 8, &wave) {
            return "wav";
        }
    }
    if starts(bytes, &id3) || (bytes[0] == 0xFF && (bytes[1] & 0xE0) == 0xE0) {
        return "mp3";
    }
    if bytes[0] == 0xFF && bytes[1] == 0xF1 {
        return "aac";
    }
    "mp4"
}

/// The name a downloaded creation is saved under: `{task_id}_{index}.{ext}`.
pub open spec fn download_file_name_of(task_id: Seq<char>, index: nat, bytes: Seq<u8>) -> Seq<
    char,
> {
    task_id + "_"@ + text::decimal(index) + "."@ + ext_for(bytes)
}

/// The name a downloaded creation is saved under.
pub fn download_file_name(task_id: &str, index: usize, bytes: &[u8]) -> (r: String)
    ensures
        r@ == download_file_name_of(task_id@, index as nat, bytes@),
{
    let mut r = String::new();
    r.append(task_id);
    r.append("_");
    push_u64(&mut r, index as u64);
    r.append(".");
    r.append(ext_from_bytes(bytes));
    r
}

/// What `task get` does about `--output`.
#[derive(Debug, PartialEq, Eq, Structural, Clone, Copy)]
pub enum DownloadStep {
    /// No output directory was given.
    NotRequested,
    /// The task succeeded: its creations are downloaded.
    Download,
    /// The task is not done: the result says the download was skipped.
    Skip,
}

/// Creations are downloaded only when an output directory is given and the
/// task state is `success`.
pub open spec fn download_step_for(state: Seq<char>, output_given: bool) -> DownloadStep {
    if !output_given {
        DownloadStep::NotRequested
    } else if state == "success"@ {
        DownloadStep::Download
    } else {
        DownloadStep::Skip
    }
}

/// What `task get` does about `--output` for a task in `state`.
pub fn download_step(state: &str, output_given: bool) -> (r: DownloadStep)
    ensures
        r == download_step_for(state@, output_given),
{
    if !output_given {
        DownloadStep::NotRequested
    } else if text::str_eq(state, "success") {
        DownloadStep::Download
    } else {
        DownloadStep::Skip
    }
}

/// Whether the result of `task get` carries the error code and message:
/// only for a failed task.
pub fn reports_failure(state: &str) -> (b: bool)
    ensures
        b == (state@ == "failed"@),
{
    text::str_eq(state, "failed")
}

/// What `task get` reports of a task: its id, state, type and model; the
/// error code and message of a failed task; what is done about `--output`;
/// and whether the download was skipped.
#[derive(Debug)]
pub struct TaskReport {
    pub task_id: String,
    pub state: String,
    pub task_type: String,
    pub model: String,
    /// The error code and message, reported for a failed task only.
    pub failure: Option<(String, String)>,
    pub download: DownloadStep,
    /// Reported as `download_skipped: true`.
    pub download_skipped: bool,
}

/// The report of `task get` for a task whose answer holds `state`, `type`,
/// `input.model_name`, `err_code` and `err_msg` (each read as a string, the
/// empty text when it is not one): the download is skipped, and the report
/// says `download_skipped: true`, exactly when an output directory is given
/// and the state is not `success`.
pub fn task_report(
    task_id: &str,
    state: &JsonField,
    task_type: &JsonField,
    model: &JsonField,
    err_code: &JsonField,
    err_msg: &JsonField,
    output_given: bool,
) -> (r: TaskReport)
    ensures
        r.task_id@ == task_id@,
        r.state@ == state.text_or(Seq::empty()),
        r.task_type@ == task_type.text_or(Seq::empty()),
        r.model@ == model.text_or(Seq::empty()),
        match r.failure {
            Some((c, m)) => r.state@ == "failed"@ && c@ == err_code.text_or(Seq::empty()) && m@
                == err_msg.text_or(Seq::empty()),
            None => r.state@ != "failed"@,
        },
        r.download == download_step_for(r.state@, output_given),
        r.download_skipped == (output_given && r.state@ != "success"@),
{
    let st = text::owned(state.text_or_str(text::empty_str()));
    let failure = if reports_failure(st.as_str()) {
        Some(
            (
                text::owned(err_code.text_or_str(text::empty_str())),
                text::owned(err_msg.text_or_str(text::empty_str())),
            ),
        )
    } else {
        None
    };
    let download = download_step(st.as_str(), output_given);
    let skipped = match download {
        DownloadStep::Skip => true,
        _ => false,
    };
    TaskReport {
        task_id: text::owned(task_id),
        state: st,
        task_type: text::owned(task_type.text_or_str(text::empty_str())),
        model: text::owned(model.text_or_str(text::empty_str())),
        failure,
        download,
        download_skipped: skipped,
    }
}

/// The URLs to download: the `nomark_uri` of each creation that has one,
/// in order.
pub open spec fn present_uris(cs: Seq<Option<String>>) -> Seq<Seq<char>>
    decreases cs.len(),
{
    if cs.len() == 0 {
        Seq::empty()
    } else {
        present_uris(cs.drop_last()) + match cs.last() {
            Some(u) => seq![u@],
            None => Seq::empty(),
        }
    }
}

/// The URLs to download, from the `nomark_uri` of each creation.
pub fn download_urls(creations: &Vec<Option<String>>) -> (r: Vec<String>)
    ensures
        text::string_views(r@) == present_uris(creations@),
{
    let mut r: Vec<String> = Vec::new();
    let mut i: usize = 0;
    assert(text::string_views(r@) =~= present_uris(creations@.take(0)));
    while i < creations.len()
        invariant
            i <= creations@.len(),
            text::string_views(r@) == present_uris(creations@.take(i as int)),
        decreases creations.len() - i,
    {
        let ghost before = text::string_views(r@);
        assert(creations@.take(i + 1).drop_last() =~= creations@.take(i as int));
        assert(creations@.take(i + 1).last() == creations@[i as int]);
        match &creations[i] {
            Some(u) => {
                r.push(u.clone());
                assert(text::string_views(r@) =~= before + seq![u@]);
            },
            None => {
                assert(before + Seq::<Seq<char>>::empty() =~= before);
            },
        }
        i = i + 1;
    }
    assert(creations@.take(creations@.len() as int) =~= creations@);
    r
}

} // verus!
