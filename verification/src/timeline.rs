//! A composition timeline as JSON, and the rewrite of its clips' media and
//! subtitle URLs: which URLs a track kind holds, and how each clip reads
//! once its URL is resolved (an upload reference moves to `media_id`).
use vstd::prelude::*;
use crate::text::{owned, str_eq};
use crate::submission::{self, is_upload_ref_str};
use crate::compose::{ClipTiming, TrackCounts};

verus! {

/// A JSON value; an object keeps its entries in order.
#[derive(Debug)]
pub enum JsonValue {
    Null,
    Bool(bool),
    /// A number, as its JSON text.
    Number(String),
    Text(String),
    Array(Vec<JsonValue>),
    Object(Vec<(String, JsonValue)>),
}

/// The kinds of track whose clips carry a URL.
#[derive(Debug, Clone, Copy, PartialEq, Eq, Structural)]
pub enum TrackKind {
    Video,
    Audio,
    Subtitle,
}

/// The key of the timeline that holds the tracks of a kind.
pub open spec fn track_key(k: TrackKind) -> Seq<char> {
    match k {
        TrackKind::Video => "video_tracks"@,
        TrackKind::Audio => "audio_tracks"@,
        TrackKind::Subtitle => "subtitle_tracks"@,
    }
}

/// The key of a track that holds its clips.
pub open spec fn clip_key(k: TrackKind) -> Seq<char> {
    match k {
        TrackKind::Video => "video_track_clips"@,
        TrackKind::Audio => "audio_track_clips"@,
        TrackKind::Subtitle => "subtitle_track_clips"@,
    }
}

/// The key of a clip that holds its URL: `media_url` for video and audio,
/// `file_url` for subtitles.
pub open spec fn url_key(k: TrackKind) -> Seq<char> {
    match k {
        TrackKind::Subtitle => "file_url"@,
        _ => "media_url"@,
    }
}

/// Whether the clips of a kind carry media (rather than subtitle files).
pub open spec fn is_media(k: TrackKind) -> bool {
    k != TrackKind::Subtitle
}

fn keys_of(k: TrackKind) -> (r: (&'static str, &'static str, &'static str))
    ensures
        r.0@ == track_key(k),
        r.1@ == clip_key(k),
        r.2@ == url_key(k),
{
    match k {
        TrackKind::Video => ("video_tracks", "video_track_clips", "media_url"),
        TrackKind::Audio => ("audio_tracks", "audio_track_clips", "media_url"),
        TrackKind::Subtitle => ("subtitle_tracks", "subtitle_track_clips", "file_url"),
    }
}

/// The position of the first entry at or after `i` with key `k`.
pub open spec fn key_at(fs: Seq<(String, JsonValue)>, k: Seq<char>, i: int) -> Option<int>
    decreases fs.len() - i,
{
    if i < 0 || i >= fs.len() {
        None
    } else if fs[i].0@ == k {
        Some(i)
    } else {
        key_at(fs, k, i + 1)
    }
}

proof fn lemma_key_at(fs: Seq<(String, JsonValue)>, k: Seq<char>, i: int)
    ensures
        key_at(fs, k, i) matches Some(j) ==> 0 <= i <= j < fs.len() && fs[j].0@ == k,
    decreases fs.len() - i,
{
    if 0 <= i < fs.len() && fs[i].0@ != k {
        lemma_key_at(fs, k, i + 1);
    }
}

/// The value of an object under key `k` (its first entry with that key).
pub open spec fn field(fs: Seq<(String, JsonValue)>, k: Seq<char>) -> Option<JsonValue> {
    match key_at(fs, k, 0) {
        Some(i) => Some(fs[i].1),
        None => None,
    }
}

/// The array held under key `k` of an object.
pub open spec fn array_field(v: JsonValue, k: Seq<char>) -> Option<Vec<JsonValue>> {
    match v {
        JsonValue::Object(fs) => match field(fs@, k) {
            Some(JsonValue::Array(a)) => Some(a),
            _ => None,
        },
        _ => None,
    }
}

/// The URL of a clip: the string under its URL key, when it is an object
/// that holds one.
pub open spec fn clip_site(c: JsonValue, uk: Seq<char>) -> Option<String> {
    match c {
        JsonValue::Object(fs) => match field(fs@, uk) {
            Some(JsonValue::Text(u)) => Some(u),
            _ => None,
        },
        _ => None,
    }
}

/// The URLs of a list of clips, in order.
pub open spec fn clips_sites(cs: Seq<JsonValue>, uk: Seq<char>) -> Seq<String>
    decreases cs.len(),
{
    if cs.len() == 0 {
        Seq::empty()
    } else {
        clips_sites(cs.drop_last(), uk) + match clip_site(cs.last(), uk) {
            Some(u) => seq![u],
            None => Seq::empty(),
        }
    }
}

/// The URLs of the clips of a list of tracks, track by track.
pub open spec fn tracks_sites(ts: Seq<JsonValue>, ck: Seq<char>, uk: Seq<char>) -> Seq<String>
    decreases ts.len(),
{
    if ts.len() == 0 {
        Seq::empty()
    } else {
        tracks_sites(ts.drop_last(), ck, uk) + match array_field(ts.last(), ck) {
            Some(cs) => clips_sites(cs@, uk),
            None => Seq::empty(),
        }
    }
}

/// The URLs that the clips of a kind of track hold, in timeline order.
pub open spec fn kind_sites(root: JsonValue, k: TrackKind) -> Seq<String> {
    match array_field(root, track_key(k)) {
        Some(ts) => tracks_sites(ts@, clip_key(k), url_key(k)),
        None => Seq::empty(),
    }
}

/// The entries of a clip whose media URL was removed (`base`) once the
/// resolved upload reference `r` is set under `media_id`.
pub open spec fn media_id_set(base: Seq<(String, JsonValue)>, fs2: Seq<(String, JsonValue)>, r: String) -> bool {
    match key_at(base, "media_id"@, 0) {
        Some(j) => fs2 == base.update(j, (base[j].0, JsonValue::Text(r))),
        None => {
            &&& fs2.len() == base.len() + 1
            &&& fs2.drop_last() == base
            &&& fs2.last().0@ == "media_id"@
            &&& fs2.last().1 == JsonValue::Text(r)
        },
    }
}

/// How a clip reads once its URL is resolved to `r`: a media URL resolved to
/// an upload reference leaves `media_url` and is set under `media_id`; any
/// other URL is replaced where it stands; a clip without a URL is unchanged.
pub open spec fn clip_rewritten(old: JsonValue, new: JsonValue, uk: Seq<char>, media: bool, r: String) -> bool {
    match old {
        JsonValue::Object(fs) => match key_at(fs@, uk, 0) {
            Some(i) => if fs@[i].1 is Text {
                if media && submission::is_upload_ref(r@) {
                    new matches JsonValue::Object(fs2) && media_id_set(fs@.remove(i), fs2@, r)
                } else {
                    new matches JsonValue::Object(fs2) && fs2@ == fs@.update(
                        i,
                        (fs@[i].0, JsonValue::Text(r)),
                    )
                }
            } else {
                new == old
            },
            None => new == old,
        },
        _ => new == old,
    }
}

/// Each clip is rewritten with its own resolved URL: the clip at position
/// `j` takes the URL at `start` plus the number of URLs before it.
pub open spec fn clips_rewritten(
    old: Seq<JsonValue>,
    new: Seq<JsonValue>,
    uk: Seq<char>,
    media: bool,
    res: Seq<String>,
    start: int,
) -> bool {
    &&& new.len() == old.len()
    &&& forall|j: int|
        #![trigger new[j]]
        0 <= j < old.len() ==> clip_rewritten(
            old[j],
            new[j],
            uk,
            media,
            res[start + clips_sites(old.take(j), uk).len()],
        )
}

/// A track is rewritten in its clips alone; a track without a list of
/// clips is unchanged.
pub open spec fn track_rewritten(
    old: JsonValue,
    new: JsonValue,
    ck: Seq<char>,
    uk: Seq<char>,
    media: bool,
    res: Seq<String>,
    start: int,
) -> bool {
    match old {
        JsonValue::Object(fs) => match key_at(fs@, ck, 0) {
            Some(i) => match fs@[i].1 {
                JsonValue::Array(cs) => new matches JsonValue::Object(fs2) && fs2@ == fs@.update(
                    i,
                    (fs@[i].0, fs2@[i].1),
                ) && (fs2@[i].1 matches JsonValue::Array(cs2) && clips_rewritten(
                    cs@,
                    cs2@,
                    uk,
                    media,
                    res,
                    start,
                )),
                _ => new == old,
            },
            None => new == old,
        },
        _ => new == old,
    }
}

/// Each track is rewritten with the URLs that follow those of the tracks
/// before it.
pub open spec fn tracks_rewritten(
    old: Seq<JsonValue>,
    new: Seq<JsonValue>,
    ck: Seq<char>,
    uk: Seq<char>,
    media: bool,
    res: Seq<String>,
    start: int,
) -> bool {
    &&& new.len() == old.len()
    &&& forall|j: int|
        #![trigger new[j]]
        0 <= j < old.len() ==> track_rewritten(
            old[j],
            new[j],
            ck,
            uk,
            media,
            res,
            start + tracks_sites(old.take(j), ck, uk).len(),
        )
}

/// The timeline once the URLs of the clips of one kind of track are
/// resolved to `res` (one for each of `kind_sites`, in order): only those
/// clips change; a timeline without such tracks is unchanged.
pub open spec fn kind_rewritten(old: JsonValue, new: JsonValue, k: TrackKind, res: Seq<String>) -> bool {
    match old {
        JsonValue::Object(fs) => match key_at(fs@, track_key(k), 0) {
            Some(i) => match fs@[i].1 {
                JsonValue::Array(ts) => new matches JsonValue::Object(fs2) && fs2@ == fs@.update(
                    i,
                    (fs@[i].0, fs2@[i].1),
                ) && (fs2@[i].1 matches JsonValue::Array(ts2) && tracks_rewritten(
                    ts@,
                    ts2@,
                    clip_key(k),
                    url_key(k),
                    is_media(k),
                    res,
                    0,
                )),
                _ => new == old,
            },
            None => new == old,
        },
        _ => new == old,
    }
}

/// A clip whose URL resolves to itself is unchanged (its entries are the
/// same), unless it is a media clip whose URL is an upload reference: that
/// one has the reference under `media_id` and no longer under its URL key.
pub proof fn law_clip_resolved_to_itself(old: JsonValue, new: JsonValue, uk: Seq<char>, media: bool)
    requires
        clip_site(old, uk) is Some,
        clip_rewritten(old, new, uk, media, clip_site(old, uk)->0),
    ensures
        old matches JsonValue::Object(fs) && new matches JsonValue::Object(fs2) && (if media
            && submission::is_upload_ref(clip_site(old, uk)->0@) {
            key_at(fs@, uk, 0) matches Some(i) && media_id_set(
                fs@.remove(i),
                fs2@,
                clip_site(old, uk)->0,
            )
        } else {
            fs2@ == fs@
        }),
{
    if let JsonValue::Object(fs) = old {
        lemma_key_at(fs@, uk, 0);
        if let Some(i) = key_at(fs@, uk, 0) {
            assert(fs@.update(i, (fs@[i].0, fs@[i].1)) =~= fs@);
        }
    }
}

fn key_index(fs: &Vec<(String, JsonValue)>, k: &str) -> (r: Option<usize>)
    ensures
        match r {
            Some(i) => key_at(fs@, k@, 0) == Some(i as int) && i < fs@.len(),
            None => key_at(fs@, k@, 0) is None,
        },
{
    let mut i: usize = 0;
    while i < fs.len()
        invariant
            i <= fs@.len(),
            key_at(fs@, k@, 0) == key_at(fs@, k@, i as int),
        decreases fs.len() - i,
    {
        if str_eq(fs[i].0.as_str(), k) {
            return Some(i);
        }
        i = i + 1;
    }
    None
}

fn clip_url<'a>(c: &'a JsonValue, uk: &str) -> (r: Option<&'a String>)
    ensures
        match r {
            Some(u) => clip_site(*c, uk@) == Some(*u),
            None => clip_site(*c, uk@) is None,
        },
{
    match c {
        JsonValue::Object(fs) => match key_index(fs, uk) {
            Some(i) => match &fs[i].1 {
                JsonValue::Text(u) => Some(u),
                _ => None,
            },
            None => None,
        },
        _ => None,
    }
}

fn clips_of<'a>(v: &'a JsonValue, k: &str) -> (r: Option<&'a Vec<JsonValue>>)
    ensures
        match r {
            Some(a) => array_field(*v, k@) == Some(*a),
            None => array_field(*v, k@) is None,
        },
{
    match v {
        JsonValue::Object(fs) => match key_index(fs, k) {
            Some(i) => match &fs[i].1 {
                JsonValue::Array(a) => Some(a),
                _ => None,
            },
            None => None,
        },
        _ => None,
    }
}

fn push_clip_urls(out: &mut Vec<String>, cs: &Vec<JsonValue>, uk: &str)
    ensures
        final(out)@ == old(out)@ + clips_sites(cs@, uk@),
{
    let ghost start = out@;
    let mut j: usize = 0;
    assert(cs@.take(0) =~= Seq::<JsonValue>::empty());
    assert(out@ =~= start + clips_sites(cs@.take(0), uk@));
    while j < cs.len()
        invariant
            j <= cs@.len(),
            out@ == start + clips_sites(cs@.take(j as int), uk@),
        decreases cs.len() - j,
    {
        assert(cs@.take(j + 1).drop_last() =~= cs@.take(j as int));
        assert(cs@.take(j + 1).last() == cs@[j as int]);
        match clip_url(&cs[j], uk) {
            Some(u) => {
                out.push(u.clone());
            },
            None => {},
        }
        assert(out@ =~= start + clips_sites(cs@.take(j + 1), uk@));
        j = j + 1;
    }
    assert(cs@.take(cs@.len() as int) =~= cs@);
}

/// The URLs that the clips of a kind of track hold, in timeline order.
pub fn clip_urls(root: &JsonValue, kind: TrackKind) -> (r: Vec<String>)
    ensures
        r@ == kind_sites(*root, kind),
{
    let (tk, ck, uk) = keys_of(kind);
    let mut out: Vec<String> = Vec::new();
    match clips_of(root, tk) {
        Some(ts) => {
            let mut j: usize = 0;
            assert(ts@.take(0) =~= Seq::<JsonValue>::empty());
            assert(out@ =~= tracks_sites(ts@.take(0), ck@, uk@));
            while j < ts.len()
                invariant
                    j <= ts@.len(),
                    out@ == tracks_sites(ts@.take(j as int), ck@, uk@),
                decreases ts.len() - j,
            {
                assert(ts@.take(j + 1).drop_last() =~= ts@.take(j as int));
                assert(ts@.take(j + 1).last() == ts@[j as int]);
                match clips_of(&ts[j], ck) {
                    Some(cs) => push_clip_urls(&mut out, cs, uk),
                    None => {
                        assert(out@ + Seq::<String>::empty() =~= out@);
                    },
                }
                j = j + 1;
            }
            assert(ts@.take(ts@.len() as int) =~= ts@);
            out
        },
        None => out,
    }
}

fn rewrite_clip(c: JsonValue, uk: &str, media: bool, res: &Vec<String>, pos: usize) -> (r: (
    JsonValue,
    usize,
))
    requires
        clip_site(c, uk@) is Some ==> pos < res@.len(),
    ensures
        clip_rewritten(c, r.0, uk@, media, res@[pos as int]),
        r.1 == pos + (if clip_site(c, uk@) is Some {
            1int
        } else {
            0int
        }),
{
    match c {
        JsonValue::Object(mut fs) => {
            let ghost fs0 = fs@;
            match key_index(&fs, uk) {
                Some(i) => {
                    let is_text = match &fs[i].1 {
                        JsonValue::Text(_) => true,
                        _ => false,
                    };
                    if !is_text {
                        return (JsonValue::Object(fs), pos);
                    }
                    let n: usize = res.len();
                    assert(pos < n);
                    let r = &res[pos];
                    let (k, _old) = fs.remove(i);
                    if media && is_upload_ref_str(r.as_str()) {
                        let ghost base = fs@;
                        match key_index(&fs, "media_id") {
                            Some(j) => {
                                let (k2, _v) = fs.remove(j);
                                fs.insert(j, (k2, JsonValue::Text(r.clone())));
                                assert(fs@ =~= base.update(j as int, (base[j as int].0, JsonValue::Text(*r))));
                            },
                            None => {
                                fs.push((owned("media_id"), JsonValue::Text(r.clone())));
                                assert(fs@.drop_last() =~= base);
                            },
                        }
                    } else {
                        fs.insert(i, (k, JsonValue::Text(r.clone())));
                        assert(fs@ =~= fs0.update(i as int, (fs0[i as int].0, JsonValue::Text(*r))));
                    }
                    (JsonValue::Object(fs), pos + 1)
                },
                None => (JsonValue::Object(fs), pos),
            }
        },
        other => (other, pos),
    }
}

fn rewrite_clips(cs: Vec<JsonValue>, uk: &str, media: bool, res: &Vec<String>, start: usize) -> (r: (
    Vec<JsonValue>,
    usize,
))
    requires
        start + clips_sites(cs@, uk@).len() <= res@.len(),
    ensures
        clips_rewritten(cs@, r.0@, uk@, media, res@, start as int),
        r.1 == start + clips_sites(cs@, uk@).len(),
{
    let ghost old = cs@;
    let mut rest = cs;
    let mut out: Vec<JsonValue> = Vec::new();
    let mut pos = start;
    proof {
        lemma_clips_sites_prefix(old, uk@, old.len() as int);
        assert(old.take(0) =~= Seq::<JsonValue>::empty());
        assert(rest@ =~= old.skip(0));
    }
    while rest.len() > 0
        invariant
            out@.len() <= old.len(),
            rest@ == old.skip(out@.len() as int),
            pos == start + clips_sites(old.take(out@.len() as int), uk@).len(),
            start + clips_sites(old, uk@).len() <= res@.len(),
            forall|n: int| 0 <= n <= old.len() ==> clips_sites(old.take(n), uk@).len() <= clips_sites(old, uk@).len(),
            forall|j: int|
                #![trigger out@[j]]
                0 <= j < out@.len() ==> clip_rewritten(
                    old[j],
                    out@[j],
                    uk@,
                    media,
                    res@[start + clips_sites(old.take(j), uk@).len()],
                ),
        decreases rest.len(),
    {
        let ghost j = out@.len() as int;
        let c = rest.remove(0);
        proof {
            assert(c == old[j]);
            assert(rest@ =~= old.skip(j + 1));
            assert(old.take(j + 1).drop_last() =~= old.take(j));
            assert(old.take(j + 1).last() == old[j]);
            assert(clips_sites(old.take(j + 1), uk@).len() <= clips_sites(old, uk@).len());
        }
        let (c2, p2) = rewrite_clip(c, uk, media, res, pos);
        out.push(c2);
        pos = p2;
    }
    proof {
        assert(out@.len() == old.len());
        assert(old.take(old.len() as int) =~= old);
    }
    (out, pos)
}

proof fn lemma_clips_sites_prefix(cs: Seq<JsonValue>, uk: Seq<char>, n: int)
    requires
        0 <= n <= cs.len(),
    ensures
        forall|m: int| 0 <= m <= n ==> clips_sites(cs.take(m), uk).len() <= clips_sites(cs.take(n), uk).len(),
        cs.take(cs.len() as int) == cs,
    decreases n,
{
    assert(cs.take(cs.len() as int) =~= cs);
    if n > 0 {
        lemma_clips_sites_prefix(cs, uk, n - 1);
        assert(cs.take(n).drop_last() =~= cs.take(n - 1));
    }
}

proof fn lemma_tracks_sites_prefix(ts: Seq<JsonValue>, ck: Seq<char>, uk: Seq<char>, n: int)
    requires
        0 <= n <= ts.len(),
    ensures
        forall|m: int| 0 <= m <= n ==> tracks_sites(ts.take(m), ck, uk).len() <= tracks_sites(ts.take(n), ck, uk).len(),
        ts.take(ts.len() as int) == ts,
    decreases n,
{
    assert(ts.take(ts.len() as int) =~= ts);
    if n > 0 {
        lemma_tracks_sites_prefix(ts, ck, uk, n - 1);
        assert(ts.take(n).drop_last() =~= ts.take(n - 1));
    }
}

fn rewrite_track(t: JsonValue, ck: &str, uk: &str, media: bool, res: &Vec<String>, start: usize) -> (r: (
    JsonValue,
    usize,
))
    requires
        start + match array_field(t, ck@) {
            Some(cs) => clips_sites(cs@, uk@).len(),
            None => 0,
        } <= res@.len(),
    ensures
        track_rewritten(t, r.0, ck@, uk@, media, res@, start as int),
        r.1 == start + match array_field(t, ck@) {
            Some(cs) => clips_sites(cs@, uk@).len(),
            None => 0,
        },
{
    match t {
        JsonValue::Object(mut fs) => {
            let ghost fs0 = fs@;
            match key_index(&fs, ck) {
                Some(i) => {
                    let is_array = match &fs[i].1 {
                        JsonValue::Array(_) => true,
                        _ => false,
                    };
                    if !is_array {
                        return (JsonValue::Object(fs), start);
                    }
                    let (k, v) = fs.remove(i);
                    match v {
                        JsonValue::Array(cs) => {
                            let (cs2, p) = rewrite_clips(cs, uk, media, res, start);
                            fs.insert(i, (k, JsonValue::Array(cs2)));
                            assert(fs@ =~= fs0.update(i as int, (fs0[i as int].0, fs@[i as int].1)));
                            (JsonValue::Object(fs), p)
                        },
                        other => {
                            fs.insert(i, (k, other));
                            (JsonValue::Object(fs), start)
                        },
                    }
                },
                None => (JsonValue::Object(fs), start),
            }
        },
        other => (other, start),
    }
}

fn rewrite_tracks(ts: Vec<JsonValue>, ck: &str, uk: &str, media: bool, res: &Vec<String>) -> (r: Vec<JsonValue>)
    requires
        tracks_sites(ts@, ck@, uk@).len() <= res@.len(),
    ensures
        tracks_rewritten(ts@, r@, ck@, uk@, media, res@, 0),
{
    let ghost old = ts@;
    let mut rest = ts;
    let mut out: Vec<JsonValue> = Vec::new();
    let mut pos: usize = 0;
    proof {
        lemma_tracks_sites_prefix(old, ck@, uk@, old.len() as int);
        assert(old.take(0) =~= Seq::<JsonValue>::empty());
        assert(rest@ =~= old.skip(0));
    }
    while rest.len() > 0
        invariant
            out@.len() <= old.len(),
            rest@ == old.skip(out@.len() as int),
            pos == tracks_sites(old.take(out@.len() as int), ck@, uk@).len(),
            tracks_sites(old, ck@, uk@).len() <= res@.len(),
            forall|n: int| 0 <= n <= old.len() ==> tracks_sites(old.take(n), ck@, uk@).len() <= tracks_sites(old, ck@, uk@).len(),
            forall|j: int|
                #![trigger out@[j]]
                0 <= j < out@.len() ==> track_rewritten(
                    old[j],
                    out@[j],
                    ck@,
                    uk@,
                    media,
                    res@,
                    tracks_sites(old.take(j), ck@, uk@).len() as int,
                ),
        decreases rest.len(),
    {
        let ghost j = out@.len() as int;
        let t = rest.remove(0);
        proof {
            assert(t == old[j]);
            assert(rest@ =~= old.skip(j + 1));
            assert(old.take(j + 1).drop_last() =~= old.take(j));
            assert(old.take(j + 1).last() == old[j]);
            assert(tracks_sites(old.take(j + 1), ck@, uk@).len() <= tracks_sites(old, ck@, uk@).len());
        }
        let (t2, p2) = rewrite_track(t, ck, uk, media, res, pos);
        out.push(t2);
        pos = p2;
    }
    proof {
        assert(out@.len() == old.len());
    }
    out
}

/// Rewrites the URLs of the clips of one kind of track, given the resolved
/// URL of each (one for each of `clip_urls`, in order).
pub fn rewrite_clip_urls(root: JsonValue, kind: TrackKind, resolved: &Vec<String>) -> (r: JsonValue)
    requires
        resolved@.len() == kind_sites(root, kind).len(),
    ensures
        kind_rewritten(root, r, kind, resolved@),
{
    let (tk, ck, uk) = keys_of(kind);
    match root {
        JsonValue::Object(mut fs) => {
            let ghost fs0 = fs@;
            match key_index(&fs, tk) {
                Some(i) => {
                    let is_array = match &fs[i].1 {
                        JsonValue::Array(_) => true,
                        _ => false,
                    };
                    if !is_array {
                        return JsonValue::Object(fs);
                    }
                    let (k, v) = fs.remove(i);
                    match v {
                        JsonValue::Array(ts) => {
                            let ts2 = rewrite_tracks(ts, ck, uk, kind != TrackKind::Subtitle, resolved);
                            fs.insert(i, (k, JsonValue::Array(ts2)));
                            assert(fs@ =~= fs0.update(i as int, (fs0[i as int].0, fs@[i as int].1)));
                            JsonValue::Object(fs)
                        },
                        other => {
                            fs.insert(i, (k, other));
                            JsonValue::Object(fs)
                        },
                    }
                },
                None => JsonValue::Object(fs),
            }
        },
        other => other,
    }
}

/// The number of entries of the array under key `k` (0 when there is none).
pub open spec fn array_len(v: JsonValue, k: Seq<char>) -> nat {
    match array_field(v, k) {
        Some(a) => a@.len(),
        None => 0,
    }
}

fn array_count(v: &JsonValue, k: &str) -> (n: usize)
    ensures
        n == array_len(*v, k@),
{
    match clips_of(v, k) {
        Some(a) => a.len(),
        None => 0,
    }
}

/// How many video, audio, subtitle and effect tracks a timeline holds.
pub fn track_counts(root: &JsonValue) -> (r: TrackCounts)
    ensures
        r.video == array_len(*root, "video_tracks"@),
        r.audio == array_len(*root, "audio_tracks"@),
        r.subtitle == array_len(*root, "subtitle_tracks"@),
        r.effect == array_len(*root, "effect_tracks"@),
{
    TrackCounts {
        video: array_count(root, "video_tracks"),
        audio: array_count(root, "audio_tracks"),
        subtitle: array_count(root, "subtitle_tracks"),
        effect: array_count(root, "effect_tracks"),
    }
}

/// Whether a clip holds a value (present and not null) under key `k`.
pub open spec fn holds_value(c: JsonValue, k: Seq<char>) -> bool {
    match c {
        JsonValue::Object(fs) => match field(fs@, k) {
            Some(v) => !(v is Null),
            None => false,
        },
        _ => false,
    }
}

/// A clip's place and timing as text and numbers.
pub open spec fn timing_view(t: ClipTiming) -> (Seq<char>, Seq<char>, nat, nat, bool, bool) {
    (t.track_key@, t.clip_key@, t.track_index as nat, t.clip_index as nat, t.has_timeline_in, t.has_timeline_out)
}

pub open spec fn timing_views(ts: Seq<ClipTiming>) -> Seq<(Seq<char>, Seq<char>, nat, nat, bool, bool)> {
    ts.map_values(|t: ClipTiming| timing_view(t))
}

/// The timing of clip `ci` of track `ti` of a kind.
pub open spec fn clip_timing_of(c: JsonValue, k: TrackKind, ti: nat, ci: nat) -> (Seq<char>, Seq<char>, nat, nat, bool, bool) {
    (track_key(k), clip_key(k), ti, ci, holds_value(c, "timeline_in"@), holds_value(c, "timeline_out"@))
}

/// The timings of the clips of track `ti`, in order.
pub open spec fn clips_timings(cs: Seq<JsonValue>, k: TrackKind, ti: nat) -> Seq<(Seq<char>, Seq<char>, nat, nat, bool, bool)> {
    Seq::new(cs.len(), |ci: int| clip_timing_of(cs[ci], k, ti, ci as nat))
}

/// The timings of the clips of a list of tracks, track by track.
pub open spec fn tracks_timings(ts: Seq<JsonValue>, k: TrackKind) -> Seq<(Seq<char>, Seq<char>, nat, nat, bool, bool)>
    decreases ts.len(),
{
    if ts.len() == 0 {
        Seq::empty()
    } else {
        tracks_timings(ts.drop_last(), k) + match array_field(ts.last(), clip_key(k)) {
            Some(cs) => clips_timings(cs@, k, (ts.len() - 1) as nat),
            None => Seq::empty(),
        }
    }
}

/// The timings of the clips of one kind of track.
pub open spec fn kind_timings(root: JsonValue, k: TrackKind) -> Seq<(Seq<char>, Seq<char>, nat, nat, bool, bool)> {
    match array_field(root, track_key(k)) {
        Some(ts) => tracks_timings(ts@, k),
        None => Seq::empty(),
    }
}

/// The timings of the video, then audio, then subtitle clips.
pub open spec fn timeline_timings(root: JsonValue) -> Seq<(Seq<char>, Seq<char>, nat, nat, bool, bool)> {
    kind_timings(root, TrackKind::Video) + kind_timings(root, TrackKind::Audio) + kind_timings(
        root,
        TrackKind::Subtitle,
    )
}

fn holds(c: &JsonValue, k: &str) -> (b: bool)
    ensures
        b == holds_value(*c, k@),
{
    match c {
        JsonValue::Object(fs) => match key_index(fs, k) {
            Some(i) => match &fs[i].1 {
                JsonValue::Null => false,
                _ => true,
            },
            None => false,
        },
        _ => false,
    }
}

fn push_kind_timings(out: &mut Vec<ClipTiming>, root: &JsonValue, kind: TrackKind)
    ensures
        timing_views(final(out)@) == timing_views(old(out)@) + kind_timings(*root, kind),
{
    let (tk, ck, _uk) = keys_of(kind);
    let ghost start = timing_views(out@);
    match clips_of(root, tk) {
        Some(ts) => {
            let mut ti: usize = 0;
            assert(ts@.take(0) =~= Seq::<JsonValue>::empty());
            assert(timing_views(out@) =~= start + tracks_timings(ts@.take(0), kind));
            while ti < ts.len()
                invariant
                    ti <= ts@.len(),
                    ck@ == clip_key(kind),
                    tk@ == track_key(kind),
                    timing_views(out@) == start + tracks_timings(ts@.take(ti as int), kind),
                decreases ts.len() - ti,
            {
                assert(ts@.take(ti + 1).drop_last() =~= ts@.take(ti as int));
                assert(ts@.take(ti + 1).last() == ts@[ti as int]);
                assert(ts@.take(ti + 1).len() - 1 == ti);
                let ghost before = timing_views(out@);
                match clips_of(&ts[ti], ck) {
                    Some(cs) => {
                        let mut ci: usize = 0;
                        while ci < cs.len()
                            invariant
                                ci <= cs@.len(),
                                ck@ == clip_key(kind),
                                tk@ == track_key(kind),
                                timing_views(out@) == before + clips_timings(cs@, kind, ti as nat).take(ci as int),
                            decreases cs.len() - ci,
                        {
                            let c = &cs[ci];
                            let t = ClipTiming {
                                track_key: owned(tk),
                                clip_key: owned(ck),
                                track_index: ti,
                                clip_index: ci,
                                has_timeline_in: holds(c, "timeline_in"),
                                has_timeline_out: holds(c, "timeline_out"),
                            };
                            let ghost mid = out@;
                            out.push(t);
                            assert(timing_views(out@) =~= timing_views(mid).push(timing_view(t)));
                            assert(clips_timings(cs@, kind, ti as nat).take(ci + 1) =~= clips_timings(
                                cs@,
                                kind,
                                ti as nat,
                            ).take(ci as int).push(clip_timing_of(cs@[ci as int], kind, ti as nat, ci as nat)));
                            ci = ci + 1;
                        }
                        assert(clips_timings(cs@, kind, ti as nat).take(cs@.len() as int) =~= clips_timings(
                            cs@,
                            kind,
                            ti as nat,
                        ));
                    },
                    None => {
                        assert(before + Seq::<(Seq<char>, Seq<char>, nat, nat, bool, bool)>::empty() =~= before);
                    },
                }
                assert(timing_views(out@) =~= start + tracks_timings(ts@.take(ti + 1), kind));
                ti = ti + 1;
            }
            assert(ts@.take(ts@.len() as int) =~= ts@);
        },
        None => {
            assert(timing_views(out@) =~= start + Seq::<(Seq<char>, Seq<char>, nat, nat, bool, bool)>::empty());
        },
    }
}

/// The place and timing of every video, audio and subtitle clip, in order.
pub fn clip_timings(root: &JsonValue) -> (r: Vec<ClipTiming>)
    ensures
        timing_views(r@) == timeline_timings(*root),
{
    let mut out: Vec<ClipTiming> = Vec::new();
    assert(timing_views(out@) =~= Seq::<(Seq<char>, Seq<char>, nat, nat, bool, bool)>::empty());
    push_kind_timings(&mut out, root, TrackKind::Video);
    push_kind_timings(&mut out, root, TrackKind::Audio);
    push_kind_timings(&mut out, root, TrackKind::Subtitle);
    assert(timing_views(out@) =~= timeline_timings(*root));
    out
}

} // verus!
