//! The headers and query parameters of the client's requests.
use vstd::prelude::*;
use crate::text::{self, i64_text, owned};
use crate::failure::{self, Failure};
use crate::string_map::{self, StringMap};

verus! {

/// The service address used when `VIDU_BASE_URL` is not set.
pub open spec fn default_base_url() -> Seq<char> {
    "https://service.vidu.cn"@
}

/// The service address: the value of `VIDU_BASE_URL` when it is set, else
/// the default.
pub fn base_url(env_value: Option<&str>) -> (r: String)
    ensures
        r@ == match env_value {
            Some(v) => v@,
            None => default_base_url(),
        },
{
    match env_value {
        Some(v) => owned(v),
        None => owned("https://service.vidu.cn"),
    }
}

/// The headers of every API request.
pub open spec fn default_headers(token: Seq<char>, base: Seq<char>) -> Map<Seq<char>, Seq<char>> {
    Map::<Seq<char>, Seq<char>>::empty().insert("Authorization"@, "Token "@ + token).insert(
        "Content-Type"@,
        "application/json"@,
    ).insert("User-Agent"@, "viduclawbot/1.0 (+"@ + base + ")"@)
}

fn insert_str(m: &mut StringMap, k: &str, v: String)
    requires
        old(m).wf(),
    ensures
        final(m).wf(),
        final(m)@ == old(m)@.insert(k@, v@),
{
    m.insert(owned(k), v);
}

/// The headers of an API request: the token, JSON content and the client's
/// user agent, overridden by `extra`. Fails when the token is empty.
pub fn get_headers(token: &str, base_url: &str, extra: Option<&StringMap>) -> (r: Result<
    StringMap,
    Failure,
>)
    requires
        match extra {
            Some(e) => e.wf(),
            None => true,
        },
    ensures
        match r {
            Ok(h) => {
                &&& token@.len() > 0
                &&& h.wf()
                &&& h@ == match extra {
                    Some(e) => default_headers(token@, base_url@).union_prefer_right(e@),
                    None => default_headers(token@, base_url@),
                }
            },
            Err(f) => token@.len() == 0 && failure::is_client_failure(f, "VIDU_TOKEN not set"@),
        },
{
    if token.is_empty() {
        return Err(Failure::client_str("VIDU_TOKEN not set"));
    }
    let mut h = StringMap::new();
    let mut auth = String::new();
    auth.append("Token ");
    auth.append(token);
    insert_str(&mut h, "Authorization", auth);
    insert_str(&mut h, "Content-Type", owned("application/json"));
    let mut ua = String::new();
    ua.append("viduclawbot/1.0 (+");
    ua.append(base_url);
    ua.append(")");
    insert_str(&mut h, "User-Agent", ua);
    assert(h@ =~= default_headers(token@, base_url@));
    match extra {
        None => Ok(h),
        Some(e) => {
            let pairs = e.entries();
            let ghost d = default_headers(token@, base_url@);
            let mut i: usize = 0;
            while i < pairs.len()
                invariant
                    i <= pairs@.len(),
                    h.wf(),
                    h@ == d.union_prefer_right(string_map::map_of(pairs@.take(i as int))),
                decreases pairs.len() - i,
            {
                proof {
                    let t = pairs@.take(i + 1);
                    assert(t.drop_last() =~= pairs@.take(i as int));
                    assert(t.last() == pairs@[i as int]);
                    assert(string_map::map_of(t) =~= string_map::map_of(pairs@.take(i as int)).insert(
                        pairs@[i as int].0@,
                        pairs@[i as int].1@,
                    ));
                }
                h.insert(pairs[i].0.clone(), pairs[i].1.clone());
                assert(h@ =~= d.union_prefer_right(string_map::map_of(pairs@.take(i + 1))));
                i = i + 1;
            }
            assert(pairs@.take(pairs@.len() as int) =~= pairs@);
            Ok(h)
        },
    }
}

pub open spec fn opt_str_view(o: Option<&str>) -> Option<Seq<char>> {
    match o {
        Some(s) => Some(s@),
        None => None,
    }
}

/// `m` with `k` mapped to `v` when `v` is given.
pub open spec fn insert_opt(m: Map<Seq<char>, Seq<char>>, k: Seq<char>, v: Option<Seq<char>>) -> Map<
    Seq<char>,
    Seq<char>,
> {
    match v {
        Some(x) => m.insert(k, x),
        None => m,
    }
}

/// The query of a credit estimate for a generation task.
pub open spec fn task_credit_query(
    task_type: Seq<char>,
    model_version: Seq<char>,
    duration: int,
    resolution: Seq<char>,
    aspect_ratio: Option<Seq<char>>,
    transition: Option<Seq<char>>,
    sample_count: int,
    codec: Seq<char>,
    schedule_mode: Seq<char>,
) -> Map<Seq<char>, Seq<char>> {
    insert_opt(
        insert_opt(
            Map::<Seq<char>, Seq<char>>::empty().insert("type"@, task_type).insert(
                "settings.model_version"@,
                model_version,
            ).insert("settings.duration"@, text::int_text(duration)).insert(
                "settings.resolution"@,
                resolution,
            ).insert("settings.sample_count"@, text::int_text(sample_count)).insert(
                "settings.codec"@,
                codec,
            ).insert("settings.schedule_mode"@, schedule_mode),
            "settings.aspect_ratio"@,
            aspect_ratio,
        ),
        "settings.transition"@,
        transition,
    )
}

/// The credit query names every setting it is given: each fixed key maps
/// to its argument, `settings.aspect_ratio` and `settings.transition` are
/// present exactly when an aspect ratio or a transition is given and then
/// map to it, and no other key is present.
pub proof fn law_credit_query_carries_settings(
    task_type: Seq<char>,
    model_version: Seq<char>,
    duration: int,
    resolution: Seq<char>,
    aspect_ratio: Option<Seq<char>>,
    transition: Option<Seq<char>>,
    sample_count: int,
    codec: Seq<char>,
    schedule_mode: Seq<char>,
)
    ensures
        ({
            let q = task_credit_query(
                task_type,
                model_version,
                duration,
                resolution,
                aspect_ratio,
                transition,
                sample_count,
                codec,
                schedule_mode,
            );
            &&& q.contains_key("type"@) && q["type"@] == task_type
            &&& q.contains_key("settings.model_version"@) && q["settings.model_version"@]
                == model_version
            &&& q.contains_key("settings.duration"@) && q["settings.duration"@] == text::int_text(
                duration,
            )
            &&& q.contains_key("settings.resolution"@) && q["settings.resolution"@] == resolution
            &&& q.contains_key("settings.sample_count"@) && q["settings.sample_count"@]
                == text::int_text(sample_count)
            &&& q.contains_key("settings.codec"@) && q["settings.codec"@] == codec
            &&& q.contains_key("settings.schedule_mode"@) && q["settings.schedule_mode"@]
                == schedule_mode
            &&& q.contains_key("settings.aspect_ratio"@) <==> aspect_ratio is Some
            &&& (aspect_ratio matches Some(ar) ==> q["settings.aspect_ratio"@] == ar)
            &&& q.contains_key("settings.transition"@) <==> transition is Some
            &&& (transition matches Some(tr) ==> q["settings.transition"@] == tr)
            &&& forall|k: Seq<char>| #[trigger] q.contains_key(k) ==> k == "type"@ || k
                == "settings.model_version"@ || k == "settings.duration"@ || k
                == "settings.resolution"@ || k == "settings.sample_count"@ || k
                == "settings.codec"@ || k == "settings.schedule_mode"@ || (k
                == "settings.aspect_ratio"@ && aspect_ratio is Some) || (k
                == "settings.transition"@ && transition is Some)
        }),
{
    reveal_strlit("type");
    reveal_strlit("settings.model_version");
    reveal_strlit("settings.duration");
    reveal_strlit("settings.resolution");
    reveal_strlit("settings.sample_count");
    reveal_strlit("settings.codec");
    reveal_strlit("settings.schedule_mode");
    reveal_strlit("settings.aspect_ratio");
    reveal_strlit("settings.transition");
    assert("type"@.len() == 4 && "settings.model_version"@.len() == 22 && "settings.duration"@.len()
        == 17 && "settings.resolution"@.len() == 19 && "settings.sample_count"@.len() == 21
        && "settings.codec"@.len() == 14 && "settings.schedule_mode"@.len() == 22
        && "settings.aspect_ratio"@.len() == 21 && "settings.transition"@.len() == 19);
    // Keys of equal length differ at their tenth character.
    assert("settings.resolution"@[9] != "settings.transition"@[9]);
    assert("settings.model_version"@[9] != "settings.schedule_mode"@[9]);
    assert("settings.sample_count"@[9] != "settings.aspect_ratio"@[9]);
}

/// The query of a credit estimate for a generation task, with the schedule
/// mode already resolved.
pub fn query_credits(
    task_type: &str,
    model_version: &str,
    duration: i64,
    resolution: &str,
    aspect_ratio: Option<&str>,
    transition: Option<&str>,
    sample_count: i64,
    codec: &str,
    schedule_mode: &str,
) -> (q: StringMap)
    ensures
        q.wf(),
        q@ == task_credit_query(
            task_type@,
            model_version@,
            duration as int,
            resolution@,
            opt_str_view(aspect_ratio),
            opt_str_view(transition),
            sample_count as int,
            codec@,
            schedule_mode@,
        ),
{
    let mut q = StringMap::new();
    insert_str(&mut q, "type", owned(task_type));
    insert_str(&mut q, "settings.model_version", owned(model_version));
    insert_str(&mut q, "settings.duration", i64_text(duration));
    insert_str(&mut q, "settings.resolution", owned(resolution));
    insert_str(&mut q, "settings.sample_count", i64_text(sample_count));
    insert_str(&mut q, "settings.codec", owned(codec));
    insert_str(&mut q, "settings.schedule_mode", owned(schedule_mode));
    match aspect_ratio {
        Some(ar) => insert_str(&mut q, "settings.aspect_ratio", owned(ar)),
        None => {},
    }
    match transition {
        Some(tr) => insert_str(&mut q, "settings.transition", owned(tr)),
        None => {},
    }
    q
}

/// The query of a credit estimate for a TTS task; `speed` is the speed as
/// the command line renders it.
pub open spec fn tts_credit_query(
    text: Seq<char>,
    voice_id: Seq<char>,
    speed: Seq<char>,
    pitch: int,
    volume: int,
    schedule_mode: Seq<char>,
) -> Map<Seq<char>, Seq<char>> {
    Map::<Seq<char>, Seq<char>>::empty().insert("type"@, "tts"@).insert(
        "settings.voice_id"@,
        voice_id,
    ).insert("settings.speed"@, speed).insert("settings.pitch"@, text::int_text(pitch)).insert(
        "settings.volume"@,
        text::int_text(volume),
    ).insert("settings.schedule_mode"@, schedule_mode).insert("text"@, text)
}

/// The query of a credit estimate for a TTS task.
pub fn query_tts_credits(
    text: &str,
    voice_id: &str,
    speed: &str,
    pitch: i32,
    volume: i32,
    schedule_mode: &str,
) -> (q: StringMap)
    ensures
        q.wf(),
        q@ == tts_credit_query(text@, voice_id@, speed@, pitch as int, volume as int, schedule_mode@),
{
    let mut q = StringMap::new();
    insert_str(&mut q, "type", owned("tts"));
    insert_str(&mut q, "settings.voice_id", owned(voice_id));
    insert_str(&mut q, "settings.speed", owned(speed));
    insert_str(&mut q, "settings.pitch", i64_text(pitch as i64));
    insert_str(&mut q, "settings.volume", i64_text(volume as i64));
    insert_str(&mut q, "settings.schedule_mode", owned(schedule_mode));
    insert_str(&mut q, "text", owned(text));
    q
}

/// The query of a credit estimate for a lip-sync task; `speed` and
/// `volume` as the command line renders them, `volume` left out when it is 0.
pub open spec fn lip_sync_credit_query(
    duration: int,
    voice_id: Seq<char>,
    speed: Seq<char>,
    volume: Option<Seq<char>>,
    codec: Seq<char>,
    schedule_mode: Seq<char>,
) -> Map<Seq<char>, Seq<char>> {
    insert_opt(
        Map::<Seq<char>, Seq<char>>::empty().insert("type"@, "lip_sync"@).insert(
            "settings.duration"@,
            text::int_text(duration),
        ).insert("settings.voice_id"@, voice_id).insert("settings.speed"@, speed).insert(
            "settings.codec"@,
            codec,
        ).insert("settings.schedule_mode"@, schedule_mode),
        "settings.volume"@,
        volume,
    )
}

/// The lip-sync credit query holds the type `lip_sync` and each setting it
/// is given under its key; `settings.volume` is present exactly when a
/// volume is given, and then maps to it.
pub proof fn law_lip_sync_credit_query_carries_settings(
    duration: int,
    voice_id: Seq<char>,
    speed: Seq<char>,
    volume: Option<Seq<char>>,
    codec: Seq<char>,
    schedule_mode: Seq<char>,
)
    ensures
        ({
            let q = lip_sync_credit_query(duration, voice_id, speed, volume, codec, schedule_mode);
            &&& q.contains_key("type"@) && q["type"@] == "lip_sync"@
            &&& q.contains_key("settings.duration"@) && q["settings.duration"@] == text::int_text(
                duration,
            )
            &&& q.contains_key("settings.voice_id"@) && q["settings.voice_id"@] == voice_id
            &&& q.contains_key("settings.speed"@) && q["settings.speed"@] == speed
            &&& q.contains_key("settings.codec"@) && q["settings.codec"@] == codec
            &&& q.contains_key("settings.schedule_mode"@) && q["settings.schedule_mode"@]
                == schedule_mode
            &&& q.contains_key("settings.volume"@) <==> volume is Some
            &&& (volume matches Some(v) ==> q["settings.volume"@] == v)
        }),
{
    reveal_strlit("type");
    reveal_strlit("settings.duration");
    reveal_strlit("settings.voice_id");
    reveal_strlit("settings.speed");
    reveal_strlit("settings.codec");
    reveal_strlit("settings.schedule_mode");
    reveal_strlit("settings.volume");
    assert("type"@.len() == 4 && "settings.duration"@.len() == 17 && "settings.voice_id"@.len()
        == 17 && "settings.speed"@.len() == 14 && "settings.codec"@.len() == 14
        && "settings.schedule_mode"@.len() == 22 && "settings.volume"@.len() == 15);
    // Keys of equal length differ at their tenth character.
    assert("settings.duration"@[9] != "settings.voice_id"@[9]);
    assert("settings.speed"@[9] != "settings.codec"@[9]);
}

/// The query of a credit estimate for a lip-sync task.
pub fn query_lip_sync_credits(
    duration: i64,
    voice_id: &str,
    speed: &str,
    volume: Option<&str>,
    codec: &str,
    schedule_mode: &str,
) -> (q: StringMap)
    ensures
        q.wf(),
        q@ == lip_sync_credit_query(
            duration as int,
            voice_id@,
            speed@,
            opt_str_view(volume),
            codec@,
            schedule_mode@,
        ),
{
    let mut q = StringMap::new();
    insert_str(&mut q, "type", owned("lip_sync"));
    insert_str(&mut q, "settings.duration", i64_text(duration));
    insert_str(&mut q, "settings.voice_id", owned(voice_id));
    insert_str(&mut q, "settings.speed", owned(speed));
    insert_str(&mut q, "settings.codec", owned(codec));
    insert_str(&mut q, "settings.schedule_mode", owned(schedule_mode));
    match volume {
        Some(v) => insert_str(&mut q, "settings.volume", owned(v)),
        None => {},
    }
    q
}

/// The query that lists the user's own image elements.
pub open spec fn element_list_query(keyword: Option<Seq<char>>, page: int, pagesz: int) -> Map<
    Seq<char>,
    Seq<char>,
> {
    insert_opt(
        Map::<Seq<char>, Seq<char>>::empty().insert("pager.page"@, text::int_text(page)).insert(
            "pager.pagesz"@,
            text::int_text(pagesz),
        ).insert("modalities"@, "image"@),
        "keyword"@,
        keyword,
    )
}

/// The query that lists the user's own image elements.
pub fn element_list_params(keyword: Option<&str>, page: i64, pagesz: i64) -> (q: StringMap)
    ensures
        q.wf(),
        q@ == element_list_query(opt_str_view(keyword), page as int, pagesz as int),
{
    let mut q = StringMap::new();
    insert_str(&mut q, "pager.page", i64_text(page));
    insert_str(&mut q, "pager.pagesz", i64_text(pagesz));
    insert_str(&mut q, "modalities", owned("image"));
    match keyword {
        Some(k) => insert_str(&mut q, "keyword", owned(k)),
        None => {},
    }
    q
}

/// The query that searches community image elements.
pub open spec fn element_search_query(
    keyword: Seq<char>,
    pagesz: int,
    sort_by: Seq<char>,
    page_token: Seq<char>,
) -> Map<Seq<char>, Seq<char>> {
    Map::<Seq<char>, Seq<char>>::empty().insert("keyword"@, keyword).insert(
        "pager.page_token"@,
        page_token,
    ).insert("pager.pagesz"@, text::int_text(pagesz)).insert("modalities"@, "image"@).insert(
        "sort_by"@,
        sort_by,
    ).insert("is_like"@, "false"@).insert("is_collect"@, "false"@)
}

/// The query that searches community image elements; the keyword is required.
pub fn element_search_params(keyword: &str, pagesz: i64, sort_by: &str, page_token: &str) -> (r:
    Result<StringMap, Failure>)
    ensures
        match r {
            Ok(q) => keyword@.len() > 0 && q.wf() && q@ == element_search_query(
                keyword@,
                pagesz as int,
                sort_by@,
                page_token@,
            ),
            Err(f) => keyword@.len() == 0 && failure::is_client_failure(
                f,
                "--keyword is required for search"@,
            ),
        },
{
    if keyword.is_empty() {
        return Err(Failure::client_str("--keyword is required for search"));
    }
    let mut q = StringMap::new();
    insert_str(&mut q, "keyword", owned(keyword));
    insert_str(&mut q, "pager.page_token", owned(page_token));
    insert_str(&mut q, "pager.pagesz", i64_text(pagesz));
    insert_str(&mut q, "modalities", owned("image"));
    insert_str(&mut q, "sort_by", owned(sort_by));
    insert_str(&mut q, "is_like", owned("false"));
    insert_str(&mut q, "is_collect", owned("false"));
    Ok(q)
}

} // verus!
