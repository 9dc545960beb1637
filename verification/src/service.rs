//! The compute core of the streaming-service clients: the track metadata
//! record, the OAuth request parameters, the classification of now-playing
//! responses, and the ISO-8601 duration parser.
use vstd::prelude::*;

verus! {

use vstd::string::StringExecFns;
use vstd::string::StrSliceExecFns;
use crate::strutil::is_digit_char;
use crate::strutil::digit_val;
use crate::token::ApiError;
use crate::token::Credentials;

/// Track metadata from a streaming service.
#[derive(Debug, Clone, PartialEq)]
pub struct TrackMetadata {
    pub title: String,
    pub artist: String,
    pub album: String,
    pub duration_ms: u64,
    pub is_playing: bool,
    pub progress_ms: Option<u64>,
}

/// The form fields of an authorization-code token exchange.
pub fn build_auth_code_params(credentials: &Credentials, auth_code: &str) -> (r: Vec<
    (String, String),
>)
    ensures
        r@.len() == 5,
        r@[0].0@ == "grant_type"@ && r@[0].1@ == "authorization_code"@,
        r@[1].0@ == "code"@ && r@[1].1@ == auth_code@,
        r@[2].0@ == "redirect_uri"@ && r@[2].1@ == credentials.redirect_uri@,
        r@[3].0@ == "client_id"@ && r@[3].1@ == credentials.client_id@,
        r@[4].0@ == "client_secret"@ && r@[4].1@ == credentials.client_secret@,
{
    let mut v: Vec<(String, String)> = Vec::new();
    v.push((String::from_str("grant_type"), String::from_str("authorization_code")));
    v.push((String::from_str("code"), String::from_str(auth_code)));
    v.push((String::from_str("redirect_uri"), credentials.redirect_uri.clone()));
    v.push((String::from_str("client_id"), credentials.client_id.clone()));
    v.push((String::from_str("client_secret"), credentials.client_secret.clone()));
    v
}

/// The form fields of a refresh-token exchange.
pub fn build_refresh_params(credentials: &Credentials, refresh_token: &str) -> (r: Vec<
    (String, String),
>)
    ensures
        r@.len() == 4,
        r@[0].0@ == "grant_type"@ && r@[0].1@ == "refresh_token"@,
        r@[1].0@ == "refresh_token"@ && r@[1].1@ == refresh_token@,
        r@[2].0@ == "client_id"@ && r@[2].1@ == credentials.client_id@,
        r@[3].0@ == "client_secret"@ && r@[3].1@ == credentials.client_secret@,
{
    let mut v: Vec<(String, String)> = Vec::new();
    v.push((String::from_str("grant_type"), String::from_str("refresh_token")));
    v.push((String::from_str("refresh_token"), String::from_str(refresh_token)));
    v.push((String::from_str("client_id"), credentials.client_id.clone()));
    v.push((String::from_str("client_secret"), credentials.client_secret.clone()));
    v
}

/// How a now-playing response is treated, by HTTP status.
#[derive(Debug, PartialEq, Eq, Structural)]
pub enum NowPlayingStatus {
    /// 204: nothing is playing; a normal state, not an error.
    NoContent,
    /// Any other success status: the body holds the playing track.
    ReadBody,
    /// 401: the access token has expired.
    Unauthorized,
    /// Any other failure status.
    Failed,
}

/// Classifies a now-playing HTTP status: 204 means no active playback, a
/// 2xx status carries a body, 401 asks for a token refresh, and anything
/// else is a network-level failure.
pub fn classify_now_playing_status(status: u16) -> (r: NowPlayingStatus)
    ensures
        status == 204 ==> r == NowPlayingStatus::NoContent,
        status != 204 && 200 <= status < 300 ==> r == NowPlayingStatus::ReadBody,
        status == 401 ==> r == NowPlayingStatus::Unauthorized,
        !(200 <= status < 300) && status != 401 ==> r == NowPlayingStatus::Failed,
{
    if status == 204 {
        NowPlayingStatus::NoContent
    } else if 200 <= status && status < 300 {
        NowPlayingStatus::ReadBody
    } else if status == 401 {
        NowPlayingStatus::Unauthorized
    } else {
        NowPlayingStatus::Failed
    }
}

/// The duration text with every leading `PT` marker removed.
pub open spec fn strip_pt(s: Seq<char>) -> Seq<char>
    decreases s.len(),
{
    if s.len() >= 2 && s[0] == 'P' && s[1] == 'T' {
        strip_pt(s.skip(2))
    } else {
        s
    }
}

/// One walk over a duration text: digits accumulate into the current
/// number, each of the unit letters H, M and S flushes it into its slot
/// (an empty or oversized number, or any other letter, is a format error),
/// and trailing digits without a unit letter are dropped.
pub open spec fn duration_scan(s: Seq<char>, cur: Option<int>, h: int, m: int, sec: int) -> Option<
    (int, int, int),
>
    decreases s.len(),
{
    if s.len() == 0 {
        Some((h, m, sec))
    } else {
        let c = s[0];
        if is_digit_char(c) {
            let base = match cur {
                None => 0,
                Some(x) => x,
            };
            duration_scan(s.skip(1), Some(base * 10 + digit_val(c)), h, m, sec)
        } else {
            match cur {
                None => None,
                Some(v) => {
                    if v > u64::MAX {
                        None
                    } else if c == 'H' {
                        duration_scan(s.skip(1), None, v, m, sec)
                    } else if c == 'M' {
                        duration_scan(s.skip(1), None, h, v, sec)
                    } else if c == 'S' {
                        duration_scan(s.skip(1), None, h, m, v)
                    } else {
                        None
                    }
                },
            }
        }
    }
}

/// What the duration parser returns: the milliseconds of an ISO-8601
/// `PT#H#M#S` duration, or nothing on a malformed text or a value out of
/// range.
pub open spec fn parse_duration_spec(s: Seq<char>) -> Option<int> {
    match duration_scan(strip_pt(s), None, 0, 0, 0) {
        Some((h, m, sec)) => {
            let ms = (h * 3600 + m * 60 + sec) * 1000;
            if ms <= u64::MAX {
                Some(ms)
            } else {
                None
            }
        },
        None => None,
    }
}

/// Parses an ISO-8601 duration (`PT#H#M#S`) into milliseconds; an
/// unrecognized unit letter, a unit without digits, or a value out of
/// `u64` range is a format error.
pub fn parse_duration(duration: &str) -> (r: Result<u64, ApiError>)
    ensures
        r matches Ok(v) ==> parse_duration_spec(duration@) == Some(v as int),
        r is Err <==> parse_duration_spec(duration@) is None,
        r matches Err(e) ==> e matches ApiError::ParseError(_),
{
    let n = duration.unicode_len();
    let mut i: usize = 0;
    proof {
        assert(duration@.skip(0) =~= duration@);
    }
    while i < n && i + 1 < n && duration.get_char(i) == 'P' && duration.get_char(i + 1) == 'T'
        invariant
            0 <= i <= n,
            n == duration@.len(),
            strip_pt(duration@) == strip_pt(duration@.skip(i as int)),
        decreases n - i,
    {
        proof {
            assert(duration@.skip(i as int)[0] == 'P');
            assert(duration@.skip(i as int)[1] == 'T');
            assert(duration@.skip(i as int).skip(2) =~= duration@.skip(i + 2));
        }
        i += 2;
    }
    proof {
        assert(strip_pt(duration@.skip(i as int)) == duration@.skip(i as int));
    }
    let mut cur: u64 = 0;
    let mut has_cur = false;
    let mut over = false;
    let ghost mut cur_spec: int = 0int;
    let mut hours: u64 = 0;
    let mut minutes: u64 = 0;
    let mut seconds: u64 = 0;
    let mut j: usize = i;
    while j < n
        invariant
            i <= j <= n,
            n == duration@.len(),
            has_cur ==> (over <==> cur_spec > u64::MAX),
            has_cur && !over ==> cur == cur_spec,
            has_cur ==> cur_spec >= 0,
            duration_scan(strip_pt(duration@), None, 0, 0, 0) == duration_scan(
                duration@.skip(j as int),
                if has_cur {
                    Some(cur_spec)
                } else {
                    None
                },
                hours as int,
                minutes as int,
                seconds as int,
            ),
        decreases n - j,
    {
        let c = duration.get_char(j);
        proof {
            assert(duration@.skip(j as int)[0] == c);
            assert(duration@.skip(j as int).skip(1) =~= duration@.skip(j + 1));
        }
        if '0' <= c && c <= '9' {
            let d: u64 = ((c as u32) - ('0' as u32)) as u64;
            proof {
                assert(is_digit_char(c));
                assert(d as int == digit_val(c));
            }
            let ghost base: int = if has_cur {
                cur_spec
            } else {
                0int
            };
            if !has_cur {
                cur = 0;
                over = false;
            }
            proof {
                cur_spec = base * 10 + d as int;
                if base > u64::MAX {
                    assert(base * 10 >= base) by (nonlinear_arith)
                        requires
                            base >= 0,
                    ;
                }
            }
            if !over {
                let step = match cur.checked_mul(10) {
                    Some(x) => x.checked_add(d),
                    None => None,
                };
                match step {
                    Some(v) => {
                        cur = v;
                    },
                    None => {
                        over = true;
                    },
                }
            }
            has_cur = true;
        } else {
            if !has_cur || over {
                proof {
                    assert(duration_scan(
                        duration@.skip(j as int),
                        if has_cur {
                            Some(cur_spec)
                        } else {
                            None
                        },
                        hours as int,
                        minutes as int,
                        seconds as int,
                    ) is None);
                }
                return Err(ApiError::ParseError(String::from_str("invalid duration number")));
            }
            if c == 'H' {
                hours = cur;
            } else if c == 'M' {
                minutes = cur;
            } else if c == 'S' {
                seconds = cur;
            } else {
                return Err(ApiError::ParseError(String::from_str("invalid duration format")));
            }
            has_cur = false;
            over = false;
            cur = 0;
            proof {
                cur_spec = 0int;
            }
        }
        j += 1;
    }
    proof {
        assert(duration@.skip(n as int) =~= Seq::<char>::empty());
    }
    let hm = match hours.checked_mul(3600) {
        Some(x) => x,
        None => {
            proof {
                lemma_total_ms_large(hours as int, minutes as int, seconds as int);
            }
            return Err(ApiError::ParseError(String::from_str("duration out of range")));
        },
    };
    let mm = match minutes.checked_mul(60) {
        Some(x) => x,
        None => {
            proof {
                lemma_total_ms_large(hours as int, minutes as int, seconds as int);
            }
            return Err(ApiError::ParseError(String::from_str("duration out of range")));
        },
    };
    let total = match hm.checked_add(mm) {
        Some(x) => match x.checked_add(seconds) {
            Some(y) => y,
            None => {
                proof {
                    lemma_total_ms_large(hours as int, minutes as int, seconds as int);
                }
                return Err(ApiError::ParseError(String::from_str("duration out of range")));
            },
        },
        None => {
            proof {
                lemma_total_ms_large(hours as int, minutes as int, seconds as int);
            }
            return Err(ApiError::ParseError(String::from_str("duration out of range")));
        },
    };
    match total.checked_mul(1000) {
        Some(ms) => Ok(ms),
        None => {
            proof {
                lemma_total_ms_large(hours as int, minutes as int, seconds as int);
            }
            Err(ApiError::ParseError(String::from_str("duration out of range")))
        },
    }
}

proof fn lemma_total_ms_large(h: int, m: int, sec: int)
    requires
        h >= 0,
        m >= 0,
        sec >= 0,
    ensures
        (h * 3600 + m * 60 + sec) * 1000 >= h * 3600 + m * 60 + sec,
        h * 3600 + m * 60 + sec >= h * 3600,
        h * 3600 + m * 60 + sec >= m * 60,
        h * 3600 + m * 60 + sec >= sec,
        h * 3600 + m * 60 + sec >= h * 3600 + m * 60,
{
    assert(h * 3600 >= 0 && m * 60 >= 0) by (nonlinear_arith)
        requires
            h >= 0,
            m >= 0,
    ;
    assert((h * 3600 + m * 60 + sec) * 1000 >= h * 3600 + m * 60 + sec) by (nonlinear_arith)
        requires
            h * 3600 + m * 60 + sec >= 0,
    ;
}

use crate::json::JsonValue;
use crate::json::lookup;
use crate::json::str_field;
use crate::json::u64_field;
use crate::json::bool_field;
use crate::json::opt_str_field;
use crate::token::Token;

/// Reads a token-endpoint response body into a `Token`: the access token,
/// token type and expiry are required, the refresh token and scope are
/// optional (absent or null reads as nothing).
pub fn parse_token_response(v: &JsonValue) -> (r: Result<Token, ApiError>)
    ensures
        r is Ok <==> (str_field(*v, "access_token"@) is Some && str_field(*v, "token_type"@)
            is Some && u64_field(*v, "expires_in"@) is Some && opt_str_field(
            *v,
            "refresh_token"@,
        ) is Some && opt_str_field(*v, "scope"@) is Some),
        r matches Ok(t) ==> str_field(*v, "access_token"@) == Some(t.access_token@) && str_field(
            *v,
            "token_type"@,
        ) == Some(t.token_type@) && u64_field(*v, "expires_in"@) == Some(t.expires_in)
            && opt_str_field(*v, "refresh_token"@) == Some(
            match t.refresh_token {
                Some(s) => Some(s@),
                None => None,
            },
        ) && opt_str_field(*v, "scope"@) == Some(
            match t.scope {
                Some(s) => Some(s@),
                None => None,
            },
        ),
        r matches Err(e) ==> e matches ApiError::ParseError(_),
{
    let access_token = match v.get("access_token") {
        Some(f) => match f.as_str() {
            Some(s) => s.clone(),
            None => {
                return Err(ApiError::ParseError(String::from_str("missing access_token")));
            },
        },
        None => {
            return Err(ApiError::ParseError(String::from_str("missing access_token")));
        },
    };
    let token_type = match v.get("token_type") {
        Some(f) => match f.as_str() {
            Some(s) => s.clone(),
            None => {
                return Err(ApiError::ParseError(String::from_str("missing token_type")));
            },
        },
        None => {
            return Err(ApiError::ParseError(String::from_str("missing token_type")));
        },
    };
    let expires_in = match v.get("expires_in") {
        Some(f) => match f.as_u64() {
            Some(n) => n,
            None => {
                return Err(ApiError::ParseError(String::from_str("missing expires_in")));
            },
        },
        None => {
            return Err(ApiError::ParseError(String::from_str("missing expires_in")));
        },
    };
    let refresh_token = match v.get("refresh_token") {
        None => None,
        Some(f) => match f {
            JsonValue::Null => None,
            JsonValue::Str(s) => Some(s.clone()),
            _ => {
                return Err(ApiError::ParseError(String::from_str("invalid refresh_token")));
            },
        },
    };
    let scope = match v.get("scope") {
        None => None,
        Some(f) => match f {
            JsonValue::Null => None,
            JsonValue::Str(s) => Some(s.clone()),
            _ => {
                return Err(ApiError::ParseError(String::from_str("invalid scope")));
            },
        },
    };
    Ok(Token { access_token, token_type, expires_in, refresh_token, scope })
}

/// The playing track's title in a now-playing body.
pub open spec fn now_playing_title(v: JsonValue) -> Option<Seq<char>> {
    match lookup(v, "item"@) {
        Some(item) => str_field(item, "name"@),
        None => None,
    }
}

/// The playing track's first artist name in a now-playing body.
pub open spec fn now_playing_artist(v: JsonValue) -> Option<Seq<char>> {
    match lookup(v, "item"@) {
        Some(item) => match lookup(item, "artists"@) {
            Some(JsonValue::Arr(a)) => if a@.len() > 0 {
                str_field(a@[0], "name"@)
            } else {
                None
            },
            _ => None,
        },
        None => None,
    }
}

/// The playing track's album name in a now-playing body.
pub open spec fn now_playing_album(v: JsonValue) -> Option<Seq<char>> {
    match lookup(v, "item"@) {
        Some(item) => match lookup(item, "album"@) {
            Some(album) => str_field(album, "name"@),
            None => None,
        },
        None => None,
    }
}

/// The playing track's duration in a now-playing body.
pub open spec fn now_playing_duration(v: JsonValue) -> Option<u64> {
    match lookup(v, "item"@) {
        Some(item) => u64_field(item, "duration_ms"@),
        None => None,
    }
}

/// Reads a now-playing body into track metadata: title, first artist,
/// album and duration are required under `item`; the playing flag defaults
/// to false and the progress is optional.
pub fn parse_now_playing(v: &JsonValue) -> (r: Result<TrackMetadata, ApiError>)
    ensures
        r is Ok <==> (now_playing_title(*v) is Some && now_playing_artist(*v) is Some
            && now_playing_album(*v) is Some && now_playing_duration(*v) is Some),
        r matches Ok(t) ==> now_playing_title(*v) == Some(t.title@) && now_playing_artist(*v)
            == Some(t.artist@) && now_playing_album(*v) == Some(t.album@) && now_playing_duration(
            *v,
        ) == Some(t.duration_ms) && t.is_playing == (bool_field(*v, "is_playing"@) == Some(true))
            && t.progress_ms == u64_field(*v, "progress_ms"@),
        r matches Err(e) ==> e matches ApiError::ParseError(_),
{
    let item = match v.get("item") {
        Some(f) => f,
        None => {
            return Err(ApiError::ParseError(String::from_str("Missing 'item' field")));
        },
    };
    let title = match item.get("name") {
        Some(f) => match f.as_str() {
            Some(s) => s.clone(),
            None => {
                return Err(ApiError::ParseError(String::from_str("Missing track name")));
            },
        },
        None => {
            return Err(ApiError::ParseError(String::from_str("Missing track name")));
        },
    };
    let artists = match item.get("artists") {
        Some(f) => match f.as_array() {
            Some(a) => a,
            None => {
                return Err(ApiError::ParseError(String::from_str("Missing artists")));
            },
        },
        None => {
            return Err(ApiError::ParseError(String::from_str("Missing artists")));
        },
    };
    if artists.len() == 0 {
        return Err(ApiError::ParseError(String::from_str("Missing artist name")));
    }
    let artist = match artists[0].get("name") {
        Some(f) => match f.as_str() {
            Some(s) => s.clone(),
            None => {
                return Err(ApiError::ParseError(String::from_str("Missing artist name")));
            },
        },
        None => {
            return Err(ApiError::ParseError(String::from_str("Missing artist name")));
        },
    };
    let album = match item.get("album") {
        Some(f) => match f.get("name") {
            Some(g) => match g.as_str() {
                Some(s) => s.clone(),
                None => {
                    return Err(ApiError::ParseError(String::from_str("Missing album name")));
                },
            },
            None => {
                return Err(ApiError::ParseError(String::from_str("Missing album name")));
            },
        },
        None => {
            return Err(ApiError::ParseError(String::from_str("Missing album name")));
        },
    };
    let duration_ms = match item.get("duration_ms") {
        Some(f) => match f.as_u64() {
            Some(n) => n,
            None => {
                return Err(ApiError::ParseError(String::from_str("Missing duration")));
            },
        },
        None => {
            return Err(ApiError::ParseError(String::from_str("Missing duration")));
        },
    };
    let is_playing = match v.get("is_playing") {
        Some(f) => match f.as_bool() {
            Some(b) => b,
            None => false,
        },
        None => false,
    };
    let progress_ms = match v.get("progress_ms") {
        Some(f) => f.as_u64(),
        None => None,
    };
    Ok(TrackMetadata { title, artist, album, duration_ms, is_playing, progress_ms })
}

/// The items array of a video-lookup body.
pub open spec fn video_items(v: JsonValue) -> Option<Seq<JsonValue>> {
    match lookup(v, "items"@) {
        Some(JsonValue::Arr(a)) => Some(a@),
        _ => None,
    }
}

/// The first item's title in a video-lookup body.
pub open spec fn video_title(v: JsonValue) -> Option<Seq<char>> {
    match video_items(v) {
        Some(items) => if items.len() > 0 {
            match lookup(items[0], "snippet"@) {
                Some(sn) => str_field(sn, "title"@),
                None => None,
            }
        } else {
            None
        },
        None => None,
    }
}

/// The first item's channel title in a video-lookup body.
pub open spec fn video_channel(v: JsonValue) -> Option<Seq<char>> {
    match video_items(v) {
        Some(items) => if items.len() > 0 {
            match lookup(items[0], "snippet"@) {
                Some(sn) => str_field(sn, "channelTitle"@),
                None => None,
            }
        } else {
            None
        },
        None => None,
    }
}

/// The first item's ISO-8601 duration text in a video-lookup body.
pub open spec fn video_duration_text(v: JsonValue) -> Option<Seq<char>> {
    match video_items(v) {
        Some(items) => if items.len() > 0 {
            match lookup(items[0], "contentDetails"@) {
                Some(cd) => str_field(cd, "duration"@),
                None => None,
            }
        } else {
            None
        },
        None => None,
    }
}

/// Reads a video-lookup body into track metadata: the channel title stands
/// for both artist and album, the ISO-8601 duration is parsed into
/// milliseconds, and an empty result set means nothing is playing (a
/// normal state, reported apart from parse failures).
pub fn parse_video_metadata(v: &JsonValue) -> (r: Result<TrackMetadata, ApiError>)
    ensures
        r is Ok <==> (video_title(*v) is Some && video_channel(*v) is Some && (video_duration_text(
            *v,
        ) matches Some(d) && parse_duration_spec(d) is Some)),
        r matches Ok(t) ==> video_title(*v) == Some(t.title@) && video_channel(*v) == Some(
            t.artist@,
        ) && t.album == t.artist && (video_duration_text(*v) matches Some(d)
            && parse_duration_spec(d) == Some(t.duration_ms as int)) && t.is_playing == false
            && t.progress_ms is None,
        (video_items(*v) matches Some(s) && s.len() == 0) ==> (r matches Err(e) && e matches ApiError::NoActivePlayback),
        r matches Err(e) ==> e matches ApiError::ParseError(_) || e matches ApiError::NoActivePlayback,
{
    let items = match v.get("items") {
        Some(f) => match f.as_array() {
            Some(a) => a,
            None => {
                return Err(ApiError::ParseError(String::from_str("Missing 'items' field")));
            },
        },
        None => {
            return Err(ApiError::ParseError(String::from_str("Missing 'items' field")));
        },
    };
    if items.len() == 0 {
        return Err(ApiError::NoActivePlayback);
    }
    let item = &items[0];
    let snippet = match item.get("snippet") {
        Some(f) => f,
        None => {
            return Err(ApiError::ParseError(String::from_str("Missing 'snippet' field")));
        },
    };
    let title = match snippet.get("title") {
        Some(f) => match f.as_str() {
            Some(s) => s.clone(),
            None => {
                return Err(ApiError::ParseError(String::from_str("Missing video title")));
            },
        },
        None => {
            return Err(ApiError::ParseError(String::from_str("Missing video title")));
        },
    };
    let channel = match snippet.get("channelTitle") {
        Some(f) => match f.as_str() {
            Some(s) => s.clone(),
            None => {
                return Err(ApiError::ParseError(String::from_str("Missing channel title")));
            },
        },
        None => {
            return Err(ApiError::ParseError(String::from_str("Missing channel title")));
        },
    };
    let content_details = match item.get("contentDetails") {
        Some(f) => f,
        None => {
            return Err(ApiError::ParseError(String::from_str("Missing 'contentDetails' field")));
        },
    };
    let duration_text = match content_details.get("duration") {
        Some(f) => match f.as_str() {
            Some(s) => s,
            None => {
                return Err(ApiError::ParseError(String::from_str("Missing duration")));
            },
        },
        None => {
            return Err(ApiError::ParseError(String::from_str("Missing duration")));
        },
    };
    let duration_ms = match parse_duration(duration_text.as_str()) {
        Ok(ms) => ms,
        Err(e) => {
            return Err(e);
        },
    };
    let artist = channel.clone();
    Ok(
        TrackMetadata {
            title,
            artist,
            album: channel,
            duration_ms,
            is_playing: false,
            progress_ms: None,
        },
    )
}

} // verus!
