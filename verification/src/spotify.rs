use vstd::prelude::*;

use crate::text::{clock_text, contains_text, occurs_in, push_clock, push_decimal, decimal};
use crate::url::{url_encoded, urlencoding_encode};

verus! {

/// An artist as the Web API describes it.
#[derive(Debug, Clone, PartialEq)]
pub struct Artist {
    pub id: String,
    pub name: String,
    pub uri: String,
}

/// An album as the Web API describes it.
#[derive(Debug, Clone, PartialEq)]
pub struct Album {
    pub id: String,
    pub name: String,
    pub uri: String,
}

/// A track with its artists and album.
#[derive(Debug, Clone, PartialEq)]
pub struct Track {
    pub id: String,
    pub name: String,
    pub artists: Vec<Artist>,
    pub album: Album,
    pub duration_ms: u64,
    pub uri: String,
}

/// The track count that a playlist listing reports.
#[derive(Debug, Clone, PartialEq)]
pub struct PlaylistTracksRef {
    pub total: u32,
}

/// A playlist of the user.
#[derive(Debug, Clone, PartialEq)]
pub struct Playlist {
    pub id: String,
    pub name: String,
    pub tracks: PlaylistTracksRef,
    pub uri: String,
}

/// A device that Spotify can play on.
#[derive(Debug, Clone, PartialEq)]
pub struct Device {
    pub id: String,
    pub name: String,
    pub volume_percent: Option<u8>,
    pub is_active: bool,
}

/// What the player is doing; `repeat_state` is `off`, `track` or `context`.
#[derive(Debug, Clone, PartialEq)]
pub struct PlaybackState {
    pub is_playing: bool,
    pub progress_ms: Option<u64>,
    pub item: Option<Track>,
    pub shuffle_state: bool,
    pub repeat_state: String,
    pub device: Option<Device>,
}

/// `parts` joined with `sep` between consecutive parts.
pub open spec fn joined(parts: Seq<Seq<char>>, sep: Seq<char>) -> Seq<char>
    decreases parts.len(),
{
    if parts.len() == 0 {
        seq![]
    } else if parts.len() == 1 {
        parts[0]
    } else {
        joined(parts.drop_last(), sep) + sep + parts.last()
    }
}

/// The names of the artists, in order.
pub open spec fn artist_name_seq(artists: Seq<Artist>) -> Seq<Seq<char>> {
    artists.map_values(|a: Artist| a.name@)
}

impl Track {
    /// The artists' names separated by `, `.
    pub fn artist_names(&self) -> (r: String)
        ensures
            r@ == joined(artist_name_seq(self.artists@), ", "@),
    {
        let ghost names = artist_name_seq(self.artists@);
        let mut r = String::new();
        let mut i: usize = 0;
        while i < self.artists.len()
            invariant
                names == artist_name_seq(self.artists@),
                i <= self.artists@.len(),
                r@ == joined(names.take(i as int), ", "@),
            decreases self.artists@.len() - i,
        {
            assert(names.take(i + 1).drop_last() =~= names.take(i as int));
            if i != 0 {
                r.append(", ");
            } else {
                assert(names.take(i as int) =~= Seq::<Seq<char>>::empty());
            }
            r.append(self.artists[i].name.as_str());
            i += 1;
        }
        assert(names.take(i as int) =~= names);
        r
    }

    /// The track's length as `m:ss`.
    pub fn duration_formatted(&self) -> (r: String)
        ensures
            r@ == clock_text((self.duration_ms / 1000) as nat),
    {
        let mut s = String::new();
        push_clock(&mut s, self.duration_ms / 1000);
        s
    }
}

/// A call of the Spotify Web API that the client can make.
#[derive(Debug, Clone, PartialEq)]
pub enum Request {
    GetPlayback,
    Play { uri: Option<String>, context_uri: Option<String> },
    Pause,
    Next,
    Previous,
    Seek { position_ms: u64 },
    SetVolume { volume: u8 },
    SetShuffle { state: bool },
    SetRepeat { state: String },
    GetPlaylists { limit: u32, offset: u32 },
    GetPlaylistTracks { playlist_id: String },
    GetLikedSongs { limit: u32, offset: u32 },
    Search { query: String },
}

/// The mathematical value of a request: strings as character sequences.
pub enum RequestView {
    GetPlayback,
    Play { uri: Option<Seq<char>>, context_uri: Option<Seq<char>> },
    Pause,
    Next,
    Previous,
    Seek { position_ms: u64 },
    SetVolume { volume: u8 },
    SetShuffle { state: bool },
    SetRepeat { state: Seq<char> },
    GetPlaylists { limit: u32, offset: u32 },
    GetPlaylistTracks { playlist_id: Seq<char> },
    GetLikedSongs { limit: u32, offset: u32 },
    Search { query: Seq<char> },
}

/// The characters of an optional string.
pub open spec fn opt_chars(s: Option<String>) -> Option<Seq<char>> {
    match s {
        Some(t) => Some(t@),
        None => None,
    }
}

impl View for Request {
    type V = RequestView;

    open spec fn view(&self) -> RequestView {
        match self {
            Request::GetPlayback => RequestView::GetPlayback,
            Request::Play { uri, context_uri } => RequestView::Play {
                uri: opt_chars(*uri),
                context_uri: opt_chars(*context_uri),
            },
            Request::Pause => RequestView::Pause,
            Request::Next => RequestView::Next,
            Request::Previous => RequestView::Previous,
            Request::Seek { position_ms } => RequestView::Seek { position_ms: *position_ms },
            Request::SetVolume { volume } => RequestView::SetVolume { volume: *volume },
            Request::SetShuffle { state } => RequestView::SetShuffle { state: *state },
            Request::SetRepeat { state } => RequestView::SetRepeat { state: state@ },
            Request::GetPlaylists { limit, offset } => RequestView::GetPlaylists {
                limit: *limit,
                offset: *offset,
            },
            Request::GetPlaylistTracks { playlist_id } => RequestView::GetPlaylistTracks {
                playlist_id: playlist_id@,
            },
            Request::GetLikedSongs { limit, offset } => RequestView::GetLikedSongs {
                limit: *limit,
                offset: *offset,
            },
            Request::Search { query } => RequestView::Search { query: query@ },
        }
    }
}

/// The HTTP method of an API call.
#[derive(Debug, Clone, Copy, PartialEq, Eq, Structural)]
pub enum Method {
    Get,
    Put,
    Post,
}

/// An HTTP call: method, URL and the JSON body, if any.
#[derive(Debug, Clone, PartialEq)]
pub struct ApiCall {
    pub method: Method,
    pub url: String,
    pub body: Option<String>,
}

/// JSON escape of one character inside a string literal.
pub open spec fn json_escape_char(c: char) -> Seq<char> {
    if c == '"' {
        seq!['\\', '"']
    } else if c == '\\' {
        seq!['\\', '\\']
    } else if c == '\u{8}' {
        seq!['\\', 'b']
    } else if c == '\t' {
        seq!['\\', 't']
    } else if c == '\n' {
        seq!['\\', 'n']
    } else if c == '\u{c}' {
        seq!['\\', 'f']
    } else if c == '\r' {
        seq!['\\', 'r']
    } else if (c as u32) < 0x20 {
        seq!['\\', 'u', '0', '0', hex_lower(((c as u32) / 16) as nat), hex_lower(((c as u32) % 16) as nat)]
    } else {
        seq![c]
    }
}

/// Lower-case hexadecimal digit for a value below sixteen.
pub open spec fn hex_lower(d: nat) -> char {
    if d < 10 {
        (48 + d) as char
    } else {
        (87 + d) as char
    }
}

/// The characters of `s`, each JSON-escaped.
pub open spec fn json_escaped(s: Seq<char>) -> Seq<char>
    decreases s.len(),
{
    if s.len() == 0 {
        seq![]
    } else {
        json_escape_char(s[0]) + json_escaped(s.drop_first())
    }
}

/// The compact JSON text of a string value: the escaped characters in quotes.
pub open spec fn json_string_literal(s: Seq<char>) -> Seq<char> {
    seq!['"'] + json_escaped(s) + seq!['"']
}

/// Calls `serde_json::Value::to_string` on `Value::String(s)`. As serde_json's
/// serializer shows, the text is `s` in double quotes, with `"` and `\\`
/// escaped by a backslash, the control characters that have a short escape
/// written with it and the other characters below U+0020 as `\\u00xx`.
#[verifier::external_body]
fn json_quote(s: &str) -> (r: String)
    ensures
        r@ == json_string_literal(s@),
{
    serde_json::Value::String(s.to_string()).to_string()
}

/// The JSON body of a play request: a single track to play, else a context
/// to play, else no body (resume).
pub open spec fn play_body_spec(uri: Option<Seq<char>>, context_uri: Option<Seq<char>>) -> Option<Seq<char>> {
    match (uri, context_uri) {
        (Some(u), _) => Some("{\"uris\":["@ + json_string_literal(u) + "]}"@),
        (None, Some(c)) => Some("{\"context_uri\":"@ + json_string_literal(c) + "}"@),
        (None, None) => None,
    }
}

/// Builds the body of a play request (see `play_body_spec`).
pub fn play_body(uri: Option<&str>, context_uri: Option<&str>) -> (r: Option<String>)
    ensures
        opt_chars(r) == play_body_spec(
            match uri { Some(u) => Some(u@), None => None },
            match context_uri { Some(c) => Some(c@), None => None },
        ),
{
    match (uri, context_uri) {
        (Some(u), _) => {
            let mut b = String::from_str("{\"uris\":[");
            b.append(json_quote(u).as_str());
            b.append("]}");
            Some(b)
        },
        (None, Some(c)) => {
            let mut b = String::from_str("{\"context_uri\":");
            b.append(json_quote(c).as_str());
            b.append("}");
            Some(b)
        },
        (None, None) => None,
    }
}

/// Text of a boolean as Rust's `Display` writes it.
pub open spec fn bool_text(b: bool) -> Seq<char> {
    if b {
        "true"@
    } else {
        "false"@
    }
}

/// The HTTP method of each request.
pub open spec fn request_method(r: RequestView) -> Method {
    match r {
        RequestView::GetPlayback => Method::Get,
        RequestView::GetPlaylists { .. } => Method::Get,
        RequestView::GetPlaylistTracks { .. } => Method::Get,
        RequestView::GetLikedSongs { .. } => Method::Get,
        RequestView::Search { .. } => Method::Get,
        RequestView::Next => Method::Post,
        RequestView::Previous => Method::Post,
        _ => Method::Put,
    }
}

/// The URL of each request.
pub open spec fn request_url(r: RequestView) -> Seq<char> {
    match r {
        RequestView::GetPlayback => "https://api.spotify.com/v1/me/player"@,
        RequestView::Play { .. } => "https://api.spotify.com/v1/me/player/play"@,
        RequestView::Pause => "https://api.spotify.com/v1/me/player/pause"@,
        RequestView::Next => "https://api.spotify.com/v1/me/player/next"@,
        RequestView::Previous => "https://api.spotify.com/v1/me/player/previous"@,
        RequestView::Seek { position_ms } =>
            "https://api.spotify.com/v1/me/player/seek?position_ms="@ + decimal(position_ms as nat),
        RequestView::SetVolume { volume } =>
            "https://api.spotify.com/v1/me/player/volume?volume_percent="@ + decimal(volume as nat),
        RequestView::SetShuffle { state } =>
            "https://api.spotify.com/v1/me/player/shuffle?state="@ + bool_text(state),
        RequestView::SetRepeat { state } =>
            "https://api.spotify.com/v1/me/player/repeat?state="@ + state,
        RequestView::GetPlaylists { limit, offset } =>
            "https://api.spotify.com/v1/me/playlists?limit="@ + decimal(limit as nat) + "&offset="@
                + decimal(offset as nat),
        RequestView::GetPlaylistTracks { playlist_id } =>
            "https://api.spotify.com/v1/playlists/"@ + playlist_id + "/tracks?limit=50"@,
        RequestView::GetLikedSongs { limit, offset } =>
            "https://api.spotify.com/v1/me/tracks?limit="@ + decimal(limit as nat) + "&offset="@
                + decimal(offset as nat),
        RequestView::Search { query } =>
            "https://api.spotify.com/v1/search?q="@ + url_encoded(query) + "&type=track&limit=20"@,
    }
}

/// The JSON body of each request: only a play request may carry one.
pub open spec fn request_body(r: RequestView) -> Option<Seq<char>> {
    match r {
        RequestView::Play { uri, context_uri } => play_body_spec(uri, context_uri),
        _ => None,
    }
}

impl Request {
    /// The HTTP call that performs this request.
    pub fn api_call(&self) -> (c: ApiCall)
        ensures
            c.method == request_method(self@),
            c.url@ == request_url(self@),
            opt_chars(c.body) == request_body(self@),
    {
        match self {
            Request::GetPlayback => ApiCall {
                method: Method::Get,
                url: String::from_str("https://api.spotify.com/v1/me/player"),
                body: None,
            },
            Request::Play { uri, context_uri } => {
                let u = match uri { Some(u) => Some(u.as_str()), None => None };
                let c = match context_uri { Some(c) => Some(c.as_str()), None => None };
                ApiCall {
                    method: Method::Put,
                    url: String::from_str("https://api.spotify.com/v1/me/player/play"),
                    body: play_body(u, c),
                }
            },
            Request::Pause => ApiCall {
                method: Method::Put,
                url: String::from_str("https://api.spotify.com/v1/me/player/pause"),
                body: None,
            },
            Request::Next => ApiCall {
                method: Method::Post,
                url: String::from_str("https://api.spotify.com/v1/me/player/next"),
                body: None,
            },
            Request::Previous => ApiCall {
                method: Method::Post,
                url: String::from_str("https://api.spotify.com/v1/me/player/previous"),
                body: None,
            },
            Request::Seek { position_ms } => {
                let mut u = String::from_str("https://api.spotify.com/v1/me/player/seek?position_ms=");
                push_decimal(&mut u, *position_ms);
                ApiCall { method: Method::Put, url: u, body: None }
            },
            Request::SetVolume { volume } => {
                let mut u = String::from_str(
                    "https://api.spotify.com/v1/me/player/volume?volume_percent=",
                );
                push_decimal(&mut u, *volume as u64);
                ApiCall { method: Method::Put, url: u, body: None }
            },
            Request::SetShuffle { state } => {
                let mut u = String::from_str("https://api.spotify.com/v1/me/player/shuffle?state=");
                if *state {
                    u.append("true");
                } else {
                    u.append("false");
                }
                ApiCall { method: Method::Put, url: u, body: None }
            },
            Request::SetRepeat { state } => {
                let mut u = String::from_str("https://api.spotify.com/v1/me/player/repeat?state=");
                u.append(state.as_str());
                ApiCall { method: Method::Put, url: u, body: None }
            },
            Request::GetPlaylists { limit, offset } => {
                let mut u = String::from_str("https://api.spotify.com/v1/me/playlists?limit=");
                push_decimal(&mut u, *limit as u64);
                u.append("&offset=");
                push_decimal(&mut u, *offset as u64);
                ApiCall { method: Method::Get, url: u, body: None }
            },
            Request::GetPlaylistTracks { playlist_id } => {
                let mut u = String::from_str("https://api.spotify.com/v1/playlists/");
                u.append(playlist_id.as_str());
                u.append("/tracks?limit=50");
                ApiCall { method: Method::Get, url: u, body: None }
            },
            Request::GetLikedSongs { limit, offset } => {
                let mut u = String::from_str("https://api.spotify.com/v1/me/tracks?limit=");
                push_decimal(&mut u, *limit as u64);
                u.append("&offset=");
                push_decimal(&mut u, *offset as u64);
                ApiCall { method: Method::Get, url: u, body: None }
            },
            Request::Search { query } => {
                let mut u = String::from_str("https://api.spotify.com/v1/search?q=");
                u.append(urlencoding_encode(query.as_str()).as_str());
                u.append("&type=track&limit=20");
                ApiCall { method: Method::Get, url: u, body: None }
            },
        }
    }
}

/// An HTTP status in the 2xx range.
pub open spec fn is_success_status(code: u16) -> bool {
    200 <= code <= 299
}

/// What a read (GET) does with the status of its response.
#[derive(Debug, Clone, Copy, PartialEq, Eq, Structural)]
pub enum ReadStatus {
    /// Parse the body as the expected JSON.
    Parse,
    /// 204: fail with the message `No content`.
    NoContent,
    /// Any other status outside 2xx: fail with the status and the body.
    Failed,
}

/// Classifies the status of a GET response: 204 first, then any other
/// status outside 2xx.
pub fn read_status(code: u16) -> (r: ReadStatus)
    ensures
        r == (if code == 204 {
            ReadStatus::NoContent
        } else if !is_success_status(code) {
            ReadStatus::Failed
        } else {
            ReadStatus::Parse
        }),
{
    if code == 204 {
        ReadStatus::NoContent
    } else if !(200 <= code && code <= 299) {
        ReadStatus::Failed
    } else {
        ReadStatus::Parse
    }
}

/// Whether a PUT or POST succeeded: a 2xx status or 204.
pub fn write_succeeded(code: u16) -> (r: bool)
    ensures
        r == (is_success_status(code) || code == 204),
{
    (200 <= code && code <= 299) || code == 204
}

/// The error message of a read answered with 204.
pub fn no_content_message() -> (r: String)
    ensures
        r@ == "No content"@,
{
    String::from_str("No content")
}

/// The error message of a failed call: `API error <status>: <body>`.
pub fn api_error_message(status: &str, body: &str) -> (r: String)
    ensures
        r@ == "API error "@ + status@ + ": "@ + body@,
{
    let mut m = String::from_str("API error ");
    m.append(status);
    m.append(": ");
    m.append(body);
    m
}

/// The `Authorization` header value for an access token.
pub fn auth_header(access_token: &str) -> (r: String)
    ensures
        r@ == "Bearer "@ + access_token@,
{
    let mut h = String::from_str("Bearer ");
    h.append(access_token);
    h
}

/// The playback lookup: a state read is `Some`; a failure whose message
/// holds `No content` means that nothing is playing; other failures stay.
pub fn playback_outcome(read: Result<PlaybackState, String>) -> (r: Result<Option<PlaybackState>, String>)
    ensures
        match read {
            Ok(state) => r == Ok::<Option<PlaybackState>, String>(Some(state)),
            Err(e) => if occurs_in("No content"@, e@) {
                r == Ok::<Option<PlaybackState>, String>(None)
            } else {
                r == Err::<Option<PlaybackState>, String>(e)
            },
        },
{
    match read {
        Ok(state) => Ok(Some(state)),
        Err(e) => {
            if contains_text(e.as_str(), "No content") {
                Ok(None)
            } else {
                Err(e)
            }
        },
    }
}

/// The tracks that are present, in order.
pub open spec fn present(items: Seq<Option<Track>>) -> Seq<Track>
    decreases items.len(),
{
    if items.len() == 0 {
        seq![]
    } else {
        let before = present(items.drop_last());
        match items.last() {
            Some(t) => before.push(t),
            None => before,
        }
    }
}

/// Keeps the playlist entries that hold a track (removed or local items
/// hold none), in order.
pub fn present_tracks(items: Vec<Option<Track>>) -> (r: Vec<Track>)
    ensures
        r@ == present(items@),
{
    let ghost all = items@;
    let mut r: Vec<Track> = Vec::new();
    for item in it: items.into_iter()
        invariant
            it.seq() == all,
            r@ == present(all.take(it.index() as int)),
    {
        let ghost i = it.index();
        assert(all.take(i + 1).drop_last() =~= all.take(i as int));
        match item {
            Some(t) => r.push(t),
            None => {},
        }
    }
    assert(all.take(all.len() as int) =~= all);
    r
}

} // verus!
