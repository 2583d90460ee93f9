use spotify_cli::spotify::{
    api_error_message, auth_header, no_content_message, play_body, playback_outcome,
    present_tracks, read_status, write_succeeded, Album, ApiCall, Artist, Method, PlaybackState,
    ReadStatus, Request, Track,
};

fn artist(name: &str) -> Artist {
    Artist { id: format!("id-{name}"), name: name.to_string(), uri: format!("spotify:artist:{name}") }
}

fn track(name: &str, artists: &[&str], ms: u64) -> Track {
    Track {
        id: format!("id-{name}"),
        name: name.to_string(),
        artists: artists.iter().map(|a| artist(a)).collect(),
        album: Album { id: "al".into(), name: "Album".into(), uri: "spotify:album:al".into() },
        duration_ms: ms,
        uri: format!("spotify:track:{name}"),
    }
}

fn playback() -> PlaybackState {
    PlaybackState {
        is_playing: true,
        progress_ms: Some(1000),
        item: None,
        shuffle_state: false,
        repeat_state: "off".into(),
        device: None,
    }
}

#[test]
fn artist_names_joined() {
    assert_eq!(track("t", &[], 0).artist_names(), "");
    assert_eq!(track("t", &["A"], 0).artist_names(), "A");
    assert_eq!(track("t", &["A", "B", "C"], 0).artist_names(), "A, B, C");
}

#[test]
fn duration_formatted_minutes_seconds() {
    assert_eq!(track("t", &[], 215_000).duration_formatted(), "3:35");
    assert_eq!(track("t", &[], 5_999).duration_formatted(), "0:05");
}

fn call(method: Method, url: &str, body: Option<&str>) -> ApiCall {
    ApiCall { method, url: url.to_string(), body: body.map(|b| b.to_string()) }
}

#[test]
fn player_calls() {
    assert_eq!(Request::GetPlayback.api_call(), call(Method::Get, "https://api.spotify.com/v1/me/player", None));
    assert_eq!(Request::Pause.api_call(), call(Method::Put, "https://api.spotify.com/v1/me/player/pause", None));
    assert_eq!(Request::Next.api_call(), call(Method::Post, "https://api.spotify.com/v1/me/player/next", None));
    assert_eq!(Request::Previous.api_call(), call(Method::Post, "https://api.spotify.com/v1/me/player/previous", None));
    assert_eq!(
        Request::Seek { position_ms: 90_000 }.api_call(),
        call(Method::Put, "https://api.spotify.com/v1/me/player/seek?position_ms=90000", None)
    );
    assert_eq!(
        Request::SetVolume { volume: 55 }.api_call(),
        call(Method::Put, "https://api.spotify.com/v1/me/player/volume?volume_percent=55", None)
    );
    assert_eq!(
        Request::SetShuffle { state: true }.api_call(),
        call(Method::Put, "https://api.spotify.com/v1/me/player/shuffle?state=true", None)
    );
    assert_eq!(
        Request::SetShuffle { state: false }.api_call(),
        call(Method::Put, "https://api.spotify.com/v1/me/player/shuffle?state=false", None)
    );
    assert_eq!(
        Request::SetRepeat { state: "context".into() }.api_call(),
        call(Method::Put, "https://api.spotify.com/v1/me/player/repeat?state=context", None)
    );
}

#[test]
fn play_calls_carry_json() {
    assert_eq!(
        Request::Play { uri: Some("spotify:track:1".into()), context_uri: None }.api_call(),
        call(Method::Put, "https://api.spotify.com/v1/me/player/play", Some("{\"uris\":[\"spotify:track:1\"]}"))
    );
    assert_eq!(
        Request::Play { uri: None, context_uri: Some("spotify:playlist:9".into()) }.api_call(),
        call(Method::Put, "https://api.spotify.com/v1/me/player/play", Some("{\"context_uri\":\"spotify:playlist:9\"}"))
    );
    assert_eq!(
        Request::Play { uri: None, context_uri: None }.api_call(),
        call(Method::Put, "https://api.spotify.com/v1/me/player/play", None)
    );
}

#[test]
fn play_body_escapes_json() {
    assert_eq!(play_body(Some("a\"b\\c\n\u{1}"), Some("ignored")), Some("{\"uris\":[\"a\\\"b\\\\c\\n\\u0001\"]}".to_string()));
    assert_eq!(play_body(Some("ç/"), None), Some("{\"uris\":[\"ç/\"]}".to_string()));
    assert_eq!(play_body(None, None), None);
}

#[test]
fn library_calls() {
    assert_eq!(
        Request::GetPlaylists { limit: 50, offset: 0 }.api_call(),
        call(Method::Get, "https://api.spotify.com/v1/me/playlists?limit=50&offset=0", None)
    );
    assert_eq!(
        Request::GetPlaylistTracks { playlist_id: "37i9".into() }.api_call(),
        call(Method::Get, "https://api.spotify.com/v1/playlists/37i9/tracks?limit=50", None)
    );
    assert_eq!(
        Request::GetLikedSongs { limit: 20, offset: 40 }.api_call(),
        call(Method::Get, "https://api.spotify.com/v1/me/tracks?limit=20&offset=40", None)
    );
    assert_eq!(
        Request::Search { query: "daft punk & co".into() }.api_call(),
        call(Method::Get, "https://api.spotify.com/v1/search?q=daft%20punk%20%26%20co&type=track&limit=20", None)
    );
}

#[test]
fn status_classification() {
    assert_eq!(read_status(200), ReadStatus::Parse);
    assert_eq!(read_status(299), ReadStatus::Parse);
    assert_eq!(read_status(204), ReadStatus::NoContent);
    assert_eq!(read_status(404), ReadStatus::Failed);
    assert_eq!(read_status(199), ReadStatus::Failed);
    assert!(write_succeeded(204));
    assert!(write_succeeded(202));
    assert!(!write_succeeded(401));
    assert!(!write_succeeded(300));
}

#[test]
fn error_messages() {
    assert_eq!(no_content_message(), "No content");
    assert_eq!(api_error_message("404 Not Found", "{}"), "API error 404 Not Found: {}");
    assert_eq!(auth_header("abc"), "Bearer abc");
}

#[test]
fn playback_outcome_cases() {
    assert_eq!(playback_outcome(Ok(playback())), Ok(Some(playback())));
    assert_eq!(playback_outcome(Err("No content".into())), Ok(None));
    assert_eq!(playback_outcome(Err("API error 500: No content here".into())), Ok(None));
    assert_eq!(playback_outcome(Err("API error 401: expired".into())), Err("API error 401: expired".to_string()));
}

#[test]
fn present_tracks_drops_missing() {
    let items = vec![Some(track("a", &[], 1)), None, Some(track("b", &[], 2)), None];
    let kept = present_tracks(items);
    assert_eq!(kept.len(), 2);
    assert_eq!(kept[0].name, "a");
    assert_eq!(kept[1].name, "b");
    assert!(present_tracks(vec![None, None]).is_empty());
}
