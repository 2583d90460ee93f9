use spotify_cli::app::{App, Mode, Panel};
use spotify_cli::spotify::{Album, Artist, Device, PlaybackState, Playlist, PlaylistTracksRef, Track};
use spotify_cli::ui::{
    player_view, playing_uri, playlist_count_label, search_row, search_selection, search_title,
    shows_search, status_text, track_row, tracks_title,
};

fn track(name: &str, ms: u64) -> Track {
    Track {
        id: "i".into(),
        name: name.into(),
        artists: vec![
            Artist { id: "a".into(), name: "Alpha".into(), uri: "ua".into() },
            Artist { id: "b".into(), name: "Beta".into(), uri: "ub".into() },
        ],
        album: Album { id: "al".into(), name: "A very long album name indeed".into(), uri: "u".into() },
        duration_ms: ms,
        uri: format!("spotify:track:{name}"),
    }
}

fn state(volume: Option<u8>, item: Option<Track>) -> PlaybackState {
    PlaybackState {
        is_playing: false,
        progress_ms: Some(61_000),
        item,
        shuffle_state: true,
        repeat_state: "track".into(),
        device: Some(Device { id: "d".into(), name: "Living room speaker".into(), volume_percent: volume, is_active: true }),
    }
}

#[test]
fn track_rows() {
    let t = track("Song", 125_000);
    let r = track_row(&t, 0, "spotify:track:Song");
    assert!(r.is_current);
    assert_eq!(r.number, " \u{25b6}   1  ");
    assert_eq!(r.name, "Song");
    assert_eq!(r.artists, "Alpha, Beta");
    assert_eq!(r.album, "A very long album\u{2026}");
    assert_eq!(r.duration, "  2:05");
    let r = track_row(&t, 41, "");
    assert!(!r.is_current);
    assert_eq!(r.number, "    42  ");
    assert_eq!(track_row(&t, 999, "").number, "   1000  ");
}

#[test]
fn search_rows_and_titles() {
    let t = track("Song", 1);
    let r = search_row(&t, "x");
    assert_eq!(r.marker, "   ");
    assert_eq!(search_row(&t, "spotify:track:Song").marker, " \u{25b6} ");
    assert_eq!(r.album, "A very long album n\u{2026}");
    assert_eq!(search_title("abba", 0), " No results for \"abba\" ");
    assert_eq!(search_title("", 0), " Results ");
    assert_eq!(search_title("abba", 12), " 12 results ");
    assert_eq!(search_selection(0, 3), None);
    assert_eq!(search_selection(4, 3), Some(3));
}

#[test]
fn panel_texts() {
    let mut app = App::new();
    assert_eq!(tracks_title(&app), "  Tracks ");
    app.playlists = vec![Playlist { id: "p".into(), name: "Chill".into(), tracks: PlaylistTracksRef { total: 7 }, uri: "u".into() }];
    assert_eq!(tracks_title(&app), "  Chill ");
    assert_eq!(playlist_count_label(7), " (7)");
    assert!(!shows_search(&app));
    app.mode = Mode::Searching;
    assert!(shows_search(&app));
    app.mode = Mode::Normal;
    app.panel = Panel::Search;
    assert!(shows_search(&app));
    assert_eq!(status_text(&app), "Ready  \u{2022}  +/- volume  \u{2022}  s shuffle  \u{2022}  r repeat  \u{2022}  R refresh  \u{2022}  / search");
    app.status_msg = Some("hi".into());
    assert_eq!(status_text(&app), "hi");
    assert_eq!(playing_uri(&app), "");
    app.playback = Some(state(None, Some(track("Now", 1))));
    assert_eq!(playing_uri(&app), "spotify:track:Now");
}

#[test]
fn player_bar() {
    let v = player_view(&state(Some(35), Some(track("Now playing something long", 200_000))));
    assert_eq!(v.track, Some(("Now playing something long".to_string(), "Alpha, Beta".to_string())));
    assert!(v.shuffle_on && v.repeat_on);
    assert_eq!(v.play_icon, "\u{25b6}");
    assert_eq!(v.repeat_icon, "\u{21ba}\u{b9}");
    assert_eq!(v.progress.as_deref(), Some("1:01 / 3:20"));
    assert_eq!((v.volume, v.volume_filled, v.volume_empty), (35, 3, 1));
    assert_eq!(v.device, "Living room speaker");
    let mut s = state(None, None);
    s.is_playing = true;
    s.repeat_state = "off".into();
    s.device = None;
    let v = player_view(&s);
    assert_eq!(v.track, None);
    assert!(!v.repeat_on);
    assert_eq!(v.play_icon, "\u{23f8}");
    assert_eq!(v.repeat_icon, "\u{21ba}");
    assert_eq!(v.progress, None);
    assert_eq!((v.volume, v.volume_filled, v.volume_empty), (0, 0, 10));
    assert_eq!(v.device, "No device");
}
