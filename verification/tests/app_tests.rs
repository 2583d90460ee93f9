use spotify_cli::app::{App, Command, Mode, Panel, Pending, Reply, Then};
use spotify_cli::events::{Action, AppEvent, Key, KeyPress, MOD_NONE};
use spotify_cli::spotify::{
    Album, Device, PlaybackState, Playlist, PlaylistTracksRef, Request, Track,
};

fn track(name: &str) -> Track {
    Track {
        id: name.into(),
        name: name.into(),
        artists: vec![],
        album: Album { id: "a".into(), name: "A".into(), uri: "u".into() },
        duration_ms: 1000,
        uri: format!("spotify:track:{name}"),
    }
}

fn playlist(id: &str) -> Playlist {
    Playlist { id: id.into(), name: format!("List {id}"), tracks: PlaylistTracksRef { total: 3 }, uri: format!("spotify:playlist:{id}") }
}

fn playback(playing: bool, volume: Option<u8>, repeat: &str) -> PlaybackState {
    PlaybackState {
        is_playing: playing,
        progress_ms: Some(0),
        item: None,
        shuffle_state: false,
        repeat_state: repeat.into(),
        device: Some(Device { id: "d".into(), name: "Desk".into(), volume_percent: volume, is_active: true }),
    }
}

fn call(r: Request) -> Option<Command> {
    Some(Command::Call(r))
}

fn loaded() -> App {
    let mut app = App::new();
    app.playlists = vec![playlist("p0"), playlist("p1"), playlist("p2")];
    app.tracks = vec![track("t0"), track("t1")];
    app
}

#[test]
fn new_app_state() {
    let app = App::new();
    assert_eq!(app.panel, Panel::Playlists);
    assert_eq!(app.mode, Mode::Normal);
    assert!(app.playlists.is_empty() && app.tracks.is_empty() && app.search_results.is_empty());
    assert_eq!((app.playlist_index, app.track_index, app.search_index, app.tick_count), (0, 0, 0, 0));
    assert!(app.playback.is_none() && app.status_msg.is_none() && !app.should_quit);
    assert_eq!(app.pending, Pending::Idle);
}

#[test]
fn startup_loads_playlists_tracks_then_playback() {
    let mut app = App::new();
    assert_eq!(app.start(), call(Request::GetPlaylists { limit: 50, offset: 0 }));
    let next = app.handle_reply(Reply::Playlists(Ok(vec![playlist("p0"), playlist("p1")])));
    assert_eq!(next, call(Request::GetPlaylistTracks { playlist_id: "p0".into() }));
    assert_eq!(app.playlists.len(), 2);
    let next = app.handle_reply(Reply::Tracks(Ok(vec![track("t0")])));
    assert_eq!(next, call(Request::GetPlayback));
    assert_eq!(app.tracks.len(), 1);
    let next = app.handle_reply(Reply::Playback(Ok(Some(playback(true, Some(30), "off")))));
    assert_eq!(next, None);
    assert!(app.playback.is_some());
    assert_eq!(app.status_msg, None);
    assert_eq!(app.pending, Pending::Idle);
}

#[test]
fn startup_with_failures_reports_them() {
    let mut app = App::new();
    app.start();
    let next = app.handle_reply(Reply::Playlists(Err("boom".into())));
    assert_eq!(next, call(Request::GetPlayback));
    assert_eq!(app.status_msg.as_deref(), Some("Error loading playlists: boom"));
    assert_eq!(app.handle_reply(Reply::Playback(Err("x".into()))), None);
    assert!(app.playback.is_none());
}

#[test]
fn empty_playlists_skip_tracks() {
    let mut app = App::new();
    app.start();
    assert_eq!(app.handle_reply(Reply::Playlists(Ok(vec![]))), call(Request::GetPlayback));
}

#[test]
fn refresh_reports_when_done() {
    let mut app = loaded();
    assert_eq!(app.handle_action(Action::Refresh), call(Request::GetPlaylists { limit: 50, offset: 0 }));
    app.handle_reply(Reply::Playlists(Ok(vec![playlist("x")])));
    let next = app.handle_reply(Reply::Tracks(Err("denied".into())));
    assert_eq!(next, call(Request::GetPlayback));
    assert_eq!(app.status_msg.as_deref(), Some("Error loading tracks: denied"));
    assert_eq!(app.handle_reply(Reply::Playback(Ok(None))), None);
    assert_eq!(app.status_msg.as_deref(), Some("\u{2713} Refreshed"));
}

#[test]
fn tab_cycles_panels() {
    let mut app = loaded();
    assert_eq!(app.handle_action(Action::Tab), None);
    assert_eq!(app.panel, Panel::Tracks);
    app.handle_action(Action::Tab);
    assert_eq!(app.panel, Panel::Search);
    app.handle_action(Action::Tab);
    assert_eq!(app.panel, Panel::Playlists);
}

#[test]
fn playlist_navigation_loads_tracks() {
    let mut app = loaded();
    assert_eq!(app.handle_action(Action::NavUp), None);
    assert_eq!(app.handle_action(Action::NavDown), call(Request::GetPlaylistTracks { playlist_id: "p1".into() }));
    assert_eq!(app.playlist_index, 1);
    assert_eq!(app.pending, Pending::PlaylistTracks { then: Then::Stop });
    assert_eq!(app.handle_reply(Reply::Tracks(Ok(vec![track("x")]))), None);
    assert_eq!(app.tracks.len(), 1);
    app.handle_action(Action::NavDown);
    assert_eq!(app.handle_action(Action::NavDown), None);
    assert_eq!(app.playlist_index, 2);
    assert_eq!(app.handle_action(Action::NavUp), call(Request::GetPlaylistTracks { playlist_id: "p1".into() }));
}

#[test]
fn track_navigation_stays_in_list() {
    let mut app = loaded();
    app.handle_action(Action::NavRight);
    assert_eq!(app.panel, Panel::Tracks);
    app.handle_action(Action::NavDown);
    assert_eq!(app.track_index, 1);
    app.handle_action(Action::NavDown);
    assert_eq!(app.track_index, 1);
    app.handle_action(Action::NavUp);
    app.handle_action(Action::NavUp);
    assert_eq!(app.track_index, 0);
    app.handle_action(Action::NavLeft);
    assert_eq!(app.panel, Panel::Playlists);
    app.handle_action(Action::NavLeft);
    assert_eq!(app.panel, Panel::Playlists);
}

#[test]
fn select_plays_current_track() {
    let mut app = loaded();
    app.track_index = 1;
    assert_eq!(app.current_track_index(), 1);
    assert_eq!(app.current_tracks().len(), 2);
    let next = app.handle_action(Action::Select);
    assert_eq!(next, call(Request::Play { uri: Some("spotify:track:t1".into()), context_uri: None }));
    assert_eq!(app.handle_reply(Reply::Done(Ok(()))), call(Request::GetPlayback));
    assert_eq!(app.status_msg.as_deref(), Some("\u{25b6} Playing: t1"));
}

#[test]
fn select_failure_shows_error() {
    let mut app = loaded();
    app.handle_action(Action::Select);
    assert_eq!(app.handle_reply(Reply::Done(Err("Premium required".into()))), None);
    assert_eq!(app.status_msg.as_deref(), Some("Error: Premium required"));
}

#[test]
fn select_in_search_panel_and_out_of_range() {
    let mut app = loaded();
    app.panel = Panel::Search;
    assert_eq!(app.handle_action(Action::Select), None);
    app.search_results = vec![track("s0")];
    assert_eq!(app.current_tracks().len(), 1);
    assert_eq!(
        app.handle_action(Action::Select),
        call(Request::Play { uri: Some("spotify:track:s0".into()), context_uri: None })
    );
}

#[test]
fn toggle_play_pauses_or_resumes() {
    let mut app = loaded();
    assert_eq!(app.handle_action(Action::TogglePlay), None);
    app.playback = Some(playback(true, None, "off"));
    assert_eq!(app.handle_action(Action::TogglePlay), call(Request::Pause));
    assert_eq!(app.handle_reply(Reply::Done(Ok(()))), call(Request::GetPlayback));
    assert_eq!(app.status_msg.as_deref(), Some("\u{23f8} Paused"));
    app.playback = Some(playback(false, None, "off"));
    assert_eq!(app.handle_action(Action::TogglePlay), call(Request::Play { uri: None, context_uri: None }));
    assert_eq!(app.handle_reply(Reply::Done(Err("e".into()))), call(Request::GetPlayback));
    assert_eq!(app.status_msg.as_deref(), Some("Error: e"));
}

#[test]
fn skip_waits_before_refresh() {
    let mut app = loaded();
    assert_eq!(app.handle_action(Action::Next), call(Request::Next));
    assert_eq!(app.handle_reply(Reply::Done(Ok(()))), Some(Command::Wait { millis: 300 }));
    assert_eq!(app.status_msg.as_deref(), Some("\u{23ed} Next track"));
    assert_eq!(app.handle_reply(Reply::Waited), call(Request::GetPlayback));
    assert_eq!(app.handle_action(Action::Previous), call(Request::Previous));
    app.handle_reply(Reply::Done(Ok(())));
    assert_eq!(app.status_msg.as_deref(), Some("\u{23ee} Previous track"));
}

#[test]
fn volume_steps() {
    let mut app = loaded();
    assert_eq!(app.handle_action(Action::VolumeUp), None);
    app.playback = Some(playback(true, Some(98), "off"));
    assert_eq!(app.handle_action(Action::VolumeUp), call(Request::SetVolume { volume: 100 }));
    app.handle_reply(Reply::Done(Ok(())));
    assert_eq!(app.status_msg.as_deref(), Some("\u{1f50a} Volume: 100%"));
    app.playback = Some(playback(true, None, "off"));
    assert_eq!(app.handle_action(Action::VolumeUp), call(Request::SetVolume { volume: 55 }));
    assert_eq!(app.handle_action(Action::VolumeDown), call(Request::SetVolume { volume: 45 }));
    app.handle_reply(Reply::Done(Ok(())));
    assert_eq!(app.status_msg.as_deref(), Some("\u{1f509} Volume: 45%"));
    app.playback = Some(playback(true, Some(3), "off"));
    assert_eq!(app.handle_action(Action::VolumeDown), call(Request::SetVolume { volume: 0 }));
    let mut no_device = playback(true, Some(3), "off");
    no_device.device = None;
    app.playback = Some(no_device);
    assert_eq!(app.handle_action(Action::VolumeDown), None);
}

#[test]
fn shuffle_and_repeat_toggle() {
    let mut app = loaded();
    app.playback = Some(playback(true, None, "off"));
    assert_eq!(app.handle_action(Action::ToggleShuffle), call(Request::SetShuffle { state: true }));
    app.handle_reply(Reply::Done(Ok(())));
    assert_eq!(app.status_msg.as_deref(), Some("Shuffle: ON \u{21cc}"));
    assert_eq!(app.handle_action(Action::ToggleRepeat), call(Request::SetRepeat { state: "context".into() }));
    app.handle_reply(Reply::Done(Ok(())));
    assert_eq!(app.status_msg.as_deref(), Some("Repeat: context"));
    app.playback = Some(playback(true, None, "context"));
    assert_eq!(app.handle_action(Action::ToggleRepeat), call(Request::SetRepeat { state: "track".into() }));
    app.playback = Some(playback(true, None, "track"));
    assert_eq!(app.handle_action(Action::ToggleRepeat), call(Request::SetRepeat { state: "off".into() }));
    let mut pb = playback(true, None, "off");
    pb.shuffle_state = true;
    app.playback = Some(pb);
    assert_eq!(app.handle_action(Action::ToggleShuffle), call(Request::SetShuffle { state: false }));
    app.handle_reply(Reply::Done(Ok(())));
    assert_eq!(app.status_msg.as_deref(), Some("Shuffle: OFF"));
}

#[test]
fn search_typing() {
    let mut app = loaded();
    assert_eq!(app.handle_action(Action::Char('a')), None);
    assert_eq!(app.search_query, "");
    app.handle_action(Action::Search);
    assert_eq!((app.panel, app.mode), (Panel::Search, Mode::Searching));
    assert_eq!(app.handle_action(Action::Char('d')), None);
    assert_eq!(app.handle_action(Action::Char('a')), call(Request::Search { query: "da".into() }));
    assert_eq!(app.handle_reply(Reply::SearchResults(Ok(vec![track("r0"), track("r1")]))), None);
    assert_eq!(app.search_results.len(), 2);
    app.handle_action(Action::NavDown);
    assert_eq!(app.search_index, 1);
    app.handle_action(Action::Char('f'));
    app.handle_reply(Reply::SearchResults(Err("rate limited".into())));
    assert_eq!(app.status_msg.as_deref(), Some("Search error: rate limited"));
    assert_eq!(app.handle_action(Action::Backspace), call(Request::Search { query: "da".into() }));
    app.handle_reply(Reply::SearchResults(Err("quiet".into())));
    assert_eq!(app.status_msg.as_deref(), Some("Search error: rate limited"));
    app.handle_action(Action::Escape);
    assert_eq!(app.mode, Mode::Normal);
    assert_eq!(app.panel, Panel::Search);
}

#[test]
fn multibyte_character_triggers_search() {
    let mut app = loaded();
    app.handle_action(Action::Search);
    assert_eq!(app.handle_action(Action::Char('é')), call(Request::Search { query: "é".into() }));
}

#[test]
fn erasing_the_query_clears_results() {
    let mut app = loaded();
    app.handle_action(Action::Search);
    app.handle_action(Action::Char('x'));
    app.search_results = vec![track("r0"), track("r1"), track("r2")];
    app.search_index = 2;
    assert_eq!(app.handle_action(Action::Backspace), None);
    assert!(app.search_results.is_empty());
    assert_eq!(app.search_query, "");
    assert_eq!(app.search_index, 2);
    assert_eq!(app.handle_action(Action::Backspace), None);
}

#[test]
fn quit_sets_flag() {
    let mut app = loaded();
    assert_eq!(app.handle_action(Action::Quit), None);
    assert!(app.should_quit);
}

#[test]
fn unexpected_reply_only_ends_wait() {
    let mut app = loaded();
    app.handle_action(Action::Next);
    assert_eq!(app.handle_reply(Reply::Tracks(Ok(vec![]))), None);
    assert_eq!(app.pending, Pending::Idle);
    assert_eq!(app.tracks.len(), 2);
}

#[test]
fn ticks_poll_and_clear() {
    let mut app = loaded();
    app.status_msg = Some("hello".into());
    for i in 1..=11 {
        assert_eq!(app.on_tick(), None, "tick {i}");
    }
    assert_eq!(app.on_tick(), call(Request::GetPlayback));
    assert_eq!(app.tick_count, 12);
    assert_eq!(app.status_msg.as_deref(), Some("hello"));
    app.handle_reply(Reply::Playback(Ok(None)));
    for _ in 13..=15 {
        app.on_tick();
    }
    assert!(app.status_msg.is_some());
    app.on_tick();
    assert!(app.status_msg.is_none());
    assert_eq!(app.tick_count, 16);
}

#[test]
fn events_route_to_actions() {
    let mut app = loaded();
    let key = |c| AppEvent::Key(KeyPress { code: Key::Char(c), modifiers: MOD_NONE });
    assert_eq!(app.on_event(key('l')), None);
    assert_eq!(app.panel, Panel::Tracks);
    assert_eq!(app.on_event(AppEvent::Key(KeyPress { code: Key::Other, modifiers: MOD_NONE })), None);
    assert_eq!(app.on_event(AppEvent::Tick), None);
    assert_eq!(app.tick_count, 1);
    app.on_event(key('q'));
    assert!(app.should_quit);
}

#[test]
fn type_then_erase_restores_query() {
    let mut app = loaded();
    app.handle_action(Action::Search);
    app.handle_action(Action::Char('a'));
    app.handle_action(Action::Char('b'));
    app.handle_action(Action::Backspace);
    assert_eq!(app.search_query, "a");
}

#[test]
fn selection_stays_in_range_after_reload() {
    let mut app = loaded();
    app.playlist_index = 2;
    app.track_index = 1;
    app.handle_action(Action::Refresh);
    app.handle_reply(Reply::Playlists(Ok(vec![playlist("only")])));
    assert_eq!(app.playlist_index, 0);
    app.handle_reply(Reply::Tracks(Ok(vec![])));
    assert_eq!(app.track_index, 0);
}

#[test]
fn waits_exactly_when_work_was_asked() {
    let mut app = loaded();
    app.playback = Some(playback(true, Some(40), "off"));
    let actions = [
        Action::Tab, Action::NavDown, Action::NavUp, Action::Select, Action::TogglePlay,
        Action::Next, Action::VolumeUp, Action::ToggleShuffle, Action::Search, Action::Char('a'),
        Action::Char('b'), Action::Backspace, Action::Escape, Action::Refresh, Action::Quit,
    ];
    for a in actions {
        let cmd = app.handle_action(a);
        assert_eq!(cmd.is_none(), app.pending == Pending::Idle, "{a:?}");
    }
}

#[test]
fn volume_steps_undo_each_other() {
    let mut app = loaded();
    app.playback = Some(playback(true, Some(60), "off"));
    assert_eq!(app.handle_action(Action::VolumeUp), call(Request::SetVolume { volume: 65 }));
    app.playback = Some(playback(true, Some(65), "off"));
    assert_eq!(app.handle_action(Action::VolumeDown), call(Request::SetVolume { volume: 60 }));
}
