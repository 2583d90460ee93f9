use vstd::prelude::*;
use vstd::utf8::encode_utf8;

use crate::events::{binding, key_to_action, Action, AppEvent};
use crate::spotify::{opt_chars, PlaybackState, Playlist, Request, RequestView, Track};
use crate::text::{decimal, push_decimal, same_text};

verus! {

/// The panel that has the focus.
#[derive(Debug, Clone, Copy, PartialEq, Eq, Structural)]
pub enum Panel {
    Playlists,
    Tracks,
    Search,
}

/// Whether typed characters go to the search query.
#[derive(Debug, Clone, Copy, PartialEq, Eq, Structural)]
pub enum Mode {
    Normal,
    Searching,
}

/// What follows a load of the playlists or of a playlist's tracks.
#[derive(Debug, Clone, Copy, PartialEq, Eq, Structural)]
pub enum Then {
    /// Nothing.
    Stop,
    /// A playback refresh; with `report`, the status then says so.
    RefreshPlayback { report: bool },
}

/// The reply that the app waits for, and what it does with it.
#[derive(Debug, Clone, PartialEq)]
pub enum Pending {
    /// Nothing is awaited.
    Idle,
    /// The user's playlists.
    Playlists { then: Then },
    /// The tracks of the selected playlist.
    PlaylistTracks { then: Then },
    /// The playback state; with `report`, the status then says that the
    /// data was refreshed.
    Playback { report: bool },
    /// The start of a track named `name`.
    PlayTrack { name: String },
    /// A player command; `done` is the status on success. The playback
    /// state is refreshed afterwards.
    Control { done: String },
    /// A skip to the next or previous track; `done` is the status on
    /// success. The app waits a moment before refreshing the playback.
    Skip { done: String },
    /// The pause after a skip.
    Settle,
    /// Search results; with `report_errors`, a failure shows in the status.
    Search { report_errors: bool },
}

/// The mathematical value of `Pending`.
pub enum PendingView {
    Idle,
    Playlists { then: Then },
    PlaylistTracks { then: Then },
    Playback { report: bool },
    PlayTrack { name: Seq<char> },
    Control { done: Seq<char> },
    Skip { done: Seq<char> },
    Settle,
    Search { report_errors: bool },
}

impl View for Pending {
    type V = PendingView;

    open spec fn view(&self) -> PendingView {
        match self {
            Pending::Idle => PendingView::Idle,
            Pending::Playlists { then } => PendingView::Playlists { then: *then },
            Pending::PlaylistTracks { then } => PendingView::PlaylistTracks { then: *then },
            Pending::Playback { report } => PendingView::Playback { report: *report },
            Pending::PlayTrack { name } => PendingView::PlayTrack { name: name@ },
            Pending::Control { done } => PendingView::Control { done: done@ },
            Pending::Skip { done } => PendingView::Skip { done: done@ },
            Pending::Settle => PendingView::Settle,
            Pending::Search { report_errors } => PendingView::Search {
                report_errors: *report_errors,
            },
        }
    }
}

/// Outside work that the app asks for: an API call, or a pause.
#[derive(Debug, Clone, PartialEq)]
pub enum Command {
    Call(Request),
    Wait { millis: u64 },
}

/// The mathematical value of `Command`.
pub enum CommandView {
    Call(RequestView),
    Wait { millis: u64 },
}

impl View for Command {
    type V = CommandView;

    open spec fn view(&self) -> CommandView {
        match self {
            Command::Call(r) => CommandView::Call(r@),
            Command::Wait { millis } => CommandView::Wait { millis: *millis },
        }
    }
}

/// The value of an optional command.
pub open spec fn command_view(c: Option<Command>) -> Option<CommandView> {
    match c {
        Some(c) => Some(c@),
        None => None,
    }
}

/// The outcome of a command; errors are the failure's message.
#[derive(Debug, PartialEq)]
pub enum Reply {
    Playlists(Result<Vec<Playlist>, String>),
    Tracks(Result<Vec<Track>, String>),
    Playback(Result<Option<PlaybackState>, String>),
    Done(Result<(), String>),
    SearchResults(Result<Vec<Track>, String>),
    Waited,
}

/// The mathematical value of `Reply`.
pub enum ReplyView {
    Playlists(Result<Seq<Playlist>, Seq<char>>),
    Tracks(Result<Seq<Track>, Seq<char>>),
    Playback(Result<Option<PlaybackState>, Seq<char>>),
    Done(Result<(), Seq<char>>),
    SearchResults(Result<Seq<Track>, Seq<char>>),
    Waited,
}

impl View for Reply {
    type V = ReplyView;

    open spec fn view(&self) -> ReplyView {
        match self {
            Reply::Playlists(r) => ReplyView::Playlists(
                match r {
                    Ok(p) => Ok(p@),
                    Err(e) => Err(e@),
                },
            ),
            Reply::Tracks(r) => ReplyView::Tracks(
                match r {
                    Ok(t) => Ok(t@),
                    Err(e) => Err(e@),
                },
            ),
            Reply::Playback(r) => ReplyView::Playback(
                match r {
                    Ok(p) => Ok(*p),
                    Err(e) => Err(e@),
                },
            ),
            Reply::Done(r) => ReplyView::Done(
                match r {
                    Ok(_) => Ok(()),
                    Err(e) => Err(e@),
                },
            ),
            Reply::SearchResults(r) => ReplyView::SearchResults(
                match r {
                    Ok(t) => Ok(t@),
                    Err(e) => Err(e@),
                },
            ),
            Reply::Waited => ReplyView::Waited,
        }
    }
}

/// The state of the client's screen and of the work in flight.
pub struct App {
    pub panel: Panel,
    pub mode: Mode,
    pub playlists: Vec<Playlist>,
    pub playlist_index: usize,
    pub tracks: Vec<Track>,
    pub track_index: usize,
    pub search_query: String,
    pub search_results: Vec<Track>,
    pub search_index: usize,
    pub playback: Option<PlaybackState>,
    pub status_msg: Option<String>,
    pub should_quit: bool,
    pub tick_count: u64,
    pub pending: Pending,
}

/// The mathematical value of `App`.
#[verifier::ext_equal]
pub struct AppView {
    pub panel: Panel,
    pub mode: Mode,
    pub playlists: Seq<Playlist>,
    pub playlist_index: usize,
    pub tracks: Seq<Track>,
    pub track_index: usize,
    pub search_query: Seq<char>,
    pub search_results: Seq<Track>,
    pub search_index: usize,
    pub playback: Option<PlaybackState>,
    pub status_msg: Option<Seq<char>>,
    pub should_quit: bool,
    pub tick_count: u64,
    pub pending: PendingView,
}

impl View for App {
    type V = AppView;

    open spec fn view(&self) -> AppView {
        AppView {
            panel: self.panel,
            mode: self.mode,
            playlists: self.playlists@,
            playlist_index: self.playlist_index,
            tracks: self.tracks@,
            track_index: self.track_index,
            search_query: self.search_query@,
            search_results: self.search_results@,
            search_index: self.search_index,
            playback: self.playback,
            status_msg: opt_chars(self.status_msg),
            should_quit: self.should_quit,
            tick_count: self.tick_count,
            pending: self.pending@,
        }
    }
}

/// How many playlists one load asks for.
pub const PLAYLIST_PAGE: u32 = 50;

/// The pause between a skip and the playback refresh, in milliseconds.
pub const SKIP_SETTLE_MS: u64 = 300;

/// Every how many ticks the playback state is refreshed.
pub const PLAYBACK_POLL_TICKS: u64 = 12;

/// Every how many ticks the status message is cleared.
pub const STATUS_CLEAR_TICKS: u64 = 16;

/// The state of a fresh client.
pub open spec fn initial_view() -> AppView {
    AppView {
        panel: Panel::Playlists,
        mode: Mode::Normal,
        playlists: seq![],
        playlist_index: 0,
        tracks: seq![],
        track_index: 0,
        search_query: seq![],
        search_results: seq![],
        search_index: 0,
        playback: None,
        status_msg: None,
        should_quit: false,
        tick_count: 0,
        pending: PendingView::Idle,
    }
}

/// The state with the given status message.
pub open spec fn with_status(s: AppView, msg: Seq<char>) -> AppView {
    AppView { status_msg: Some(msg), ..s }
}

/// The state awaiting nothing.
pub open spec fn idle(s: AppView) -> AppView {
    AppView { pending: PendingView::Idle, ..s }
}

/// Tab order of the panels.
pub open spec fn next_panel(p: Panel) -> Panel {
    match p {
        Panel::Playlists => Panel::Tracks,
        Panel::Tracks => Panel::Search,
        Panel::Search => Panel::Playlists,
    }
}

/// The step that follows a load.
pub open spec fn continue_with(s: AppView, then: Then) -> (AppView, Option<CommandView>) {
    match then {
        Then::Stop => (idle(s), None),
        Then::RefreshPlayback { report } => (
            AppView { pending: PendingView::Playback { report }, ..s },
            Some(CommandView::Call(RequestView::GetPlayback)),
        ),
    }
}

/// Loads the tracks of the selected playlist, if a playlist is selected.
pub open spec fn load_selected_tracks(s: AppView, then: Then) -> (AppView, Option<CommandView>) {
    if s.playlist_index < s.playlists.len() {
        (
            AppView { pending: PendingView::PlaylistTracks { then }, ..s },
            Some(
                CommandView::Call(
                    RequestView::GetPlaylistTracks {
                        playlist_id: s.playlists[s.playlist_index as int].id@,
                    },
                ),
            ),
        )
    } else {
        continue_with(s, then)
    }
}

/// A player command whose status on success is `done`.
pub open spec fn control(s: AppView, done: Seq<char>, r: RequestView) -> (AppView, Option<CommandView>) {
    (AppView { pending: PendingView::Control { done }, ..s }, Some(CommandView::Call(r)))
}

/// Volume after a step up: five more, at most 100.
pub open spec fn volume_up(v: u8) -> u8 {
    if v + 5 > 100 {
        100
    } else {
        (v + 5) as u8
    }
}

/// Volume after a step down: five less, at least 0.
pub open spec fn volume_down(v: u8) -> u8 {
    if v < 5 {
        0
    } else {
        (v - 5) as u8
    }
}

/// The volume that a device reports, 50 when it reports none.
pub open spec fn reported_volume(v: Option<u8>) -> u8 {
    match v {
        Some(v) => v,
        None => 50,
    }
}

/// The status after a volume change to `v`, with the given icon.
pub open spec fn volume_message(icon: Seq<char>, v: u8) -> Seq<char> {
    icon + "Volume: "@ + decimal(v as nat) + seq!['%']
}

/// The repeat mode that follows `state`: off, context, track, off again.
pub open spec fn next_repeat(state: Seq<char>) -> Seq<char> {
    if state == "off"@ {
        "context"@
    } else if state == "context"@ {
        "track"@
    } else {
        "off"@
    }
}

/// The status after the shuffle was set to `on`.
pub open spec fn shuffle_message(on: bool) -> Seq<char> {
    if on {
        "Shuffle: ON \u{21cc}"@
    } else {
        "Shuffle: OFF"@
    }
}

/// Length of the UTF-8 encoding of a text, as `String::len` counts it.
pub open spec fn byte_len(s: Seq<char>) -> usize {
    encode_utf8(s).len() as usize
}

/// What an action does to the state, and the work it asks for.
pub open spec fn action_result(s: AppView, a: Action) -> (AppView, Option<CommandView>) {
    let i = idle(s);
    match a {
        Action::Quit => (AppView { should_quit: true, ..i }, None),
        Action::Tab => (AppView { panel: next_panel(s.panel), ..i }, None),
        Action::NavUp => match s.panel {
            Panel::Playlists => if s.playlist_index > 0 {
                load_selected_tracks(
                    AppView { playlist_index: (s.playlist_index - 1) as usize, ..i },
                    Then::Stop,
                )
            } else {
                (i, None)
            },
            Panel::Tracks => if s.track_index > 0 {
                (AppView { track_index: (s.track_index - 1) as usize, ..i }, None)
            } else {
                (i, None)
            },
            Panel::Search => if s.search_index > 0 {
                (AppView { search_index: (s.search_index - 1) as usize, ..i }, None)
            } else {
                (i, None)
            },
        },
        Action::NavDown => match s.panel {
            Panel::Playlists => if s.playlist_index + 1 < s.playlists.len() {
                load_selected_tracks(
                    AppView { playlist_index: (s.playlist_index + 1) as usize, ..i },
                    Then::Stop,
                )
            } else {
                (i, None)
            },
            Panel::Tracks => if s.track_index + 1 < s.tracks.len() {
                (AppView { track_index: (s.track_index + 1) as usize, ..i }, None)
            } else {
                (i, None)
            },
            Panel::Search => if s.search_index + 1 < s.search_results.len() {
                (AppView { search_index: (s.search_index + 1) as usize, ..i }, None)
            } else {
                (i, None)
            },
        },
        Action::NavLeft => if s.panel == Panel::Tracks || s.panel == Panel::Search {
            (AppView { panel: Panel::Playlists, ..i }, None)
        } else {
            (i, None)
        },
        Action::NavRight => if s.panel == Panel::Playlists {
            (AppView { panel: Panel::Tracks, ..i }, None)
        } else {
            (i, None)
        },
        Action::Select => {
            let list = if s.panel == Panel::Search {
                s.search_results
            } else {
                s.tracks
            };
            let k = if s.panel == Panel::Search {
                s.search_index
            } else {
                s.track_index
            };
            if k < list.len() {
                (
                    AppView { pending: PendingView::PlayTrack { name: list[k as int].name@ }, ..s },
                    Some(
                        CommandView::Call(
                            RequestView::Play { uri: Some(list[k as int].uri@), context_uri: None },
                        ),
                    ),
                )
            } else {
                (i, None)
            }
        },
        Action::TogglePlay => match s.playback {
            Some(pb) => if pb.is_playing {
                control(s, "\u{23f8} Paused"@, RequestView::Pause)
            } else {
                control(s, "\u{25b6} Resumed"@, RequestView::Play { uri: None, context_uri: None })
            },
            None => (i, None),
        },
        Action::Next => (
            AppView { pending: PendingView::Skip { done: "\u{23ed} Next track"@ }, ..s },
            Some(CommandView::Call(RequestView::Next)),
        ),
        Action::Previous => (
            AppView { pending: PendingView::Skip { done: "\u{23ee} Previous track"@ }, ..s },
            Some(CommandView::Call(RequestView::Previous)),
        ),
        Action::VolumeUp => match s.playback {
            Some(pb) => match pb.device {
                Some(d) => {
                    let v = volume_up(reported_volume(d.volume_percent));
                    control(
                        s,
                        volume_message("\u{1f50a} "@, v),
                        RequestView::SetVolume { volume: v },
                    )
                },
                None => (i, None),
            },
            None => (i, None),
        },
        Action::VolumeDown => match s.playback {
            Some(pb) => match pb.device {
                Some(d) => {
                    let v = volume_down(reported_volume(d.volume_percent));
                    control(
                        s,
                        volume_message("\u{1f509} "@, v),
                        RequestView::SetVolume { volume: v },
                    )
                },
                None => (i, None),
            },
            None => (i, None),
        },
        Action::ToggleShuffle => match s.playback {
            Some(pb) => control(
                s,
                shuffle_message(!pb.shuffle_state),
                RequestView::SetShuffle { state: !pb.shuffle_state },
            ),
            None => (i, None),
        },
        Action::ToggleRepeat => match s.playback {
            Some(pb) => {
                let n = next_repeat(pb.repeat_state@);
                control(s, "Repeat: "@ + n, RequestView::SetRepeat { state: n })
            },
            None => (i, None),
        },
        Action::Search => (AppView { panel: Panel::Search, mode: Mode::Searching, ..i }, None),
        Action::Escape => (AppView { mode: Mode::Normal, ..i }, None),
        Action::Char(c) => if s.mode == Mode::Searching {
            let q = s.search_query.push(c);
            if byte_len(q) >= 2 {
                (
                    AppView {
                        search_query: q,
                        pending: PendingView::Search { report_errors: true },
                        ..s
                    },
                    Some(CommandView::Call(RequestView::Search { query: q })),
                )
            } else {
                (AppView { search_query: q, ..i }, None)
            }
        } else {
            (i, None)
        },
        Action::Backspace => if s.mode == Mode::Searching {
            let q = if s.search_query.len() > 0 {
                s.search_query.drop_last()
            } else {
                s.search_query
            };
            if q.len() == 0 {
                (AppView { search_query: q, search_results: seq![], ..i }, None)
            } else {
                (
                    AppView {
                        search_query: q,
                        pending: PendingView::Search { report_errors: false },
                        ..s
                    },
                    Some(CommandView::Call(RequestView::Search { query: q })),
                )
            }
        } else {
            (i, None)
        },
        Action::Refresh => (
            AppView {
                pending: PendingView::Playlists { then: Then::RefreshPlayback { report: true } },
                ..s
            },
            Some(
                CommandView::Call(
                    RequestView::GetPlaylists { limit: PLAYLIST_PAGE, offset: 0 },
                ),
            ),
        ),
    }
}

/// The status shown after a player command: `done`, or the error.
pub open spec fn outcome_status(done: Seq<char>, r: Result<(), Seq<char>>) -> Seq<char> {
    match r {
        Ok(_) => done,
        Err(e) => "Error: "@ + e,
    }
}

/// What a reply does to the state, and the work that follows. A reply
/// that does not answer what is awaited changes nothing but ends the wait.
pub open spec fn reply_result(s: AppView, r: ReplyView) -> (AppView, Option<CommandView>) {
    let i = idle(s);
    match (s.pending, r) {
        (PendingView::Playlists { then }, ReplyView::Playlists(res)) => match res {
            Ok(p) => {
                let t = AppView { playlists: p, playlist_index: 0, ..s };
                if p.len() > 0 {
                    load_selected_tracks(t, then)
                } else {
                    continue_with(t, then)
                }
            },
            Err(e) => continue_with(with_status(s, "Error loading playlists: "@ + e), then),
        },
        (PendingView::PlaylistTracks { then }, ReplyView::Tracks(res)) => match res {
            Ok(t) => continue_with(AppView { tracks: t, track_index: 0, ..s }, then),
            Err(e) => continue_with(with_status(s, "Error loading tracks: "@ + e), then),
        },
        (PendingView::Playback { report }, ReplyView::Playback(res)) => {
            let t = match res {
                Ok(state) => AppView { playback: state, ..i },
                Err(_) => i,
            };
            (
                if report {
                    with_status(t, "\u{2713} Refreshed"@)
                } else {
                    t
                },
                None,
            )
        },
        (PendingView::PlayTrack { name }, ReplyView::Done(res)) => match res {
            Ok(_) => (
                AppView {
                    status_msg: Some("\u{25b6} Playing: "@ + name),
                    pending: PendingView::Playback { report: false },
                    ..s
                },
                Some(CommandView::Call(RequestView::GetPlayback)),
            ),
            Err(e) => (with_status(i, "Error: "@ + e), None),
        },
        (PendingView::Control { done }, ReplyView::Done(res)) => (
            AppView {
                status_msg: Some(outcome_status(done, res)),
                pending: PendingView::Playback { report: false },
                ..s
            },
            Some(CommandView::Call(RequestView::GetPlayback)),
        ),
        (PendingView::Skip { done }, ReplyView::Done(res)) => (
            AppView {
                status_msg: Some(outcome_status(done, res)),
                pending: PendingView::Settle,
                ..s
            },
            Some(CommandView::Wait { millis: SKIP_SETTLE_MS }),
        ),
        (PendingView::Settle, ReplyView::Waited) => (
            AppView { pending: PendingView::Playback { report: false }, ..s },
            Some(CommandView::Call(RequestView::GetPlayback)),
        ),
        (PendingView::Search { report_errors }, ReplyView::SearchResults(res)) => match res {
            Ok(t) => (AppView { search_results: t, search_index: 0, ..i }, None),
            Err(e) => (
                if report_errors {
                    with_status(i, "Search error: "@ + e)
                } else {
                    i
                },
                None,
            ),
        },
        _ => (i, None),
    }
}

/// What a tick does: the counter grows; every `STATUS_CLEAR_TICKS` ticks
/// the status is cleared and every `PLAYBACK_POLL_TICKS` ticks the
/// playback state is refreshed.
pub open spec fn tick_result(s: AppView) -> (AppView, Option<CommandView>) {
    let n = (s.tick_count + 1) as u64;
    let t = AppView {
        tick_count: n,
        status_msg: if n % STATUS_CLEAR_TICKS == 0 {
            None
        } else {
            s.status_msg
        },
        ..s
    };
    if n % PLAYBACK_POLL_TICKS == 0 {
        (
            AppView { pending: PendingView::Playback { report: false }, ..t },
            Some(CommandView::Call(RequestView::GetPlayback)),
        )
    } else {
        (idle(t), None)
    }
}

/// The first work of a fresh client: its playlists, the first playlist's
/// tracks, then the playback state.
pub open spec fn start_result(s: AppView) -> (AppView, Option<CommandView>) {
    (
        AppView {
            pending: PendingView::Playlists { then: Then::RefreshPlayback { report: false } },
            ..s
        },
        Some(
            CommandView::Call(RequestView::GetPlaylists { limit: PLAYLIST_PAGE, offset: 0 }),
        ),
    )
}

/// What an event does: a bound key acts, an unbound key does nothing, a
/// tick ticks.
pub open spec fn event_result(s: AppView, e: AppEvent) -> (AppView, Option<CommandView>) {
    match e {
        AppEvent::Key(k) => match binding(k) {
            Some(a) => action_result(s, a),
            None => (idle(s), None),
        },
        AppEvent::Tick => tick_result(s),
    }
}

fn play_request() -> (r: Command)
    ensures
        r@ == CommandView::Call(RequestView::Play { uri: None, context_uri: None }),
{
    Command::Call(Request::Play { uri: None, context_uri: None })
}

fn error_text(prefix: &str, e: &str) -> (r: String)
    ensures
        r@ == prefix@ + e@,
{
    let mut m = String::from_str(prefix);
    m.append(e);
    m
}

fn volume_text(icon: &str, v: u8) -> (r: String)
    ensures
        r@ == volume_message(icon@, v),
{
    let mut m = String::from_str(icon);
    m.append("Volume: ");
    push_decimal(&mut m, v as u64);
    m.push('%');
    m
}

fn next_repeat_text(state: &str) -> (r: String)
    ensures
        r@ == next_repeat(state@),
{
    if same_text(state, "off") {
        String::from_str("context")
    } else if same_text(state, "context") {
        String::from_str("track")
    } else {
        String::from_str("off")
    }
}

impl App {
    /// A fresh client: the playlists panel, nothing loaded, nothing awaited.
    pub fn new() -> (app: App)
        ensures
            app@ == initial_view(),
    {
        App {
            panel: Panel::Playlists,
            mode: Mode::Normal,
            playlists: Vec::new(),
            playlist_index: 0,
            tracks: Vec::new(),
            track_index: 0,
            search_query: String::new(),
            search_results: Vec::new(),
            search_index: 0,
            playback: None,
            status_msg: None,
            should_quit: false,
            tick_count: 0,
            pending: Pending::Idle,
        }
    }

    /// The track list of the focused panel: the search results in the
    /// search panel, else the selected playlist's tracks.
    pub fn current_tracks(&self) -> (r: &Vec<Track>)
        ensures
            r@ == (if self.panel == Panel::Search {
                self.search_results@
            } else {
                self.tracks@
            }),
    {
        if self.panel == Panel::Search {
            &self.search_results
        } else {
            &self.tracks
        }
    }

    /// The selection in the list that `current_tracks` returns.
    pub fn current_track_index(&self) -> (r: usize)
        ensures
            r == (if self.panel == Panel::Search {
                self.search_index
            } else {
                self.track_index
            }),
    {
        if self.panel == Panel::Search {
            self.search_index
        } else {
            self.track_index
        }
    }

    fn set_status(&mut self, msg: String)
        ensures
            final(self)@ == with_status(old(self)@, msg@),
    {
        self.status_msg = Some(msg);
    }

    fn continue_with(&mut self, then: Then) -> (r: Option<Command>)
        ensures
            (final(self)@, command_view(r)) == continue_with(old(self)@, then),
    {
        match then {
            Then::Stop => {
                self.pending = Pending::Idle;
                None
            },
            Then::RefreshPlayback { report } => {
                self.pending = Pending::Playback { report };
                Some(Command::Call(Request::GetPlayback))
            },
        }
    }

    fn load_selected_tracks(&mut self, then: Then) -> (r: Option<Command>)
        ensures
            (final(self)@, command_view(r)) == load_selected_tracks(old(self)@, then),
    {
        if self.playlist_index < self.playlists.len() {
            let id = self.playlists[self.playlist_index].id.clone();
            self.pending = Pending::PlaylistTracks { then };
            Some(Command::Call(Request::GetPlaylistTracks { playlist_id: id }))
        } else {
            self.continue_with(then)
        }
    }

    fn control(&mut self, done: String, r: Request) -> (c: Option<Command>)
        ensures
            (final(self)@, command_view(c)) == control(old(self)@, done@, r@),
    {
        self.pending = Pending::Control { done };
        Some(Command::Call(r))
    }

    /// The first work of a fresh client (see `start_result`).
    pub fn start(&mut self) -> (r: Option<Command>)
        ensures
            (final(self)@, command_view(r)) == start_result(old(self)@),
    {
        self.pending = Pending::Playlists { then: Then::RefreshPlayback { report: false } };
        Some(Command::Call(Request::GetPlaylists { limit: PLAYLIST_PAGE, offset: 0 }))
    }
}

impl App {
    /// Applies a user action (see `action_result`): the state changes at
    /// once, and the work that the action needs is returned.
    pub fn handle_action(&mut self, action: Action) -> (r: Option<Command>)
        ensures
            (final(self)@, command_view(r)) == action_result(old(self)@, action),
    {
        match action {
            Action::Quit => {
                self.pending = Pending::Idle;
                self.should_quit = true;
                None
            },
            Action::Tab => {
                self.pending = Pending::Idle;
                self.panel = match self.panel {
                    Panel::Playlists => Panel::Tracks,
                    Panel::Tracks => Panel::Search,
                    Panel::Search => Panel::Playlists,
                };
                None
            },
            Action::NavUp => {
                self.pending = Pending::Idle;
                match self.panel {
                    Panel::Playlists => {
                        if self.playlist_index > 0 {
                            self.playlist_index -= 1;
                            return self.load_selected_tracks(Then::Stop);
                        }
                    },
                    Panel::Tracks => {
                        if self.track_index > 0 {
                            self.track_index -= 1;
                        }
                    },
                    Panel::Search => {
                        if self.search_index > 0 {
                            self.search_index -= 1;
                        }
                    },
                }
                None
            },
            Action::NavDown => {
                self.pending = Pending::Idle;
                match self.panel {
                    Panel::Playlists => {
                        if self.playlists.len() > 0 && self.playlist_index < self.playlists.len() - 1 {
                            self.playlist_index += 1;
                            return self.load_selected_tracks(Then::Stop);
                        }
                    },
                    Panel::Tracks => {
                        if self.tracks.len() > 0 && self.track_index < self.tracks.len() - 1 {
                            self.track_index += 1;
                        }
                    },
                    Panel::Search => {
                        if self.search_results.len() > 0 && self.search_index
                            < self.search_results.len() - 1 {
                            self.search_index += 1;
                        }
                    },
                }
                None
            },
            Action::NavLeft => {
                self.pending = Pending::Idle;
                if self.panel == Panel::Tracks || self.panel == Panel::Search {
                    self.panel = Panel::Playlists;
                }
                None
            },
            Action::NavRight => {
                self.pending = Pending::Idle;
                if self.panel == Panel::Playlists {
                    self.panel = Panel::Tracks;
                }
                None
            },
            Action::Select => {
                let k = self.current_track_index();
                let list = self.current_tracks();
                if k < list.len() {
                    let uri = list[k].uri.clone();
                    let name = list[k].name.clone();
                    self.pending = Pending::PlayTrack { name };
                    Some(Command::Call(Request::Play { uri: Some(uri), context_uri: None }))
                } else {
                    self.pending = Pending::Idle;
                    None
                }
            },
            Action::TogglePlay => {
                let playing = match &self.playback {
                    Some(pb) => Some(pb.is_playing),
                    None => None,
                };
                match playing {
                    Some(true) => self.control(String::from_str("\u{23f8} Paused"), Request::Pause),
                    Some(false) => {
                        let c = self.control(
                            String::from_str("\u{25b6} Resumed"),
                            Request::Play { uri: None, context_uri: None },
                        );
                        c
                    },
                    None => {
                        self.pending = Pending::Idle;
                        None
                    },
                }
            },
            Action::Next => {
                self.pending = Pending::Skip { done: String::from_str("\u{23ed} Next track") };
                Some(Command::Call(Request::Next))
            },
            Action::Previous => {
                self.pending = Pending::Skip { done: String::from_str("\u{23ee} Previous track") };
                Some(Command::Call(Request::Previous))
            },
            Action::VolumeUp | Action::VolumeDown => {
                let reported = match &self.playback {
                    Some(pb) => match &pb.device {
                        Some(d) => Some(match d.volume_percent {
                            Some(v) => v,
                            None => 50u8,
                        }),
                        None => None,
                    },
                    None => None,
                };
                match reported {
                    Some(v) => {
                        if action == Action::VolumeUp {
                            let nv: u8 = if v > 95 { 100 } else { v + 5 };
                            self.control(volume_text("\u{1f50a} ", nv), Request::SetVolume { volume: nv })
                        } else {
                            let nv: u8 = if v < 5 { 0 } else { v - 5 };
                            self.control(volume_text("\u{1f509} ", nv), Request::SetVolume { volume: nv })
                        }
                    },
                    None => {
                        self.pending = Pending::Idle;
                        None
                    },
                }
            },
            Action::ToggleShuffle => {
                let shuffle = match &self.playback {
                    Some(pb) => Some(pb.shuffle_state),
                    None => None,
                };
                match shuffle {
                    Some(on) => {
                        let n = !on;
                        let msg = if n {
                            String::from_str("Shuffle: ON \u{21cc}")
                        } else {
                            String::from_str("Shuffle: OFF")
                        };
                        self.control(msg, Request::SetShuffle { state: n })
                    },
                    None => {
                        self.pending = Pending::Idle;
                        None
                    },
                }
            },
            Action::ToggleRepeat => {
                let next = match &self.playback {
                    Some(pb) => Some(next_repeat_text(pb.repeat_state.as_str())),
                    None => None,
                };
                match next {
                    Some(n) => {
                        let msg = error_text("Repeat: ", n.as_str());
                        self.control(msg, Request::SetRepeat { state: n })
                    },
                    None => {
                        self.pending = Pending::Idle;
                        None
                    },
                }
            },
            Action::Search => {
                self.pending = Pending::Idle;
                self.panel = Panel::Search;
                self.mode = Mode::Searching;
                None
            },
            Action::Escape => {
                self.pending = Pending::Idle;
                self.mode = Mode::Normal;
                None
            },
            Action::Char(c) => {
                if self.mode == Mode::Searching {
                    self.search_query.push(c);
                    if self.search_query.as_str().len() >= 2 {
                        let q = self.search_query.clone();
                        self.pending = Pending::Search { report_errors: true };
                        return Some(Command::Call(Request::Search { query: q }));
                    }
                }
                self.pending = Pending::Idle;
                None
            },
            Action::Backspace => {
                if self.mode == Mode::Searching {
                    let _ = self.search_query.pop();
                    if self.search_query.as_str().is_empty() {
                        self.search_results.clear();
                    } else {
                        let q = self.search_query.clone();
                        self.pending = Pending::Search { report_errors: false };
                        return Some(Command::Call(Request::Search { query: q }));
                    }
                }
                self.pending = Pending::Idle;
                None
            },
            Action::Refresh => {
                self.pending = Pending::Playlists { then: Then::RefreshPlayback { report: true } };
                Some(Command::Call(Request::GetPlaylists { limit: PLAYLIST_PAGE, offset: 0 }))
            },
        }
    }
}

impl App {
    /// Takes in the outcome of the awaited command (see `reply_result`)
    /// and returns the work that follows.
    pub fn handle_reply(&mut self, reply: Reply) -> (r: Option<Command>)
        ensures
            (final(self)@, command_view(r)) == reply_result(old(self)@, reply@),
    {
        let mut pending = Pending::Idle;
        std::mem::swap(&mut pending, &mut self.pending);
        match (pending, reply) {
            (Pending::Playlists { then }, Reply::Playlists(res)) => {
                self.pending = Pending::Playlists { then };
                match res {
                    Ok(p) => {
                        self.playlists = p;
                        self.playlist_index = 0;
                        if self.playlists.len() > 0 {
                            self.load_selected_tracks(then)
                        } else {
                            self.continue_with(then)
                        }
                    },
                    Err(e) => {
                        self.set_status(error_text("Error loading playlists: ", e.as_str()));
                        self.continue_with(then)
                    },
                }
            },
            (Pending::PlaylistTracks { then }, Reply::Tracks(res)) => {
                self.pending = Pending::PlaylistTracks { then };
                match res {
                    Ok(t) => {
                        self.tracks = t;
                        self.track_index = 0;
                    },
                    Err(e) => {
                        self.set_status(error_text("Error loading tracks: ", e.as_str()));
                    },
                }
                self.continue_with(then)
            },
            (Pending::Playback { report }, Reply::Playback(res)) => {
                match res {
                    Ok(state) => {
                        self.playback = state;
                    },
                    Err(_) => {},
                }
                if report {
                    self.set_status(String::from_str("\u{2713} Refreshed"));
                }
                None
            },
            (Pending::PlayTrack { name }, Reply::Done(res)) => match res {
                Ok(_) => {
                    self.set_status(error_text("\u{25b6} Playing: ", name.as_str()));
                    self.pending = Pending::Playback { report: false };
                    Some(Command::Call(Request::GetPlayback))
                },
                Err(e) => {
                    self.set_status(error_text("Error: ", e.as_str()));
                    None
                },
            },
            (Pending::Control { done }, Reply::Done(res)) => {
                match res {
                    Ok(_) => self.set_status(done),
                    Err(e) => self.set_status(error_text("Error: ", e.as_str())),
                }
                self.pending = Pending::Playback { report: false };
                Some(Command::Call(Request::GetPlayback))
            },
            (Pending::Skip { done }, Reply::Done(res)) => {
                match res {
                    Ok(_) => self.set_status(done),
                    Err(e) => self.set_status(error_text("Error: ", e.as_str())),
                }
                self.pending = Pending::Settle;
                Some(Command::Wait { millis: SKIP_SETTLE_MS })
            },
            (Pending::Settle, Reply::Waited) => {
                self.pending = Pending::Playback { report: false };
                Some(Command::Call(Request::GetPlayback))
            },
            (Pending::Search { report_errors }, Reply::SearchResults(res)) => {
                match res {
                    Ok(t) => {
                        self.search_results = t;
                        self.search_index = 0;
                    },
                    Err(e) => {
                        if report_errors {
                            self.set_status(error_text("Search error: ", e.as_str()));
                        }
                    },
                }
                None
            },
            _ => None,
        }
    }

    /// One tick of the clock (see `tick_result`).
    pub fn on_tick(&mut self) -> (r: Option<Command>)
        requires
            old(self).tick_count < u64::MAX,
        ensures
            (final(self)@, command_view(r)) == tick_result(old(self)@),
    {
        self.tick_count += 1;
        if self.tick_count % STATUS_CLEAR_TICKS == 0 {
            self.status_msg = None;
        }
        if self.tick_count % PLAYBACK_POLL_TICKS == 0 {
            self.pending = Pending::Playback { report: false };
            Some(Command::Call(Request::GetPlayback))
        } else {
            self.pending = Pending::Idle;
            None
        }
    }

    /// Handles an event of the loop (see `event_result`).
    pub fn on_event(&mut self, event: AppEvent) -> (r: Option<Command>)
        requires
            event is Tick ==> old(self).tick_count < u64::MAX,
        ensures
            (final(self)@, command_view(r)) == event_result(old(self)@, event),
    {
        match event {
            AppEvent::Key(k) => match key_to_action(&k) {
                Some(a) => self.handle_action(a),
                None => {
                    self.pending = Pending::Idle;
                    None
                },
            },
            AppEvent::Tick => self.on_tick(),
        }
    }
}

} // verus!
