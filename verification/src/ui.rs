use vstd::prelude::*;

use crate::app::{App, Mode, Panel};
use crate::spotify::{artist_name_seq, joined, PlaybackState, Track};
use crate::text::{clock_text, decimal, format_ms, push_clock, push_decimal, same_text, truncate, truncated};

verus! {

/// The URI of the track that is playing, or the empty text.
pub open spec fn playing_uri_spec(pb: Option<PlaybackState>) -> Seq<char> {
    match pb {
        Some(p) => match p.item {
            Some(t) => t.uri@,
            None => seq![],
        },
        None => seq![],
    }
}

/// The URI of the track that is playing, or the empty text.
pub fn playing_uri(app: &App) -> (r: String)
    ensures
        r@ == playing_uri_spec(app.playback),
{
    match &app.playback {
        Some(pb) => match &pb.item {
            Some(t) => t.uri.clone(),
            None => String::new(),
        },
        None => String::new(),
    }
}

/// `{:>3}`: the decimal text of `n`, right-aligned in three columns.
pub open spec fn right3(n: nat) -> Seq<char> {
    let d = decimal(n);
    if d.len() >= 3 {
        d
    } else {
        Seq::new((3 - d.len()) as nat, |i: int| ' ') + d
    }
}

/// The texts of one row of the track list.
#[derive(Debug, Clone, PartialEq)]
pub struct TrackRow {
    pub is_current: bool,
    pub number: String,
    pub name: String,
    pub artists: String,
    pub album: String,
    pub duration: String,
}

/// The play marker of a row: a triangle for the current track, else a space.
pub open spec fn marker(current: bool) -> Seq<char> {
    if current {
        seq!['\u{25b6}']
    } else {
        seq![' ']
    }
}

/// The artists' names of a track, joined with `, `.
pub open spec fn artist_text(t: Track) -> Seq<char> {
    joined(artist_name_seq(t.artists@), ", "@)
}

/// Row `index` (from 0) of the track list.
pub fn track_row(track: &Track, index: usize, playing_uri: &str) -> (r: TrackRow)
    requires
        index < usize::MAX,
    ensures
        r.is_current == (track.uri@ == playing_uri@),
        r.number@ == seq![' '] + marker(r.is_current) + seq![' '] + right3((index + 1) as nat)
            + "  "@,
        r.name@ == truncated(track.name@, 28),
        r.artists@ == truncated(artist_text(*track), 22),
        r.album@ == truncated(track.album.name@, 18),
        r.duration@ == "  "@ + clock_text((track.duration_ms / 1000) as nat),
{
    let current = same_text(track.uri.as_str(), playing_uri);
    let mut number = String::new();
    number.push(' ');
    number.push(if current { '\u{25b6}' } else { ' ' });
    number.push(' ');
    let n: usize = index + 1;
    let mut digits = String::new();
    push_decimal(&mut digits, n as u64);
    let ghost d = decimal(n as nat);
    if n < 10 {
        number.push(' ');
        number.push(' ');
        proof {
            reveal_with_fuel(decimal, 2);
        }
        assert(d.len() == 1);
        assert(Seq::new(2, |i: int| ' ') =~= seq![' ', ' ']);
    } else if n < 100 {
        number.push(' ');
        proof {
            reveal_with_fuel(decimal, 3);
        }
        assert(d.len() == 2);
        assert(Seq::new(1, |i: int| ' ') =~= seq![' ']);
    } else {
        proof {
            lemma_decimal_len_3(n as nat);
        }
    }
    number.append(digits.as_str());
    number.append("  ");
    let names = track.artist_names();
    let mut duration = String::from_str("  ");
    push_clock(&mut duration, track.duration_ms / 1000);
    let r = TrackRow {
        is_current: current,
        number,
        name: truncate(track.name.as_str(), 28),
        artists: truncate(names.as_str(), 22),
        album: truncate(track.album.name.as_str(), 18),
        duration,
    };
    assert(r.number@ =~= seq![' '] + marker(current) + seq![' '] + right3((index + 1) as nat) + "  "@);
    r
}

proof fn lemma_decimal_len_3(n: nat)
    requires
        n >= 100,
    ensures
        decimal(n).len() >= 3,
    decreases n,
{
    lemma_decimal_len_2(n / 10);
}

proof fn lemma_decimal_len_2(n: nat)
    requires
        n >= 10,
    ensures
        decimal(n).len() >= 2,
    decreases n,
{
    reveal_with_fuel(decimal, 2);
    if n / 10 >= 10 {
        lemma_decimal_len_2(n / 10);
    }
}

/// The texts of one row of the search results.
#[derive(Debug, Clone, PartialEq)]
pub struct SearchRow {
    pub is_current: bool,
    pub marker: String,
    pub name: String,
    pub artists: String,
    pub album: String,
}

/// A row of the search results.
pub fn search_row(track: &Track, playing_uri: &str) -> (r: SearchRow)
    ensures
        r.is_current == (track.uri@ == playing_uri@),
        r.marker@ == seq![' '] + marker(r.is_current) + seq![' '],
        r.name@ == truncated(track.name@, 30),
        r.artists@ == truncated(artist_text(*track), 24),
        r.album@ == truncated(track.album.name@, 20),
{
    let current = same_text(track.uri.as_str(), playing_uri);
    let mut m = String::new();
    m.push(' ');
    m.push(if current { '\u{25b6}' } else { ' ' });
    m.push(' ');
    let names = track.artist_names();
    let r = SearchRow {
        is_current: current,
        marker: m,
        name: truncate(track.name.as_str(), 30),
        artists: truncate(names.as_str(), 24),
        album: truncate(track.album.name.as_str(), 20),
    };
    assert(r.marker@ =~= seq![' '] + marker(current) + seq![' ']);
    r
}

/// The title of the results box.
pub open spec fn search_title_spec(query: Seq<char>, count: nat) -> Seq<char> {
    if count == 0 && query.len() > 0 {
        " No results for \""@ + query + "\" "@
    } else if count == 0 {
        " Results "@
    } else {
        seq![' '] + decimal(count) + " results "@
    }
}

/// The title of the results box for a query with `count` results.
pub fn search_title(query: &str, count: usize) -> (r: String)
    ensures
        r@ == search_title_spec(query@, count as nat),
{
    if count == 0 && !query.is_empty() {
        let mut t = String::from_str(" No results for \"");
        t.append(query);
        t.append("\" ");
        t
    } else if count == 0 {
        String::from_str(" Results ")
    } else {
        let mut t = String::new();
        t.push(' ');
        push_decimal(&mut t, count as u64);
        t.append(" results ");
        t
    }
}

/// The highlighted result: none in an empty list.
pub fn search_selection(count: usize, index: usize) -> (r: Option<usize>)
    ensures
        r == (if count == 0 {
            None
        } else {
            Some(index)
        }),
{
    if count == 0 {
        None
    } else {
        Some(index)
    }
}

/// Whether the right pane shows the search box rather than the tracks.
pub fn shows_search(app: &App) -> (r: bool)
    ensures
        r == (app.panel == Panel::Search || app.mode == Mode::Searching),
{
    app.panel == Panel::Search || app.mode == Mode::Searching
}

/// The title of the track list: the selected playlist's name, else `Tracks`.
pub fn tracks_title(app: &App) -> (r: String)
    ensures
        r@ == "  "@ + (if app.playlist_index < app.playlists@.len() {
            app.playlists@[app.playlist_index as int].name@
        } else {
            "Tracks"@
        }) + seq![' '],
{
    let mut t = String::from_str("  ");
    if app.playlist_index < app.playlists.len() {
        t.append(app.playlists[app.playlist_index].name.as_str());
    } else {
        t.append("Tracks");
    }
    t.push(' ');
    t
}

/// The track count after a playlist's name: ` (<total>)`.
pub fn playlist_count_label(total: u32) -> (r: String)
    ensures
        r@ == " ("@ + decimal(total as nat) + seq![')'],
{
    let mut t = String::from_str(" (");
    push_decimal(&mut t, total as u64);
    t.push(')');
    t
}

/// The text of the status bar: the status message, else the key hints.
pub fn status_text(app: &App) -> (r: String)
    ensures
        r@ == (match app.status_msg {
            Some(m) => m@,
            None => "Ready  \u{2022}  +/- volume  \u{2022}  s shuffle  \u{2022}  r repeat  \u{2022}  R refresh  \u{2022}  / search"@,
        }),
{
    match &app.status_msg {
        Some(m) => m.clone(),
        None => String::from_str(
            "Ready  \u{2022}  +/- volume  \u{2022}  s shuffle  \u{2022}  r repeat  \u{2022}  R refresh  \u{2022}  / search",
        ),
    }
}

/// The volume that the player bar shows: the device's, else 0.
pub open spec fn shown_volume(pb: PlaybackState) -> u8 {
    match pb.device {
        Some(d) => match d.volume_percent {
            Some(v) => v,
            None => 0,
        },
        None => 0,
    }
}

/// Filled cells of the volume bar: a tenth of the volume, at most ten.
pub open spec fn volume_cells(v: u8) -> nat {
    let c = (v as nat) * 10 / 100;
    if c > 10 {
        10
    } else {
        c
    }
}

/// The texts and marks of the player bar.
#[derive(Debug, Clone, PartialEq)]
pub struct PlayerView {
    /// The playing track's name and artists, shortened.
    pub track: Option<(String, String)>,
    pub shuffle_on: bool,
    /// Any repeat mode but `off`.
    pub repeat_on: bool,
    pub play_icon: String,
    pub repeat_icon: String,
    /// `elapsed / total` when the progress and the track are known.
    pub progress: Option<String>,
    pub volume: u8,
    pub volume_filled: usize,
    /// Empty cells after the filled ones: ten less the filled bar's length
    /// in bytes, three per filled cell.
    pub volume_empty: usize,
    /// The device's name, shortened, else `No device`.
    pub device: String,
}

/// What the player bar shows of a playback state. The empty part of the
/// volume bar is ten less three bytes per filled cell, so a volume of 40 or
/// more has no such part (the count would go below zero).
pub fn player_view(pb: &PlaybackState) -> (r: PlayerView)
    requires
        3 * volume_cells(shown_volume(*pb)) <= 10,
    ensures
        match (r.track, pb.item) {
            (Some((n, a)), Some(t)) => n@ == truncated(t.name@, 26) && a@ == truncated(artist_text(t), 28),
            (None, None) => true,
            _ => false,
        },
        r.shuffle_on == pb.shuffle_state,
        r.repeat_on == (pb.repeat_state@ != "off"@),
        r.play_icon@ == (if pb.is_playing {
            seq!['\u{23f8}']
        } else {
            seq!['\u{25b6}']
        }),
        r.repeat_icon@ == (if pb.repeat_state@ == "track"@ {
            seq!['\u{21ba}', '\u{b9}']
        } else {
            seq!['\u{21ba}']
        }),
        match (r.progress, pb.progress_ms, pb.item) {
            (Some(p), Some(ms), Some(t)) => p@ == clock_text((ms / 1000) as nat) + " / "@
                + clock_text((t.duration_ms / 1000) as nat),
            (None, None, _) => true,
            (None, Some(_), None) => true,
            _ => false,
        },
        r.volume == shown_volume(*pb),
        r.volume_filled == volume_cells(r.volume),
        r.volume_empty == 10 - 3 * volume_cells(r.volume),
        r.device@ == truncated(
            match pb.device {
                Some(d) => d.name@,
                None => "No device"@,
            },
            20,
        ),
{
    let track = match &pb.item {
        Some(t) => {
            let names = t.artist_names();
            Some((truncate(t.name.as_str(), 26), truncate(names.as_str(), 28)))
        },
        None => None,
    };
    let repeat_on = !same_text(pb.repeat_state.as_str(), "off");
    let mut play_icon = String::new();
    play_icon.push(if pb.is_playing { '\u{23f8}' } else { '\u{25b6}' });
    let mut repeat_icon = String::new();
    repeat_icon.push('\u{21ba}');
    if same_text(pb.repeat_state.as_str(), "track") {
        repeat_icon.push('\u{b9}');
    }
    assert(repeat_icon@ =~= (if pb.repeat_state@ == "track"@ {
        seq!['\u{21ba}', '\u{b9}']
    } else {
        seq!['\u{21ba}']
    }));
    assert(play_icon@ =~= (if pb.is_playing {
        seq!['\u{23f8}']
    } else {
        seq!['\u{25b6}']
    }));
    let progress = match (pb.progress_ms, &pb.item) {
        (Some(ms), Some(t)) => {
            let mut p = format_ms(ms);
            p.append(" / ");
            push_clock(&mut p, t.duration_ms / 1000);
            Some(p)
        },
        _ => None,
    };
    let volume: u8 = match &pb.device {
        Some(d) => match d.volume_percent {
            Some(v) => v,
            None => 0,
        },
        None => 0,
    };
    let cells: usize = volume as usize * 10 / 100;
    let filled: usize = if cells > 10 { 10 } else { cells };
    let device = match &pb.device {
        Some(d) => truncate(d.name.as_str(), 20),
        None => truncate("No device", 20),
    };
    PlayerView {
        track,
        shuffle_on: pb.shuffle_state,
        repeat_on,
        play_icon,
        repeat_icon,
        progress,
        volume,
        volume_filled: filled,
        volume_empty: 10 - 3 * filled,
        device,
    }
}

} // verus!
