use vstd::prelude::*;

use crate::app::{action_result, event_result, idle, initial_view, next_repeat, reply_result, start_result, tick_result, volume_down, volume_up, AppView, CommandView, Mode, Panel, PendingView, ReplyView, Then};
use crate::auth::{exchange_form_spec, expired_at};
use crate::config::{app_dir, base_text, is_app_file, is_path_separator, joinable};
use crate::events::{binding, Action, AppEvent, Key, KeyPress, MOD_CONTROL, MOD_NONE, MOD_SHIFT};
use crate::spotify::{request_url, RequestView};
use crate::text::{decimal, digit_char};
use crate::text::truncated;

verus! {

/// The selection of the playlists and of the tracks is the first entry or
/// an entry of its list.
pub open spec fn selection_in_range(s: AppView) -> bool {
    &&& (s.playlist_index == 0 || s.playlist_index < s.playlists.len())
    &&& (s.track_index == 0 || s.track_index < s.tracks.len())
}

/// The app waits for a reply exactly when it has asked for work.
pub open spec fn waits_iff_asked(r: (AppView, Option<CommandView>)) -> bool {
    (r.0.pending == PendingView::Idle) <==> r.1 is None
}

/// After any action, the app awaits a reply exactly when the action asked
/// for outside work.
pub proof fn law_action_waits_iff_asked(s: AppView, a: Action)
    ensures
        waits_iff_asked(action_result(s, a)),
{
}

/// After any reply, the app awaits a further reply exactly when it asked
/// for more work.
pub proof fn law_reply_waits_iff_asked(s: AppView, r: ReplyView)
    ensures
        waits_iff_asked(reply_result(s, r)),
{
}

/// After a tick, the app awaits a reply exactly when the tick asked for a
/// playback refresh.
pub proof fn law_tick_waits_iff_asked(s: AppView)
    ensures
        waits_iff_asked(tick_result(s)),
{
}

/// A fresh client selects the first entries.
pub proof fn law_initial_selection()
    ensures
        selection_in_range(initial_view()),
{
}

/// Every action keeps the playlist and track selections in range.
pub proof fn law_action_keeps_selection(s: AppView, a: Action)
    requires
        selection_in_range(s),
    ensures
        selection_in_range(action_result(s, a).0),
{
}

/// Every reply keeps the playlist and track selections in range.
pub proof fn law_reply_keeps_selection(s: AppView, r: ReplyView)
    requires
        selection_in_range(s),
    ensures
        selection_in_range(reply_result(s, r).0),
{
}

/// Ticks and the start keep the playlist and track selections in range.
pub proof fn law_tick_and_start_keep_selection(s: AppView)
    requires
        selection_in_range(s),
    ensures
        selection_in_range(tick_result(s).0),
        selection_in_range(start_result(s).0),
{
}

/// Three presses of Tab come back to the same panel and change nothing else.
pub proof fn law_tab_cycles(s: AppView)
    ensures
        action_result(action_result(action_result(s, Action::Tab).0, Action::Tab).0, Action::Tab)
            == (idle(s), None::<CommandView>),
{
    let s1 = action_result(s, Action::Tab).0;
    let s2 = action_result(s1, Action::Tab).0;
    let s3 = action_result(s2, Action::Tab).0;
    assert(s3 =~= idle(s));
}

/// In the tracks panel, a step down that moves the selection is undone by
/// a step up.
pub proof fn law_track_down_up(s: AppView)
    requires
        s.panel == Panel::Tracks,
        s.track_index + 1 < s.tracks.len(),
        s.tracks.len() <= usize::MAX,
    ensures
        action_result(action_result(s, Action::NavDown).0, Action::NavUp) == (idle(s), None::<CommandView>),
{
    let s2 = action_result(action_result(s, Action::NavDown).0, Action::NavUp).0;
    assert(s2 =~= idle(s));
}

/// In the search panel, a step down that moves the selection is undone by
/// a step up.
pub proof fn law_result_down_up(s: AppView)
    requires
        s.panel == Panel::Search,
        s.search_index + 1 < s.search_results.len(),
        s.search_results.len() <= usize::MAX,
    ensures
        action_result(action_result(s, Action::NavDown).0, Action::NavUp) == (idle(s), None::<CommandView>),
{
    let s2 = action_result(action_result(s, Action::NavDown).0, Action::NavUp).0;
    assert(s2 =~= idle(s));
}

/// In the playlists panel, a step down that moves the selection and a step
/// up come back to the same playlist and load its tracks.
pub proof fn law_playlist_down_up(s: AppView)
    requires
        s.panel == Panel::Playlists,
        s.playlist_index + 1 < s.playlists.len(),
        s.playlists.len() <= usize::MAX,
    ensures
        ({
            let r = action_result(action_result(s, Action::NavDown).0, Action::NavUp);
            &&& r.0.playlist_index == s.playlist_index
            &&& r.1 == Some(
                CommandView::Call(
                    crate::spotify::RequestView::GetPlaylistTracks {
                        playlist_id: s.playlists[s.playlist_index as int].id@,
                    },
                ),
            )
        }),
{
}

/// While searching, a typed character followed by Backspace leaves the
/// query as it was.
pub proof fn law_type_then_erase(s: AppView, c: char)
    requires
        s.mode == Mode::Searching,
    ensures
        action_result(action_result(s, Action::Char(c)).0, Action::Backspace).0.search_query
            == s.search_query,
{
    let q = s.search_query.push(c);
    assert(q.drop_last() =~= s.search_query);
}

/// Outside the search mode, typing a character changes nothing and asks
/// for nothing.
pub proof fn law_typing_outside_search(s: AppView, c: char)
    requires
        s.mode == Mode::Normal,
    ensures
        action_result(s, Action::Char(c)) == (idle(s), None::<CommandView>),
{
}

/// A volume step up never asks for more than 100 and never for less than
/// the current volume, if that is at most 100; a step down never for more
/// than the current volume.
pub proof fn law_volume_bounds(v: u8)
    ensures
        volume_up(v) <= 100,
        v <= 100 ==> v <= volume_up(v),
        volume_down(v) <= v,
{
}

/// A step down undoes a step up when the volume is at most 95, and a step
/// up undoes a step down when it is between 5 and 100.
pub proof fn law_volume_steps_undo(v: u8)
    ensures
        v <= 95 ==> volume_down(volume_up(v)) == v,
        5 <= v <= 100 ==> volume_up(volume_down(v)) == v,
{
}

/// The repeat mode goes round in three steps: off, context, track, off.
pub proof fn law_repeat_cycles()
    ensures
        next_repeat("off"@) == "context"@,
        next_repeat("context"@) == "track"@,
        next_repeat("track"@) == "off"@,
        next_repeat(next_repeat(next_repeat("off"@))) == "off"@,
{
    reveal_strlit("off");
    reveal_strlit("context");
    reveal_strlit("track");
}

/// Once expired, a token stays expired.
pub proof fn law_expiry_is_final(expires_at: u64, now: u64, later: u64)
    requires
        expired_at(expires_at, now),
        now <= later,
    ensures
        expired_at(expires_at, later),
{
}

/// A shortened text is at most `max` characters long, and a text that fits
/// is left as it is.
pub proof fn law_truncated_fits(s: Seq<char>, max: nat)
    requires
        max > 0,
    ensures
        truncated(s, max).len() <= max,
        s.len() <= max ==> truncated(s, max) == s,
        s.len() > max ==> truncated(s, max).take(max - 1) == s.take(max - 1),
{
    if s.len() > max {
        assert(truncated(s, max).take(max - 1) =~= s.take(max - 1));
    }
}

/// A key event acts exactly as the action it is bound to.
pub proof fn law_key_event_is_action(s: AppView, k: crate::events::KeyPress, a: Action)
    requires
        crate::events::binding(k) == Some(a),
    ensures
        event_result(s, AppEvent::Key(k)) == action_result(s, a),
{
}

/// The code exchange of the PKCE flow sends no client secret: none of its
/// fields is named `client_secret` (its fields are the grant type, the
/// code, the redirect address, the client id and the code verifier).
pub proof fn law_exchange_sends_no_secret(
    code: Seq<char>,
    verifier: Seq<char>,
    client_id: Seq<char>,
    port: u16,
)
    ensures
        forall|i: int|
            0 <= i < exchange_form_spec(code, verifier, client_id, port).len()
                ==> #[trigger] exchange_form_spec(code, verifier, client_id, port)[i].0
                != "client_secret"@,
{
    reveal_strlit("client_secret");
    reveal_strlit("grant_type");
    reveal_strlit("code");
    reveal_strlit("redirect_uri");
    reveal_strlit("client_id");
    reveal_strlit("code_verifier");
    let f = exchange_form_spec(code, verifier, client_id, port);
    assert forall|i: int| 0 <= i < f.len() implies #[trigger] f[i].0 != "client_secret"@ by {
        if i == 0 {
            assert(f[i].0.len() != "client_secret"@.len());
        } else if i == 1 {
            assert(f[i].0.len() != "client_secret"@.len());
        } else if i == 2 {
            assert(f[i].0[1] != "client_secret"@[1]);
        } else if i == 3 {
            assert(f[i].0.len() != "client_secret"@.len());
        } else {
            assert(f[i].0[2] != "client_secret"@[2]);
        }
    }
}

/// How many replies a wait can still take before the app is idle.
pub open spec fn wait_rank(p: PendingView) -> nat {
    let after = |t: Then| -> nat {
        match t {
            Then::Stop => 0,
            Then::RefreshPlayback { .. } => 1,
        }
    };
    match p {
        PendingView::Idle => 0,
        PendingView::Playback { .. } => 1,
        PendingView::Search { .. } => 1,
        PendingView::PlaylistTracks { then } => 1 + after(then),
        PendingView::Settle => 2,
        PendingView::Control { .. } => 2,
        PendingView::PlayTrack { .. } => 2,
        PendingView::Playlists { then } => 2 + after(then),
        PendingView::Skip { .. } => 3,
    }
}

/// Every reply brings the app closer to idle, so a chain of commands ends
/// after at most three replies; a reply while nothing is awaited changes
/// nothing and asks for nothing.
pub proof fn law_replies_end(s: AppView, r: ReplyView)
    ensures
        s.pending != PendingView::Idle ==> wait_rank(reply_result(s, r).0.pending) < wait_rank(s.pending),
        s.pending == PendingView::Idle ==> reply_result(s, r) == (s, None::<CommandView>),
        wait_rank(s.pending) <= 3,
{
}

/// Under one configuration directory with no Windows verbatim prefix, the
/// configuration file and the token file are two different files side by
/// side: each is the client's directory, a separator and its own name.
pub proof fn law_files_side_by_side(base: Option<Seq<char>>, config: Seq<char>, tokens: Seq<char>)
    requires
        joinable(base_text(base)),
        is_app_file(base, "config.toml"@, config),
        is_app_file(base, "tokens.json"@, tokens),
    ensures
        config != tokens,
        config.take(app_dir(base).len() as int) == app_dir(base),
        tokens.take(app_dir(base).len() as int) == app_dir(base),
        is_path_separator(config[app_dir(base).len() as int]),
        is_path_separator(tokens[app_dir(base).len() as int]),
        config.skip(app_dir(base).len() + 1 as int) == "config.toml"@,
        tokens.skip(app_dir(base).len() + 1 as int) == "tokens.json"@,
{
    reveal_strlit("config.toml");
    reveal_strlit("tokens.json");
    let d = app_dir(base);
    assert(config.skip(d.len() + 1 as int)[0] == 'c');
    assert(tokens.skip(d.len() + 1 as int)[0] == 't');
}

/// The left key always lands on the playlists panel, from the tracks and
/// from the search panel alike, and asks for no outside work; the right
/// key from the playlists panel goes to the tracks, so that left then
/// right from the tracks comes back to them.
pub proof fn law_left_goes_to_playlists(s: AppView)
    ensures
        action_result(s, Action::NavLeft).0.panel == Panel::Playlists,
        action_result(s, Action::NavLeft).1 is None,
        action_result(s, Action::NavLeft).0.search_query == s.search_query,
        action_result(s, Action::NavLeft).0.mode == s.mode,
        s.panel == Panel::Tracks ==> action_result(action_result(s, Action::NavLeft).0, Action::NavRight).0.panel
            == Panel::Tracks,
{
}

/// A successful search reply replaces the results and puts the selection
/// on the first of them, with nothing more to do; whenever a reply changes
/// the search results, the selection is on the first one, so every reply
/// keeps the search selection on the first entry or on an entry of the
/// results.
pub proof fn law_search_reply_selects_first(s: AppView, report_errors: bool, t: Seq<crate::spotify::Track>, r: ReplyView)
    ensures
        s.pending == (PendingView::Search { report_errors }) ==> {
            let o = reply_result(s, ReplyView::SearchResults(Ok(t)));
            &&& o.0.search_results == t
            &&& o.0.search_index == 0
            &&& o.0.pending == PendingView::Idle
            &&& o.1 is None
        },
        reply_result(s, r).0.search_results != s.search_results ==> reply_result(s, r).0.search_index == 0,
        reply_result(s, r).0.search_index == 0 || reply_result(s, r).0.search_index == s.search_index,
        (s.search_index == 0 || s.search_index < s.search_results.len()) ==> {
            let o = reply_result(s, r).0;
            o.search_index == 0 || o.search_index < o.search_results.len()
        },
{
}

/// A tick counts one more tick; it asks for the playback state exactly on
/// every twelfth tick (12, 24, 36, ...) and clears the status exactly on
/// every sixteenth; so twelve ticks later the same tick asks for the same.
pub proof fn law_tick_polls_every_twelve(s: AppView)
    requires
        s.tick_count < u64::MAX,
    ensures
        tick_result(s).0.tick_count == s.tick_count + 1,
        (tick_result(s).1 is Some) <==> (s.tick_count + 1) % 12 == 0,
        (s.tick_count + 1) % 12 == 0 ==> {
            &&& tick_result(s).1 == Some(CommandView::Call(RequestView::GetPlayback))
            &&& tick_result(s).0.pending == (PendingView::Playback { report: false })
        },
        (s.tick_count + 1) % 16 == 0 ==> tick_result(s).0.status_msg is None,
        (s.tick_count + 1) % 16 != 0 ==> tick_result(s).0.status_msg == s.status_msg,
        s.tick_count + 13 <= u64::MAX ==> tick_result(AppView { tick_count: (s.tick_count + 12) as u64, ..s }).1
            == tick_result(s).1,
{
}

/// The bound keys act whatever modifiers are held with them (only `c` is
/// bound with Control alone, to quit); any other character typed alone or
/// with Shift is typed text, and with other modifiers does nothing.
pub proof fn law_bound_keys_ignore_modifiers(m: u8, c: char)
    ensures
        binding(KeyPress { code: Key::Char('q'), modifiers: m }) == Some(Action::Quit),
        binding(KeyPress { code: Key::Char('c'), modifiers: MOD_CONTROL }) == Some(Action::Quit),
        binding(KeyPress { code: Key::Char(' '), modifiers: m }) == Some(Action::TogglePlay),
        binding(KeyPress { code: Key::Char('n'), modifiers: m }) == Some(Action::Next),
        binding(KeyPress { code: Key::Char('>'), modifiers: m }) == Some(Action::Next),
        binding(KeyPress { code: Key::Char('p'), modifiers: m }) == Some(Action::Previous),
        binding(KeyPress { code: Key::Char('<'), modifiers: m }) == Some(Action::Previous),
        binding(KeyPress { code: Key::Char('+'), modifiers: m }) == Some(Action::VolumeUp),
        binding(KeyPress { code: Key::Char('='), modifiers: m }) == Some(Action::VolumeUp),
        binding(KeyPress { code: Key::Char('-'), modifiers: m }) == Some(Action::VolumeDown),
        binding(KeyPress { code: Key::Char('s'), modifiers: m }) == Some(Action::ToggleShuffle),
        binding(KeyPress { code: Key::Char('r'), modifiers: m }) == Some(Action::ToggleRepeat),
        binding(KeyPress { code: Key::Char('j'), modifiers: m }) == Some(Action::NavDown),
        binding(KeyPress { code: Key::Char('k'), modifiers: m }) == Some(Action::NavUp),
        binding(KeyPress { code: Key::Char('h'), modifiers: m }) == Some(Action::NavLeft),
        binding(KeyPress { code: Key::Char('l'), modifiers: m }) == Some(Action::NavRight),
        binding(KeyPress { code: Key::Char('/'), modifiers: m }) == Some(Action::Search),
        binding(KeyPress { code: Key::Char('R'), modifiers: m }) == Some(Action::Refresh),
        binding(KeyPress { code: Key::Down, modifiers: m }) == Some(Action::NavDown),
        binding(KeyPress { code: Key::Up, modifiers: m }) == Some(Action::NavUp),
        binding(KeyPress { code: Key::Left, modifiers: m }) == Some(Action::NavLeft),
        binding(KeyPress { code: Key::Right, modifiers: m }) == Some(Action::NavRight),
        binding(KeyPress { code: Key::Enter, modifiers: m }) == Some(Action::Select),
        binding(KeyPress { code: Key::Tab, modifiers: m }) == Some(Action::Tab),
        binding(KeyPress { code: Key::Esc, modifiers: m }) == Some(Action::Escape),
        binding(KeyPress { code: Key::Backspace, modifiers: m }) == Some(Action::Backspace),
        binding(KeyPress { code: Key::Other, modifiers: m }) is None,
        !bound_char(c) && c != 'c' ==> binding(KeyPress { code: Key::Char(c), modifiers: m })
            == if m == MOD_NONE || m == MOD_SHIFT { Some(Action::Char(c)) } else { None },
        !bound_char(c) && c == 'c' && m != MOD_CONTROL ==> binding(KeyPress { code: Key::Char(c), modifiers: m })
            == if m == MOD_NONE || m == MOD_SHIFT { Some(Action::Char(c)) } else { None },
{
}

/// The characters bound to an action with any modifiers.
pub open spec fn bound_char(c: char) -> bool {
    seq!['q', ' ', 'n', '>', 'p', '<', '+', '=', '-', 's', 'r', 'j', 'k', 'h', 'l', '/', 'R'].contains(c)
}

/// The number that a text of decimal digits stands for.
pub open spec fn digits_value(d: Seq<char>) -> nat
    decreases d.len(),
{
    if d.len() == 0 {
        0
    } else {
        digits_value(d.drop_last()) * 10 + ((d.last() as int) - 48) as nat
    }
}

/// A text made of decimal digits only.
pub open spec fn all_digits(d: Seq<char>) -> bool {
    forall|i: int| 0 <= i < d.len() ==> '0' <= #[trigger] d[i] <= '9'
}

/// The decimal text of a number is a nonempty run of digits that reads
/// back as that number.
pub proof fn lemma_decimal_reads_back(n: nat)
    ensures
        decimal(n).len() > 0,
        all_digits(decimal(n)),
        digits_value(decimal(n)) == n,
    decreases n,
{
    if n >= 10 {
        lemma_decimal_reads_back(n / 10);
        let d = decimal(n);
        assert(d.drop_last() =~= decimal(n / 10));
        assert(d.last() == digit_char(n % 10));
        assert((digit_char(n % 10) as nat) == 48 + n % 10);
        assert(n == (n / 10) * 10 + n % 10);
        assert(digits_value(d) == digits_value(decimal(n / 10)) * 10 + n % 10);
    } else {
        assert((digit_char(n) as nat) == 48 + n);
        assert(decimal(n).drop_last() =~= Seq::<char>::empty());
        assert(digits_value(Seq::<char>::empty()) == 0);
        assert(decimal(n).last() == digit_char(n));
    }
}

/// Two runs of digits, each followed by the same non-digit text, split the
/// same way when the wholes are equal.
proof fn lemma_split_at_digits(a1: Seq<char>, a2: Seq<char>, sep: Seq<char>, b1: Seq<char>, b2: Seq<char>)
    requires
        all_digits(a1),
        all_digits(a2),
        sep.len() > 0,
        !('0' <= sep[0] <= '9'),
        a1 + sep + b1 == a2 + sep + b2,
    ensures
        a1 == a2,
        b1 == b2,
{
    let w1 = a1 + sep + b1;
    let w2 = a2 + sep + b2;
    if a1.len() < a2.len() {
        assert(w1[a1.len() as int] == sep[0]);
        assert(w2[a1.len() as int] == a2[a1.len() as int]);
    } else if a2.len() < a1.len() {
        assert(w2[a2.len() as int] == sep[0]);
        assert(w1[a2.len() as int] == a1[a2.len() as int]);
    }
    assert(a1 =~= w1.take(a1.len() as int));
    assert(a2 =~= w2.take(a2.len() as int));
    assert(b1 =~= w1.skip((a1.len() + sep.len()) as int));
    assert(b2 =~= w2.skip((a2.len() + sep.len()) as int));
}

/// Pages of a listing (the user's playlists or liked songs) are told apart
/// by their URLs: two requests of the same kind give the same URL only if
/// they ask for the same limit and the same offset.
pub proof fn law_page_urls_distinct(l1: u32, o1: u32, l2: u32, o2: u32)
    ensures
        request_url(RequestView::GetPlaylists { limit: l1, offset: o1 })
            == request_url(RequestView::GetPlaylists { limit: l2, offset: o2 }) ==> l1 == l2 && o1 == o2,
        request_url(RequestView::GetLikedSongs { limit: l1, offset: o1 })
            == request_url(RequestView::GetLikedSongs { limit: l2, offset: o2 }) ==> l1 == l2 && o1 == o2,
{
    reveal_strlit("https://api.spotify.com/v1/me/playlists?limit=");
    reveal_strlit("https://api.spotify.com/v1/me/tracks?limit=");
    reveal_strlit("&offset=");
    lemma_decimal_reads_back(l1 as nat);
    lemma_decimal_reads_back(l2 as nat);
    lemma_decimal_reads_back(o1 as nat);
    lemma_decimal_reads_back(o2 as nat);
    let (dl1, dl2, do1, do2) = (decimal(l1 as nat), decimal(l2 as nat), decimal(o1 as nat), decimal(o2 as nat));
    let sep = "&offset="@;
    let pp = "https://api.spotify.com/v1/me/playlists?limit="@;
    let pt = "https://api.spotify.com/v1/me/tracks?limit="@;
    if request_url(RequestView::GetPlaylists { limit: l1, offset: o1 })
        == request_url(RequestView::GetPlaylists { limit: l2, offset: o2 }) {
        let u1 = pp + dl1 + sep + do1;
        let u2 = pp + dl2 + sep + do2;
        assert(dl1 + sep + do1 =~= u1.skip(pp.len() as int));
        assert(dl2 + sep + do2 =~= u2.skip(pp.len() as int));
        lemma_split_at_digits(dl1, dl2, sep, do1, do2);
    }
    if request_url(RequestView::GetLikedSongs { limit: l1, offset: o1 })
        == request_url(RequestView::GetLikedSongs { limit: l2, offset: o2 }) {
        let u1 = pt + dl1 + sep + do1;
        let u2 = pt + dl2 + sep + do2;
        assert(dl1 + sep + do1 =~= u1.skip(pt.len() as int));
        assert(dl2 + sep + do2 =~= u2.skip(pt.len() as int));
        lemma_split_at_digits(dl1, dl2, sep, do1, do2);
    }
}

} // verus!
