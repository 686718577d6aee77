use vstd::prelude::*;
use crate::error::FetchError;
use crate::spotify::{Playlist, PlaylistView, PlayerView, SkipDirection, SpotifyPlayer};

verus! {

/// How long the snapshot may age before the next poll.
pub const POLL_INTERVAL_MS: u64 = 1000;

#[derive(Debug, Clone, Copy, PartialEq, Eq, Structural)]
pub enum Page {
    PlaylistList,
    NowPlaying,
}

/// A key press, as far as the session tells keys apart.
#[derive(Debug, Clone, Copy, PartialEq, Eq, Structural)]
pub enum Key {
    Char(char),
    Up,
    Down,
    Left,
    Right,
    Enter,
    Esc,
    Other,
}

/// A call to the remote service that a key press asks for.
#[derive(Debug)]
pub enum Command {
    Nothing,
    /// Start playback of the playlist with this id.
    Play(String),
    /// Skip, then fetch the snapshot and hand it to `apply_playback`.
    Skip(SkipDirection),
}

pub enum CommandView {
    Nothing,
    Play(Seq<char>),
    Skip(SkipDirection),
}

impl View for Command {
    type V = CommandView;

    open spec fn view(&self) -> CommandView {
        match self {
            Command::Nothing => CommandView::Nothing,
            Command::Play(id) => CommandView::Play(id@),
            Command::Skip(d) => CommandView::Skip(*d),
        }
    }
}

/// The interactive session: the page shown, the selection in the playlist
/// list, the cached playlists and snapshot, and whether to stop.
#[derive(Debug)]
pub struct Session {
    pub page: Page,
    pub selected: Option<usize>,
    pub playlists: Vec<Playlist>,
    pub player: SpotifyPlayer,
    pub track_name: Option<String>,
    pub exit: bool,
}

pub struct SessionView {
    pub page: Page,
    pub selected: Option<usize>,
    pub playlists: Seq<PlaylistView>,
    pub player: PlayerView,
    pub track_name: Option<Seq<char>>,
    pub exit: bool,
}

pub open spec fn playlists_view(v: Seq<Playlist>) -> Seq<PlaylistView> {
    v.map_values(|p: Playlist| p@)
}

impl View for Session {
    type V = SessionView;

    open spec fn view(&self) -> SessionView {
        SessionView {
            page: self.page,
            selected: self.selected,
            playlists: playlists_view(self.playlists@),
            player: self.player@,
            track_name: match self.track_name {
                Some(n) => Some(n@),
                None => None,
            },
            exit: self.exit,
        }
    }
}

/// A selection exists exactly when there are playlists, and lies among them.
pub open spec fn selection_ok(s: SessionView) -> bool {
    match s.selected {
        Some(i) => i < s.playlists.len(),
        None => s.playlists.len() == 0,
    }
}

/// The identity of the track a snapshot plays: its name.
pub open spec fn track_name_of(p: PlayerView) -> Option<Seq<char>> {
    match p.item {
        Some(t) => Some(t.name),
        None => None,
    }
}

/// The invariant of a session: a valid selection, and the cached track name
/// is that of the cached snapshot.
pub open spec fn session_ok(s: SessionView) -> bool {
    selection_ok(s) && s.track_name == track_name_of(s.player)
}

/// The session after a fetched snapshot replaces the cached one.
pub open spec fn polled(s: SessionView, p: PlayerView) -> SessionView {
    SessionView { player: p, track_name: track_name_of(p), ..s }
}

/// Whether a fetched snapshot plays another track than the cached one; what
/// derives from the track (its cover art) is then stale.
pub open spec fn track_changed(s: SessionView, p: PlayerView) -> bool {
    track_name_of(p) != s.track_name
}

/// The session and the command after a key press.
pub open spec fn key_step(s: SessionView, key: Key) -> (SessionView, CommandView) {
    let n = s.playlists.len();
    if key == Key::Char('q') {
        (SessionView { exit: true, ..s }, CommandView::Nothing)
    } else {
        match s.page {
            Page::PlaylistList => if key == Key::Up || key == Key::Char('k') {
                match s.selected {
                    Some(i) => if i > 0 {
                        (SessionView { selected: Some((i - 1) as usize), ..s }, CommandView::Nothing)
                    } else {
                        (s, CommandView::Nothing)
                    },
                    None => (s, CommandView::Nothing),
                }
            } else if key == Key::Down || key == Key::Char('j') {
                match s.selected {
                    Some(i) => if i + 1 < n {
                        (SessionView { selected: Some((i + 1) as usize), ..s }, CommandView::Nothing)
                    } else {
                        (s, CommandView::Nothing)
                    },
                    None => (s, CommandView::Nothing),
                }
            } else if key == Key::Enter {
                match s.selected {
                    Some(i) => if i < n {
                        (
                            SessionView { page: Page::NowPlaying, ..s },
                            CommandView::Play(s.playlists[i as int].id),
                        )
                    } else {
                        (s, CommandView::Nothing)
                    },
                    None => (s, CommandView::Nothing),
                }
            } else {
                (s, CommandView::Nothing)
            },
            Page::NowPlaying => if key == Key::Esc || key == Key::Char('p') {
                (SessionView { page: Page::PlaylistList, ..s }, CommandView::Nothing)
            } else if key == Key::Left {
                (s, CommandView::Skip(SkipDirection::Previous))
            } else if key == Key::Right {
                (s, CommandView::Skip(SkipDirection::Next))
            } else {
                (s, CommandView::Nothing)
            },
        }
    }
}

fn name_of(player: &SpotifyPlayer) -> (r: Option<String>)
    ensures
        match r {
            Some(n) => track_name_of(player@) == Some(n@),
            None => track_name_of(player@) is None,
        },
{
    match &player.item {
        Some(t) => Some(t.name.clone()),
        None => None,
    }
}

fn same_name(a: &Option<String>, b: &Option<String>) -> (r: bool)
    ensures
        r == (match a {
            Some(x) => Some(x@),
            None => None,
        } == match b {
            Some(y) => Some(y@),
            None => None,
        }),
{
    match (a, b) {
        (Some(x), Some(y)) => *x == *y,
        (None, None) => true,
        _ => false,
    }
}

/// Whether the timer fetch is due, `elapsed_ms` after the last remote
/// refresh. A command that fetched the snapshot in this tick stands in for it.
pub fn poll_due(elapsed_ms: u64, refetched: bool) -> (r: bool)
    ensures
        r == (!refetched && elapsed_ms >= POLL_INTERVAL_MS),
{
    !refetched && elapsed_ms >= POLL_INTERVAL_MS
}

impl Session {
    pub open spec fn wf(&self) -> bool {
        session_ok(self@)
    }

    /// A session on the playlist list, the first playlist selected if any.
    pub fn new(player: SpotifyPlayer, playlists: Vec<Playlist>) -> (r: Self)
        ensures
            r.wf(),
            r@.page == Page::PlaylistList,
            r@.selected == (if playlists@.len() > 0 { Some(0usize) } else { None }),
            r@.playlists == playlists_view(playlists@),
            r.player == player,
            r@.track_name == track_name_of(player@),
            !r@.exit,
    {
        let track_name = name_of(&player);
        let selected = if playlists.len() > 0 { Some(0usize) } else { None };
        Session { page: Page::PlaylistList, selected, playlists, player, track_name, exit: false }
    }

    /// Handles one key press on the current page; returns the remote call it asks for.
    pub fn handle_key(&mut self, key: Key) -> (r: Command)
        requires
            old(self).wf(),
        ensures
            final(self).wf(),
            (final(self)@, r@) == key_step(old(self)@, key),
    {
        assert(self@.playlists.len() == self.playlists@.len());
        if key == Key::Char('q') {
            self.exit = true;
            return Command::Nothing;
        }
        match self.page {
            Page::PlaylistList => {
                if key == Key::Up || key == Key::Char('k') {
                    if let Some(i) = self.selected {
                        if i > 0 {
                            self.selected = Some(i - 1);
                        }
                    }
                    Command::Nothing
                } else if key == Key::Down || key == Key::Char('j') {
                    let n = self.playlists.len();
                    if let Some(i) = self.selected {
                        if i + 1 < n {
                            self.selected = Some(i + 1);
                        }
                    }
                    Command::Nothing
                } else if key == Key::Enter {
                    match self.selected {
                        Some(i) => if i < self.playlists.len() {
                            let id = self.playlists[i].id.clone();
                            self.page = Page::NowPlaying;
                            Command::Play(id)
                        } else {
                            Command::Nothing
                        },
                        None => Command::Nothing,
                    }
                } else {
                    Command::Nothing
                }
            },
            Page::NowPlaying => {
                if key == Key::Esc || key == Key::Char('p') {
                    self.page = Page::PlaylistList;
                    Command::Nothing
                } else if key == Key::Left {
                    Command::Skip(SkipDirection::Previous)
                } else if key == Key::Right {
                    Command::Skip(SkipDirection::Next)
                } else {
                    Command::Nothing
                }
            },
        }
    }

    /// Takes the result of a snapshot fetch (a poll, or the fetch after a
    /// skip). A fetched snapshot replaces the cached one whole; a failure
    /// keeps the cached one. Returns whether the track changed.
    pub fn apply_playback(&mut self, fetched: Result<SpotifyPlayer, FetchError>) -> (r: bool)
        requires
            old(self).wf(),
        ensures
            final(self).wf(),
            match fetched {
                Ok(p) => {
                    &&& final(self)@ == polled(old(self)@, p@)
                    &&& final(self).player == p
                    &&& r == track_changed(old(self)@, p@)
                },
                Err(_) => final(self)@ == old(self)@ && !r,
            },
    {
        match fetched {
            Ok(p) => {
                let name = name_of(&p);
                let changed = !same_name(&name, &self.track_name);
                self.track_name = name;
                self.player = p;
                changed
            },
            Err(_) => false,
        }
    }
}

/// Fetching the same remote state twice: the second fetch leaves the
/// session as the first left it, and does not mark the track as changed.
pub proof fn lemma_repeated_poll_is_stable(s: SessionView, first: PlayerView, second: PlayerView)
    requires
        first == second,
    ensures
        polled(polled(s, first), second) == polled(s, first),
        !track_changed(polled(s, first), second),
{
}

/// A fetch that returns the cached snapshot changes nothing in a session
/// and does not mark the track as changed, so its cover art stays.
pub proof fn lemma_unchanged_poll_is_noop(s: SessionView, p: PlayerView)
    requires
        session_ok(s),
        p == s.player,
    ensures
        polled(s, p) == s,
        !track_changed(s, p),
{
}

/// No key moves the selection out of the playlist list.
pub proof fn lemma_selection_stays_in_bounds(s: SessionView, key: Key)
    requires
        session_ok(s),
    ensures
        session_ok(key_step(s, key).0),
        key_step(s, key).0.playlists == s.playlists,
{
}

/// With no playlists, Enter changes nothing and asks for nothing.
pub proof fn lemma_enter_without_playlists(s: SessionView)
    requires
        session_ok(s),
        s.playlists.len() == 0,
        s.page == Page::PlaylistList,
    ensures
        key_step(s, Key::Enter) == (s, CommandView::Nothing),
{
}

} // verus!
