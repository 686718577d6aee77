use spotify_session::error::FetchError;
use spotify_session::session::{poll_due, Command, Key, Page, Session};
use spotify_session::spotify::{
    Album, Artist, Playlist, PlaylistTracks, SkipDirection, SpotifyPlayer, Track,
};

fn playlist(id: &str) -> Playlist {
    Playlist {
        id: id.to_string(),
        name: format!("list {}", id),
        tracks: PlaylistTracks { total: 3 },
        images: vec![],
    }
}

fn playing(name: &str, progress: i64) -> SpotifyPlayer {
    SpotifyPlayer {
        is_playing: true,
        item: Some(Track {
            name: name.to_string(),
            artists: vec![Artist { name: "A".to_string() }],
            duration_ms: 200_000,
            album: Album { images: vec![] },
        }),
        progress_ms: Some(progress),
    }
}

fn session(n: usize) -> Session {
    let lists = (0..n).map(|i| playlist(&format!("p{}", i))).collect();
    Session::new(playing("song", 1000), lists)
}

fn now_playing() -> Session {
    let mut s = session(2);
    let cmd = s.handle_key(Key::Enter);
    assert!(matches!(cmd, Command::Play(_)));
    assert_eq!(s.page, Page::NowPlaying);
    s
}

#[test]
fn new_session_selects_first_playlist() {
    let s = session(3);
    assert_eq!(s.page, Page::PlaylistList);
    assert_eq!(s.selected, Some(0));
    assert_eq!(s.track_name, Some("song".to_string()));
    assert!(!s.exit);
    assert_eq!(session(0).selected, None);
}

#[test]
fn selection_moves_and_stops_at_the_ends() {
    let mut s = session(3);
    s.handle_key(Key::Up);
    assert_eq!(s.selected, Some(0));
    s.handle_key(Key::Down);
    s.handle_key(Key::Char('j'));
    assert_eq!(s.selected, Some(2));
    s.handle_key(Key::Down);
    assert_eq!(s.selected, Some(2));
    s.handle_key(Key::Char('k'));
    assert_eq!(s.selected, Some(1));
}

#[test]
fn empty_list_ignores_moves_and_enter() {
    let mut s = session(0);
    for key in [Key::Up, Key::Down, Key::Enter] {
        assert!(matches!(s.handle_key(key), Command::Nothing));
        assert_eq!(s.selected, None);
        assert_eq!(s.page, Page::PlaylistList);
    }
}

#[test]
fn enter_plays_selected_playlist() {
    let mut s = session(3);
    s.handle_key(Key::Down);
    match s.handle_key(Key::Enter) {
        Command::Play(id) => assert_eq!(id, "p1"),
        other => panic!("expected play: {:?}", other),
    }
    assert_eq!(s.page, Page::NowPlaying);
}

#[test]
fn q_exits_from_either_page() {
    let mut s = session(1);
    s.handle_key(Key::Char('q'));
    assert!(s.exit);
    let mut t = now_playing();
    t.handle_key(Key::Char('q'));
    assert!(t.exit);
}

#[test]
fn esc_and_p_return_to_the_list() {
    let mut s = now_playing();
    assert!(matches!(s.handle_key(Key::Esc), Command::Nothing));
    assert_eq!(s.page, Page::PlaylistList);
    let mut t = now_playing();
    t.handle_key(Key::Char('p'));
    assert_eq!(t.page, Page::PlaylistList);
}

#[test]
fn arrows_skip_on_now_playing() {
    let mut s = now_playing();
    assert!(matches!(s.handle_key(Key::Right), Command::Skip(SkipDirection::Next)));
    assert!(matches!(s.handle_key(Key::Left), Command::Skip(SkipDirection::Previous)));
    assert_eq!(s.page, Page::NowPlaying);
}

#[test]
fn failed_skip_leaves_page_and_snapshot() {
    let mut s = now_playing();
    assert!(matches!(s.handle_key(Key::Right), Command::Skip(SkipDirection::Next)));
    let changed = s.apply_playback(Err(FetchError::Transport));
    assert!(!changed);
    assert_eq!(s.page, Page::NowPlaying);
    assert_eq!(s.player.progress_ms, Some(1000));
    assert_eq!(s.player.item.as_ref().map(|t| t.name.as_str()), Some("song"));
    assert_eq!(s.track_name, Some("song".to_string()));
}

#[test]
fn repeated_poll_of_same_state_is_stable() {
    let mut s = session(1);
    let first = s.apply_playback(Ok(playing("next", 5000)));
    assert!(first);
    let second = s.apply_playback(Ok(playing("next", 5000)));
    assert!(!second);
    assert_eq!(s.track_name, Some("next".to_string()));
    assert_eq!(s.player.progress_ms, Some(5000));
}

#[test]
fn poll_replaces_snapshot_whole() {
    let mut s = session(1);
    let idle = SpotifyPlayer { is_playing: false, item: None, progress_ms: None };
    assert!(s.apply_playback(Ok(idle)));
    assert!(!s.player.is_playing);
    assert!(s.player.item.is_none());
    assert_eq!(s.player.progress_ms, None);
    assert_eq!(s.track_name, None);
}

#[test]
fn polls_are_due_once_a_second() {
    assert!(!poll_due(0, false));
    assert!(!poll_due(999, false));
    assert!(poll_due(1000, false));
    assert!(poll_due(5000, false));
}

#[test]
fn refetch_by_a_command_replaces_the_timer_fetch() {
    assert!(!poll_due(1000, true));
    assert!(!poll_due(5000, true));
    assert!(!poll_due(0, true));
}

#[test]
fn poll_returning_cached_snapshot_changes_nothing() {
    let mut s = session(2);
    s.handle_key(Key::Down);
    assert!(!s.apply_playback(Ok(playing("song", 1000))));
    assert_eq!(s.track_name, Some("song".to_string()));
    assert_eq!(s.player.progress_ms, Some(1000));
    assert_eq!(s.selected, Some(1));
    assert_eq!(s.page, Page::PlaylistList);
}
