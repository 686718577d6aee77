use spotify_session::error::FetchError;
use spotify_session::spotify::{
    command_outcome, playback_outcome, playlist_context_uri, playlists_outcome, skip_endpoint,
    Playlist, PlaylistTracks, PlaylistsResponse, SkipDirection, SpotifyPlayer,
};

#[test]
fn no_content_is_an_idle_snapshot() {
    let p = playback_outcome(204, None).unwrap();
    assert!(!p.is_playing);
    assert!(p.item.is_none());
    assert_eq!(p.progress_ms, None);
}

#[test]
fn playback_failures_carry_the_status() {
    assert_eq!(playback_outcome(500, None).unwrap_err(), FetchError::Status(500));
    assert_eq!(playback_outcome(401, None).unwrap_err(), FetchError::Status(401));
    assert_eq!(playback_outcome(200, None).unwrap_err(), FetchError::Transport);
}

#[test]
fn decoded_snapshot_is_returned() {
    let p = SpotifyPlayer { is_playing: true, item: None, progress_ms: Some(42) };
    let r = playback_outcome(200, Some(p)).unwrap();
    assert!(r.is_playing);
    assert_eq!(r.progress_ms, Some(42));
}

#[test]
fn commands_succeed_on_2xx_only() {
    assert_eq!(command_outcome(204), Ok(()));
    assert_eq!(command_outcome(200), Ok(()));
    assert_eq!(command_outcome(404), Err(FetchError::Status(404)));
    assert_eq!(command_outcome(199), Err(FetchError::Status(199)));
}

#[test]
fn playlists_reply() {
    let body = PlaylistsResponse {
        items: vec![Playlist {
            id: "x".to_string(),
            name: "Mix".to_string(),
            tracks: PlaylistTracks { total: 7 },
            images: vec![],
        }],
    };
    let lists = playlists_outcome(200, Some(body)).unwrap();
    assert_eq!(lists.len(), 1);
    assert_eq!(lists[0].id, "x");
    assert_eq!(playlists_outcome(403, None).unwrap_err(), FetchError::Status(403));
    assert_eq!(playlists_outcome(200, None).unwrap_err(), FetchError::Transport);
}

#[test]
fn skip_endpoints_and_context() {
    assert_eq!(skip_endpoint(SkipDirection::Next), "https://api.spotify.com/v1/me/player/next");
    assert_eq!(
        skip_endpoint(SkipDirection::Previous),
        "https://api.spotify.com/v1/me/player/previous"
    );
    assert_eq!(playlist_context_uri(&"37i9".to_string()), "spotify:playlist:37i9");
}
