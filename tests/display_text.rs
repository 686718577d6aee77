use spotify_session::display::{now_playing_labels, playlist_label};
use spotify_session::form::encode_form;
use spotify_session::spotify::{
    Album, Artist, Playlist, PlaylistTracks, SpotifyPlayer, Track,
};
use spotify_session::utils::format_time;

#[test]
fn format_time_examples() {
    assert_eq!(format_time(0), "0:00");
    assert_eq!(format_time(999), "0:00");
    assert_eq!(format_time(61_000), "1:01");
    assert_eq!(format_time(600_000), "10:00");
    assert_eq!(format_time(3_599_999), "59:59");
    assert_eq!(format_time(-61_000), "-1:-1");
    assert_eq!(format_time(-5_000), "0:-5");
    assert_eq!(format_time(i64::MIN), "-153722867280912:-55");
}

#[test]
fn labels_of_a_playing_track() {
    let p = SpotifyPlayer {
        is_playing: true,
        item: Some(Track {
            name: "Song".to_string(),
            artists: vec![Artist { name: "A".to_string() }, Artist { name: "B".to_string() }],
            duration_ms: 200_000,
            album: Album { images: vec![] },
        }),
        progress_ms: Some(50_000),
    };
    let l = now_playing_labels(&p);
    assert_eq!(l.title, "Song");
    assert_eq!(l.artists, "A, B");
    assert_eq!(l.elapsed, "0:50");
    assert_eq!(l.remaining, "-2:30");
    assert_eq!(l.percent, 25);
}

#[test]
fn labels_when_nothing_plays() {
    let p = SpotifyPlayer { is_playing: false, item: None, progress_ms: None };
    let l = now_playing_labels(&p);
    assert_eq!(l.title, "No track playing");
    assert_eq!(l.artists, "");
    assert_eq!(l.elapsed, "0:00");
    assert_eq!(l.remaining, "-0:00");
    assert_eq!(l.percent, 0);
}

#[test]
fn percent_is_capped_at_full() {
    let p = SpotifyPlayer {
        is_playing: true,
        item: Some(Track {
            name: "S".to_string(),
            artists: vec![],
            duration_ms: 1000,
            album: Album { images: vec![] },
        }),
        progress_ms: Some(5000),
    };
    assert_eq!(now_playing_labels(&p).percent, 100);
}

#[test]
fn playlist_row_text() {
    let p = Playlist {
        id: "i".to_string(),
        name: "Chill".to_string(),
        tracks: PlaylistTracks { total: 12 },
        images: vec![],
    };
    assert_eq!(playlist_label(&p), "Chill (12 tracks)");
}

#[test]
fn form_encoding_escapes_reserved_characters() {
    let pairs = vec![
        ("a b".to_string(), "x&y=z".to_string()),
        ("k".to_string(), "é".to_string()),
    ];
    assert_eq!(encode_form(&pairs), "a+b=x%26y%3Dz&k=%C3%A9");
    assert_eq!(encode_form(&vec![]), "");
}
