use vstd::prelude::*;
use crate::spotify::{Artist, Playlist, PlaylistView, PlayerView, SpotifyPlayer};
use crate::utils::{format_time, int_text, join_texts, joined, push_int, texts_view, time_text};

verus! {

/// The texts of the now-playing page.
#[derive(Debug)]
pub struct NowPlayingLabels {
    pub title: String,
    pub artists: String,
    pub elapsed: String,
    pub remaining: String,
    pub percent: u16,
}

/// `v` brought into the range of `i64`.
pub open spec fn clamp_i64(v: int) -> int {
    if v < i64::MIN {
        i64::MIN as int
    } else if v > i64::MAX {
        i64::MAX as int
    } else {
        v
    }
}

/// Share of the track already played, in whole percent, within `0..=100`;
/// 0 for a track without a positive duration.
pub open spec fn percent_played(progress_ms: int, duration_ms: int) -> int {
    if duration_ms <= 0 || progress_ms <= 0 {
        0
    } else if progress_ms >= duration_ms {
        100
    } else {
        progress_ms * 100 / duration_ms
    }
}

pub open spec fn progress_of(p: PlayerView) -> int {
    match p.progress_ms {
        Some(v) => v as int,
        None => 0,
    }
}

pub open spec fn duration_of(p: PlayerView) -> int {
    match p.item {
        Some(t) => t.duration_ms as int,
        None => 0,
    }
}

pub open spec fn title_of(p: PlayerView) -> Seq<char> {
    match p.item {
        Some(t) => t.name,
        None => "No track playing"@,
    }
}

pub open spec fn artists_of(p: PlayerView) -> Seq<char> {
    match p.item {
        Some(t) => joined(t.artists, ", "@),
        None => Seq::<char>::empty(),
    }
}

fn artist_names(artists: &Vec<Artist>) -> (r: Vec<String>)
    ensures
        texts_view(r@) == artists@.map_values(|a: Artist| a.name@),
{
    let mut names: Vec<String> = Vec::new();
    let mut i: usize = 0;
    while i < artists.len()
        invariant
            i <= artists@.len(),
            texts_view(names@) =~= artists@.subrange(0, i as int).map_values(|a: Artist| a.name@),
        decreases artists.len() - i,
    {
        let ghost before = names@;
        names.push(artists[i].name.clone());
        assert(texts_view(names@) =~= texts_view(before).push(artists@[i as int].name@));
        assert(artists@.subrange(0, i + 1).map_values(|a: Artist| a.name@) =~= artists@.subrange(
            0,
            i as int,
        ).map_values(|a: Artist| a.name@).push(artists@[i as int].name@));
        i = i + 1;
    }
    assert(artists@.subrange(0, artists@.len() as int) =~= artists@);
    names
}

fn percent(progress_ms: i64, duration_ms: i64) -> (r: u16)
    ensures
        r as int == percent_played(progress_ms as int, duration_ms as int),
{
    if duration_ms <= 0 || progress_ms <= 0 {
        0
    } else if progress_ms >= duration_ms {
        100
    } else {
        let scaled = (progress_ms as i128) * 100;
        let q = scaled / (duration_ms as i128);
        assert(q <= 100) by (nonlinear_arith)
            requires
                q == (progress_ms as int) * 100 / (duration_ms as int),
                0 < progress_ms < duration_ms,
        ;
        q as u16
    }
}

/// What the now-playing page shows of a snapshot: the track's name (or a
/// placeholder), its artists joined by `, `, the time played, the time left
/// behind a minus sign, and the share played.
pub fn now_playing_labels(player: &SpotifyPlayer) -> (r: NowPlayingLabels)
    ensures
        r.title@ == title_of(player@),
        r.artists@ == artists_of(player@),
        r.elapsed@ == time_text(progress_of(player@)),
        r.remaining@ == seq!['-'] + time_text(clamp_i64(duration_of(player@) - progress_of(player@))),
        r.percent as int == percent_played(progress_of(player@), duration_of(player@)),
{
    let (title, artists, duration_ms) = match &player.item {
        Some(t) => (t.name.clone(), join_texts(&artist_names(&t.artists), ", "), t.duration_ms),
        None => (String::from_str("No track playing"), String::new(), 0i64),
    };
    let progress_ms: i64 = match player.progress_ms {
        Some(v) => v,
        None => 0,
    };
    let left = (duration_ms as i128) - (progress_ms as i128);
    let left: i64 = if left < i64::MIN as i128 {
        i64::MIN
    } else if left > i64::MAX as i128 {
        i64::MAX
    } else {
        left as i64
    };
    let mut remaining = String::from_str("-");
    proof { reveal_strlit("-"); }
    remaining.append(format_time(left).as_str());
    NowPlayingLabels {
        title,
        artists,
        elapsed: format_time(progress_ms),
        remaining,
        percent: percent(progress_ms, duration_ms),
    }
}

/// A playlist's row in the list: its name and its number of tracks.
pub open spec fn playlist_label_text(p: PlaylistView) -> Seq<char> {
    p.name + " ("@ + int_text(p.total as int) + " tracks)"@
}

pub fn playlist_label(playlist: &Playlist) -> (r: String)
    ensures
        r@ == playlist_label_text(playlist@),
{
    let mut s = playlist.name.clone();
    s.append(" (");
    push_int(&mut s, playlist.tracks.total as i64);
    s.append(" tracks)");
    s
}

} // verus!
