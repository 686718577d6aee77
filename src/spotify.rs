use vstd::prelude::*;
use crate::error::{is_success, status_is_success, FetchError};

verus! {

/// The playback state of the account.
pub const PLAYER_ENDPOINT: &'static str = "https://api.spotify.com/v1/me/player";

/// Skips to the next track.
pub const NEXT_ENDPOINT: &'static str = "https://api.spotify.com/v1/me/player/next";

/// Skips to the previous track.
pub const PREVIOUS_ENDPOINT: &'static str = "https://api.spotify.com/v1/me/player/previous";

/// The account's playlists.
pub const PLAYLISTS_ENDPOINT: &'static str = "https://api.spotify.com/v1/me/playlists";

/// Starts playback of a context.
pub const PLAY_ENDPOINT: &'static str = "https://api.spotify.com/v1/me/player/play";

/// The status by which the player endpoint says that nothing is playing.
pub const NO_CONTENT: u16 = 204;

#[derive(Debug, Clone, Copy, PartialEq, Eq, Structural)]
pub enum SkipDirection {
    Next,
    Previous,
}

/// A snapshot of the playback state.
#[derive(Debug)]
pub struct SpotifyPlayer {
    pub is_playing: bool,
    pub item: Option<Track>,
    pub progress_ms: Option<i64>,
}

#[derive(Debug)]
pub struct Track {
    pub name: String,
    pub artists: Vec<Artist>,
    pub duration_ms: i64,
    pub album: Album,
}

#[derive(Debug)]
pub struct Album {
    pub images: Vec<Image>,
}

#[derive(Debug, Clone)]
pub struct Image {
    pub url: String,
    pub height: Option<i32>,
    pub width: Option<i32>,
}

#[derive(Debug)]
pub struct Artist {
    pub name: String,
}

#[derive(Debug)]
pub struct PlaylistsResponse {
    pub items: Vec<Playlist>,
}

#[derive(Debug, Clone)]
pub struct Playlist {
    pub id: String,
    pub name: String,
    pub tracks: PlaylistTracks,
    pub images: Vec<Image>,
}

#[derive(Debug, Clone, Copy, PartialEq, Eq, Structural)]
pub struct PlaylistTracks {
    pub total: i32,
}

pub struct ImageView {
    pub url: Seq<char>,
    pub height: Option<i32>,
    pub width: Option<i32>,
}

pub struct TrackView {
    pub name: Seq<char>,
    pub artists: Seq<Seq<char>>,
    pub duration_ms: i64,
    pub images: Seq<ImageView>,
}

pub struct PlayerView {
    pub is_playing: bool,
    pub item: Option<TrackView>,
    pub progress_ms: Option<i64>,
}

pub struct PlaylistView {
    pub id: Seq<char>,
    pub name: Seq<char>,
    pub total: i32,
    pub images: Seq<ImageView>,
}

impl View for Image {
    type V = ImageView;

    open spec fn view(&self) -> ImageView {
        ImageView { url: self.url@, height: self.height, width: self.width }
    }
}

pub open spec fn images_view(v: Seq<Image>) -> Seq<ImageView> {
    v.map_values(|i: Image| i@)
}

impl View for Track {
    type V = TrackView;

    open spec fn view(&self) -> TrackView {
        TrackView {
            name: self.name@,
            artists: self.artists@.map_values(|a: Artist| a.name@),
            duration_ms: self.duration_ms,
            images: images_view(self.album.images@),
        }
    }
}

impl View for SpotifyPlayer {
    type V = PlayerView;

    open spec fn view(&self) -> PlayerView {
        PlayerView {
            is_playing: self.is_playing,
            item: match self.item {
                Some(t) => Some(t@),
                None => None,
            },
            progress_ms: self.progress_ms,
        }
    }
}

impl View for Playlist {
    type V = PlaylistView;

    open spec fn view(&self) -> PlaylistView {
        PlaylistView {
            id: self.id@,
            name: self.name@,
            total: self.tracks.total,
            images: images_view(self.images@),
        }
    }
}

/// The snapshot of an account on which nothing plays.
pub open spec fn idle_player() -> PlayerView {
    PlayerView { is_playing: false, item: None, progress_ms: None }
}

impl Default for SpotifyPlayer {
    fn default() -> (r: Self)
        ensures
            r@ == idle_player(),
    {
        SpotifyPlayer { is_playing: false, item: None, progress_ms: None }
    }
}

/// The snapshot that the player endpoint's answer gives: `decoded` is its
/// body when the status is a success and the body could be decoded.
pub open spec fn playback_result(status: u16, decoded: Option<SpotifyPlayer>) -> Result<
    PlayerView,
    FetchError,
> {
    if status == NO_CONTENT {
        Ok(idle_player())
    } else if !is_success(status) {
        Err(FetchError::Status(status))
    } else {
        match decoded {
            Some(p) => Ok(p@),
            None => Err(FetchError::Transport),
        }
    }
}

/// Interprets the player endpoint's answer: "no content" is an idle
/// snapshot, another non-success status an error that carries it.
pub fn playback_outcome(status: u16, decoded: Option<SpotifyPlayer>) -> (r: Result<
    SpotifyPlayer,
    FetchError,
>)
    ensures
        match r {
            Ok(p) => playback_result(status, decoded) == Ok::<PlayerView, FetchError>(p@),
            Err(e) => playback_result(status, decoded) == Err::<PlayerView, FetchError>(e),
        },
        status != NO_CONTENT && is_success(status) && decoded is Some ==> r == Ok::<
            SpotifyPlayer,
            FetchError,
        >(decoded->Some_0),
{
    if status == NO_CONTENT {
        Ok(SpotifyPlayer::default())
    } else if !status_is_success(status) {
        Err(FetchError::Status(status))
    } else {
        match decoded {
            Some(p) => Ok(p),
            None => Err(FetchError::Transport),
        }
    }
}

/// Interprets the answer to a command (skip, play): success or the status.
pub fn command_outcome(status: u16) -> (r: Result<(), FetchError>)
    ensures
        r is Ok <==> is_success(status),
        r is Err ==> r == Err::<(), FetchError>(FetchError::Status(status)),
{
    if status_is_success(status) {
        Ok(())
    } else {
        Err(FetchError::Status(status))
    }
}

/// Interprets the playlists endpoint's answer.
pub fn playlists_outcome(status: u16, decoded: Option<PlaylistsResponse>) -> (r: Result<
    Vec<Playlist>,
    FetchError,
>)
    ensures
        !is_success(status) ==> r == Err::<Vec<Playlist>, FetchError>(FetchError::Status(status)),
        is_success(status) && decoded is None ==> r == Err::<Vec<Playlist>, FetchError>(
            FetchError::Transport,
        ),
        is_success(status) && decoded is Some ==> r == Ok::<Vec<Playlist>, FetchError>(
            decoded->Some_0.items,
        ),
{
    if !status_is_success(status) {
        Err(FetchError::Status(status))
    } else {
        match decoded {
            Some(d) => Ok(d.items),
            None => Err(FetchError::Transport),
        }
    }
}

pub open spec fn skip_endpoint_text(direction: SkipDirection) -> Seq<char> {
    match direction {
        SkipDirection::Next => NEXT_ENDPOINT@,
        SkipDirection::Previous => PREVIOUS_ENDPOINT@,
    }
}

/// The endpoint that skips in the given direction.
pub fn skip_endpoint(direction: SkipDirection) -> (r: &'static str)
    ensures
        r@ == skip_endpoint_text(direction),
{
    match direction {
        SkipDirection::Next => NEXT_ENDPOINT,
        SkipDirection::Previous => PREVIOUS_ENDPOINT,
    }
}

/// The context that plays a playlist.
pub fn playlist_context_uri(playlist_id: &String) -> (r: String)
    ensures
        r@ == "spotify:playlist:"@ + playlist_id@,
{
    let mut uri = String::from_str("spotify:playlist:");
    uri.append(playlist_id.as_str());
    uri
}

} // verus!
