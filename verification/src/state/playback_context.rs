//! What the remote side reports about the running playback: the values of
//! the remote playback context that the player reads.

use vstd::prelude::*;

verus! {

/// One rendition of a cover picture.
#[derive(Debug, PartialEq, Eq)]
pub struct Image {
    pub height: Option<u32>,
    pub url: String,
    pub width: Option<u32>,
}

/// What the contracts see of [`Image`].
pub struct ImageView {
    pub height: Option<u32>,
    pub url: Seq<char>,
    pub width: Option<u32>,
}

impl View for Image {
    type V = ImageView;

    open spec fn view(&self) -> ImageView {
        ImageView { height: self.height, url: self.url@, width: self.width }
    }
}

impl DeepView for Image {
    type V = ImageView;

    open spec fn deep_view(&self) -> ImageView {
        self@
    }
}

impl Clone for Image {
    fn clone(&self) -> (copy: Self)
        ensures
            copy@ == self@,
    {
        Image { height: self.height, url: self.url.clone(), width: self.width }
    }
}

/// A performer of a track.
#[derive(Debug, PartialEq, Eq)]
pub struct Artist {
    pub id: Option<String>,
    pub name: String,
}

/// What the contracts see of [`Artist`].
pub struct ArtistView {
    pub id: Option<Seq<char>>,
    pub name: Seq<char>,
}

impl View for Artist {
    type V = ArtistView;

    open spec fn view(&self) -> ArtistView {
        ArtistView { id: self.id.deep_view(), name: self.name@ }
    }
}

impl DeepView for Artist {
    type V = ArtistView;

    open spec fn deep_view(&self) -> ArtistView {
        self@
    }
}

impl Clone for Artist {
    fn clone(&self) -> (copy: Self)
        ensures
            copy@ == self@,
    {
        Artist { id: clone_text(&self.id), name: self.name.clone() }
    }
}

/// A copy of an optional text.
pub fn clone_text(text: &Option<String>) -> (copy: Option<String>)
    ensures
        copy.deep_view() == text.deep_view(),
{
    match text {
        Some(t) => Some(t.clone()),
        None => None,
    }
}

/// A copy of a list of pictures.
pub fn clone_images(images: &Vec<Image>) -> (copy: Vec<Image>)
    ensures
        copy.deep_view() == images.deep_view(),
{
    let mut copy: Vec<Image> = Vec::new();
    let mut i: usize = 0;
    while i < images.len()
        invariant
            i <= images.len(),
            copy.len() == i,
            forall|j: int| 0 <= j < i ==> copy[j]@ == images[j]@,
        decreases images.len() - i,
    {
        copy.push(images[i].clone());
        i += 1;
    }
    assert(copy.deep_view() =~= images.deep_view());
    copy
}

/// A copy of a list of performers.
pub fn clone_artists(artists: &Vec<Artist>) -> (copy: Vec<Artist>)
    ensures
        copy.deep_view() == artists.deep_view(),
{
    let mut copy: Vec<Artist> = Vec::new();
    let mut i: usize = 0;
    while i < artists.len()
        invariant
            i <= artists.len(),
            copy.len() == i,
            forall|j: int| 0 <= j < i ==> copy[j]@ == artists[j]@,
        decreases artists.len() - i,
    {
        copy.push(artists[i].clone());
        i += 1;
    }
    assert(copy.deep_view() =~= artists.deep_view());
    copy
}

/// The album that a track belongs to.
#[derive(Debug, PartialEq, Eq)]
pub struct Album {
    pub id: Option<String>,
    pub images: Vec<Image>,
    pub name: String,
}

/// What the contracts see of [`Album`].
pub struct AlbumView {
    pub id: Option<Seq<char>>,
    pub images: Seq<ImageView>,
    pub name: Seq<char>,
}

impl View for Album {
    type V = AlbumView;

    open spec fn view(&self) -> AlbumView {
        AlbumView { id: self.id.deep_view(), images: self.images.deep_view(), name: self.name@ }
    }
}

impl DeepView for Album {
    type V = AlbumView;

    open spec fn deep_view(&self) -> AlbumView {
        self@
    }
}

impl Clone for Album {
    fn clone(&self) -> (copy: Self)
        ensures
            copy@ == self@,
    {
        Album { id: clone_text(&self.id), images: clone_images(&self.images), name: self.name.clone() }
    }
}

/// A music track. A local track has no identifier.
#[derive(Debug, PartialEq, Eq)]
pub struct Track {
    pub album: Album,
    pub artists: Vec<Artist>,
    pub duration_ms: u64,
    pub id: Option<String>,
    pub name: String,
}

/// What the contracts see of [`Track`].
pub struct TrackView {
    pub album: AlbumView,
    pub artists: Seq<ArtistView>,
    pub duration_ms: u64,
    pub id: Option<Seq<char>>,
    pub name: Seq<char>,
}

impl View for Track {
    type V = TrackView;

    open spec fn view(&self) -> TrackView {
        TrackView {
            album: self.album@,
            artists: self.artists.deep_view(),
            duration_ms: self.duration_ms,
            id: self.id.deep_view(),
            name: self.name@,
        }
    }
}

/// An episode of a show.
#[derive(Debug, PartialEq, Eq)]
pub struct Episode {
    pub duration_ms: u64,
    pub id: String,
    pub images: Vec<Image>,
    pub name: String,
}

/// What the contracts see of [`Episode`].
pub struct EpisodeView {
    pub duration_ms: u64,
    pub id: Seq<char>,
    pub images: Seq<ImageView>,
    pub name: Seq<char>,
}

impl View for Episode {
    type V = EpisodeView;

    open spec fn view(&self) -> EpisodeView {
        EpisodeView {
            duration_ms: self.duration_ms,
            id: self.id@,
            images: self.images.deep_view(),
            name: self.name@,
        }
    }
}

/// What is being played: a track, an episode, or something that the
/// remote side reports in a form that is neither.
#[derive(Debug, PartialEq, Eq)]
pub enum PlayableItem {
    Track(Track),
    Episode(Episode),
    Unknown,
}

/// What the contracts see of [`PlayableItem`].
pub enum PlayableItemView {
    Track(TrackView),
    Episode(EpisodeView),
    Unknown,
}

impl View for PlayableItem {
    type V = PlayableItemView;

    open spec fn view(&self) -> PlayableItemView {
        match self {
            PlayableItem::Track(t) => PlayableItemView::Track(t@),
            PlayableItem::Episode(e) => PlayableItemView::Episode(e@),
            PlayableItem::Unknown => PlayableItemView::Unknown,
        }
    }
}

impl DeepView for PlayableItem {
    type V = PlayableItemView;

    open spec fn deep_view(&self) -> PlayableItemView {
        self@
    }
}

/// The remote playback context, as far as the player reads it.
#[derive(Debug, PartialEq, Eq)]
pub struct PlaybackContext {
    /// The identifier of the device that plays.
    pub device_id: Option<String>,
    pub shuffle_state: bool,
    /// The address of the playlist, album or show that the item is played from.
    pub context_uri: Option<String>,
    /// How far into the item the playback is, in milliseconds.
    pub progress_ms: Option<u64>,
    pub is_playing: bool,
    pub item: Option<PlayableItem>,
}

/// What the contracts see of [`PlaybackContext`].
pub struct PlaybackContextView {
    pub device_id: Option<Seq<char>>,
    pub shuffle_state: bool,
    pub context_uri: Option<Seq<char>>,
    pub progress_ms: Option<u64>,
    pub is_playing: bool,
    pub item: Option<PlayableItemView>,
}

impl View for PlaybackContext {
    type V = PlaybackContextView;

    open spec fn view(&self) -> PlaybackContextView {
        PlaybackContextView {
            device_id: self.device_id.deep_view(),
            shuffle_state: self.shuffle_state,
            context_uri: self.context_uri.deep_view(),
            progress_ms: self.progress_ms,
            is_playing: self.is_playing,
            item: self.item.deep_view(),
        }
    }
}

impl DeepView for PlaybackContext {
    type V = PlaybackContextView;

    open spec fn deep_view(&self) -> PlaybackContextView {
        self@
    }
}

} // verus!
