//! The reduced form of the playing item that the player shows.

use vstd::prelude::*;
use super::playback_context::{
    clone_artists, clone_text, Album, AlbumView, Artist, ArtistView, Image, ImageView,
    PlayableItem, PlayableItemView, PlaybackContext, PlaybackContextView,
};

verus! {

/// The identifier of the playing item, tagged with the kind of item.
#[derive(Debug, PartialEq, Eq)]
pub enum PlayableId {
    Track(String),
    Episode(String),
}

/// What the contracts see of [`PlayableId`].
pub enum PlayableIdView {
    Track(Seq<char>),
    Episode(Seq<char>),
}

impl View for PlayableId {
    type V = PlayableIdView;

    open spec fn view(&self) -> PlayableIdView {
        match self {
            PlayableId::Track(id) => PlayableIdView::Track(id@),
            PlayableId::Episode(id) => PlayableIdView::Episode(id@),
        }
    }
}

impl DeepView for PlayableId {
    type V = PlayableIdView;

    open spec fn deep_view(&self) -> PlayableIdView {
        self@
    }
}

impl Clone for PlayableId {
    fn clone(&self) -> (copy: Self)
        ensures
            copy@ == self@,
    {
        match self {
            PlayableId::Track(id) => PlayableId::Track(id.clone()),
            PlayableId::Episode(id) => PlayableId::Episode(id.clone()),
        }
    }
}

/// The playing item as the player shows it. It is built anew from every
/// remote playback context; only `saved` is ever changed afterwards.
#[derive(Debug, PartialEq, Eq)]
pub struct SimplifiedItem {
    pub context_uri: Option<String>,
    pub id: Option<PlayableId>,
    pub name: Option<String>,
    pub image_url: Option<String>,
    pub album: Option<Album>,
    pub artists: Vec<Artist>,
    pub saved: bool,
    pub duration_ms: u64,
    pub progress_ms: u64,
}

/// What the contracts see of [`SimplifiedItem`].
pub struct SimplifiedItemView {
    pub context_uri: Option<Seq<char>>,
    pub id: Option<PlayableIdView>,
    pub name: Option<Seq<char>>,
    pub image_url: Option<Seq<char>>,
    pub album: Option<AlbumView>,
    pub artists: Seq<ArtistView>,
    pub saved: bool,
    pub duration_ms: u64,
    pub progress_ms: u64,
}

impl View for SimplifiedItem {
    type V = SimplifiedItemView;

    open spec fn view(&self) -> SimplifiedItemView {
        SimplifiedItemView {
            context_uri: self.context_uri.deep_view(),
            id: self.id.deep_view(),
            name: self.name.deep_view(),
            image_url: self.image_url.deep_view(),
            album: self.album.deep_view(),
            artists: self.artists.deep_view(),
            saved: self.saved,
            duration_ms: self.duration_ms,
            progress_ms: self.progress_ms,
        }
    }
}

impl DeepView for SimplifiedItem {
    type V = SimplifiedItemView;

    open spec fn deep_view(&self) -> SimplifiedItemView {
        self@
    }
}

impl Clone for SimplifiedItem {
    fn clone(&self) -> (copy: Self)
        ensures
            copy@ == self@,
    {
        SimplifiedItem {
            context_uri: clone_text(&self.context_uri),
            id: match &self.id {
                Some(id) => Some(id.clone()),
                None => None,
            },
            name: clone_text(&self.name),
            image_url: clone_text(&self.image_url),
            album: match &self.album {
                Some(album) => Some(album.clone()),
                None => None,
            },
            artists: clone_artists(&self.artists),
            saved: self.saved,
            duration_ms: self.duration_ms,
            progress_ms: self.progress_ms,
        }
    }
}

/// The width, in pixels, that a cover picture should come closest to.
pub const PREFERRED_IMAGE_WIDTH_PX: u32 = 200;

/// How far the width of a picture is from the preferred width. A picture
/// without a width counts as one of width 0.
pub open spec fn width_distance(image: ImageView) -> int {
    let width: int = match image.width {
        Some(w) => w as int,
        None => 0,
    };
    if width <= PREFERRED_IMAGE_WIDTH_PX {
        PREFERRED_IMAGE_WIDTH_PX - width
    } else {
        width - PREFERRED_IMAGE_WIDTH_PX
    }
}

/// The picture at `k` is at least as close to the preferred width as every
/// other picture of `images`, and closer than every picture before it.
pub open spec fn is_preferred(images: Seq<ImageView>, k: int) -> bool {
    &&& 0 <= k < images.len()
    &&& forall|j: int|
        0 <= j < images.len() ==> width_distance(images[k]) <= width_distance(#[trigger] images[j])
    &&& forall|j: int| 0 <= j < k ==> width_distance(images[k]) < width_distance(#[trigger] images[j])
}

/// The place of the preferred picture in a list that is not empty.
pub open spec fn preferred_index(images: Seq<ImageView>) -> int {
    choose|k: int| is_preferred(images, k)
}

/// The preferred picture of a list, if the list holds any.
pub open spec fn preferred_image(images: Seq<ImageView>) -> Option<ImageView> {
    if images.len() == 0 {
        None
    } else {
        Some(images[preferred_index(images)])
    }
}

/// Of the pictures of one list only one place is preferred.
pub proof fn lemma_preferred_unique(images: Seq<ImageView>, k1: int, k2: int)
    requires
        is_preferred(images, k1),
        is_preferred(images, k2),
    ensures
        k1 == k2,
{
    if k1 < k2 {
        assert(width_distance(images[k2]) < width_distance(images[k1]));
        assert(width_distance(images[k1]) <= width_distance(images[k2]));
    } else if k2 < k1 {
        assert(width_distance(images[k1]) < width_distance(images[k2]));
        assert(width_distance(images[k2]) <= width_distance(images[k1]));
    }
}

/// Every list of pictures that is not empty has a preferred place.
pub proof fn lemma_preferred_exists(images: Seq<ImageView>)
    requires
        images.len() > 0,
    ensures
        is_preferred(images, preferred_index(images)),
        preferred_image(images) == Some(images[preferred_index(images)]),
{
    let k = preferred_place(images);
    assert(is_preferred(images, k));
}

/// A preferred place of a list that is not empty: that of the list without
/// its last picture, unless the last picture is closer.
proof fn preferred_place(images: Seq<ImageView>) -> (k: int)
    requires
        images.len() > 0,
    ensures
        is_preferred(images, k),
    decreases images.len(),
{
    if images.len() == 1 {
        0
    } else {
        let shorter = images.drop_last();
        let before = preferred_place(shorter);
        assert forall|j: int| 0 <= j < shorter.len() implies shorter[j] == images[j] by {}
        if width_distance(images.last()) < width_distance(images[before]) {
            images.len() - 1
        } else {
            before
        }
    }
}

/// The pictures that belong to the playing item: those of its album for a
/// track, its own for an episode.
pub open spec fn item_images(playback: PlaybackContextView) -> Seq<ImageView> {
    match playback.item {
        Some(PlayableItemView::Track(t)) => t.album.images,
        Some(PlayableItemView::Episode(e)) => e.images,
        _ => Seq::empty(),
    }
}

/// The identifier of the playing item. A track may have none.
pub open spec fn item_id(playback: PlaybackContextView) -> Option<PlayableIdView> {
    match playback.item {
        Some(PlayableItemView::Track(t)) => match t.id {
            Some(id) => Some(PlayableIdView::Track(id)),
            None => None,
        },
        Some(PlayableItemView::Episode(e)) => Some(PlayableIdView::Episode(e.id)),
        _ => None,
    }
}

/// The performers of the playing track. Only a track has any.
pub open spec fn item_artists(playback: PlaybackContextView) -> Seq<ArtistView> {
    match playback.item {
        Some(PlayableItemView::Track(t)) => t.artists,
        _ => Seq::empty(),
    }
}

/// The album of the playing track. Only a track has one.
pub open spec fn item_album(playback: PlaybackContextView) -> Option<AlbumView> {
    match playback.item {
        Some(PlayableItemView::Track(t)) => Some(t.album),
        _ => None,
    }
}

/// The address of the preferred picture of the playing item.
pub open spec fn item_image_url(playback: PlaybackContextView) -> Option<Seq<char>> {
    match preferred_image(item_images(playback)) {
        Some(image) => Some(image.url),
        None => None,
    }
}

/// The length of the playing item, in milliseconds; 0 where nothing plays.
pub open spec fn item_duration_ms(playback: PlaybackContextView) -> u64 {
    match playback.item {
        Some(PlayableItemView::Track(t)) => t.duration_ms,
        Some(PlayableItemView::Episode(e)) => e.duration_ms,
        _ => 0,
    }
}

/// The name of the playing item.
pub open spec fn item_name(playback: PlaybackContextView) -> Option<Seq<char>> {
    match playback.item {
        Some(PlayableItemView::Track(t)) => Some(t.name),
        Some(PlayableItemView::Episode(e)) => Some(e.name),
        _ => None,
    }
}

/// The item that a remote playback context is shown as. It is not marked
/// as saved: whether it is has to be asked separately.
pub open spec fn simplified(playback: PlaybackContextView) -> SimplifiedItemView {
    SimplifiedItemView {
        context_uri: playback.context_uri,
        id: item_id(playback),
        name: item_name(playback),
        image_url: item_image_url(playback),
        album: item_album(playback),
        artists: item_artists(playback),
        saved: false,
        duration_ms: item_duration_ms(playback),
        progress_ms: match playback.progress_ms {
            Some(p) => p,
            None => 0,
        },
    }
}

impl SimplifiedItem {
    /// The identifier of the playing item.
    pub fn get_id(playback: &PlaybackContext) -> (id: Option<PlayableId>)
        ensures
            id.deep_view() == item_id(playback@),
    {
        match &playback.item {
            Some(PlayableItem::Track(t)) => match &t.id {
                Some(id) => Some(PlayableId::Track(id.clone())),
                None => None,
            },
            Some(PlayableItem::Episode(e)) => Some(PlayableId::Episode(e.id.clone())),
            _ => None,
        }
    }

    /// The performers of the playing track.
    pub fn get_artists(playback: &PlaybackContext) -> (artists: Vec<Artist>)
        ensures
            artists.deep_view() == item_artists(playback@),
    {
        match &playback.item {
            Some(PlayableItem::Track(t)) => clone_artists(&t.artists),
            _ => {
                let none: Vec<Artist> = Vec::new();
                assert(none.deep_view() =~= Seq::<ArtistView>::empty());
                none
            },
        }
    }

    /// The album of the playing track.
    pub fn get_album(playback: &PlaybackContext) -> (album: Option<Album>)
        ensures
            album.deep_view() == item_album(playback@),
    {
        match &playback.item {
            Some(PlayableItem::Track(t)) => Some(t.album.clone()),
            _ => None,
        }
    }

    /// How far the width of `image` is from the preferred width.
    fn distance(image: &Image) -> (d: u32)
        ensures
            d == width_distance(image@),
    {
        let width: u32 = match image.width {
            Some(w) => w,
            None => 0,
        };
        if width <= PREFERRED_IMAGE_WIDTH_PX {
            PREFERRED_IMAGE_WIDTH_PX - width
        } else {
            width - PREFERRED_IMAGE_WIDTH_PX
        }
    }

    /// The picture whose width is closest to the preferred width; of several
    /// that are equally close, the one that comes first.
    pub fn get_preferred_image(images: &Vec<Image>) -> (image: Option<&Image>)
        ensures
            image.deep_view() == preferred_image(images.deep_view()),
            images.len() == 0 <==> image is None,
            image matches Some(chosen) ==> is_preferred(
                images.deep_view(),
                preferred_index(images.deep_view()),
            ) && *chosen == images[preferred_index(images.deep_view())],
    {
        if images.len() == 0 {
            return None;
        }
        let ghost views = images.deep_view();
        let mut best: usize = 0;
        let mut best_distance: u32 = Self::distance(&images[0]);
        let mut i: usize = 1;
        while i < images.len()
            invariant
                1 <= i <= images.len(),
                views == images.deep_view(),
                best < i,
                best_distance == width_distance(views[best as int]),
                is_preferred(views.take(i as int), best as int),
            decreases images.len() - i,
        {
            let d = Self::distance(&images[i]);
            if d < best_distance {
                best = i;
                best_distance = d;
            }
            assert(is_preferred(views.take(i + 1), best as int)) by {
                assert forall|j: int| 0 <= j < i + 1 implies width_distance(
                    views.take(i + 1)[best as int],
                ) <= width_distance(#[trigger] views.take(i + 1)[j]) by {
                    if j < i {
                        assert(views.take(i as int)[j] == views[j]);
                    }
                }
                assert forall|j: int| 0 <= j < best implies width_distance(
                    views.take(i + 1)[best as int],
                ) < width_distance(#[trigger] views.take(i + 1)[j]) by {
                    assert(views.take(i as int)[j] == views[j]);
                }
            }
            i += 1;
        }
        proof {
            assert(views.take(images.len() as int) =~= views);
            lemma_preferred_unique(views, best as int, preferred_index(views));
        }
        Some(&images[best])
    }

    /// The address of the preferred picture of the playing item.
    pub fn get_image_url(playback: &PlaybackContext) -> (url: Option<String>)
        ensures
            url.deep_view() == item_image_url(playback@),
    {
        let preferred = match &playback.item {
            Some(PlayableItem::Track(t)) => Self::get_preferred_image(&t.album.images),
            Some(PlayableItem::Episode(e)) => Self::get_preferred_image(&e.images),
            _ => None,
        };
        match preferred {
            Some(image) => Some(image.url.clone()),
            None => None,
        }
    }

    /// The length of the playing item, in milliseconds.
    pub fn get_duration_ms(playback: &PlaybackContext) -> (duration: u64)
        ensures
            duration == item_duration_ms(playback@),
    {
        match &playback.item {
            Some(PlayableItem::Track(t)) => t.duration_ms,
            Some(PlayableItem::Episode(e)) => e.duration_ms,
            _ => 0,
        }
    }

    /// The name of the playing item.
    pub fn get_name(playback: &PlaybackContext) -> (name: Option<String>)
        ensures
            name.deep_view() == item_name(playback@),
    {
        match &playback.item {
            Some(PlayableItem::Track(t)) => Some(t.name.clone()),
            Some(PlayableItem::Episode(e)) => Some(e.name.clone()),
            _ => None,
        }
    }

    /// The item that `playback` is shown as.
    pub fn from(playback: PlaybackContext) -> (item: SimplifiedItem)
        ensures
            item@ == simplified(playback@),
    {
        SimplifiedItem {
            id: Self::get_id(&playback),
            name: Self::get_name(&playback),
            image_url: Self::get_image_url(&playback),
            artists: Self::get_artists(&playback),
            album: Self::get_album(&playback),
            duration_ms: Self::get_duration_ms(&playback),
            progress_ms: match playback.progress_ms {
                Some(p) => p,
                None => 0,
            },
            context_uri: playback.context_uri,
            saved: false,
        }
    }
}

} // verus!
