//! The data model: playlist entries, captured playlist content and stored versions.

use crate::conf::{CONF_DEFAULT_COUNT, CONF_TIMESTAMP_NULL};
use vstd::prelude::*;

verus! {

/// One entry of a playlist's track listing, in the order the provider gave it.
#[derive(Debug, PartialEq, Eq)]
pub enum PlaylistItem {
    /// A music track. Tracks without a catalogue identifier (local files) carry `None`.
    Track(Option<String>),
    /// A podcast episode with its identifier.
    Episode(String),
    /// An entry for which the provider gave no playable item.
    Missing,
}

/// Mathematical model of a [`PlaylistItem`].
pub enum PlaylistItemView {
    Track(Option<Seq<char>>),
    Episode(Seq<char>),
    Missing,
}

impl View for PlaylistItem {
    type V = PlaylistItemView;

    open spec fn view(&self) -> PlaylistItemView {
        match *self {
            PlaylistItem::Track(Some(id)) => PlaylistItemView::Track(Some(id@)),
            PlaylistItem::Track(None) => PlaylistItemView::Track(None),
            PlaylistItem::Episode(id) => PlaylistItemView::Episode(id@),
            PlaylistItem::Missing => PlaylistItemView::Missing,
        }
    }
}

impl Clone for PlaylistItem {
    fn clone(&self) -> (copy: Self)
        ensures
            copy@ == self@,
    {
        match self {
            PlaylistItem::Track(Some(id)) => PlaylistItem::Track(Some(id.clone())),
            PlaylistItem::Track(None) => PlaylistItem::Track(None),
            PlaylistItem::Episode(id) => PlaylistItem::Episode(id.clone()),
            PlaylistItem::Missing => PlaylistItem::Missing,
        }
    }
}

/// The view of a whole track listing.
pub open spec fn items_view(items: Seq<PlaylistItem>) -> Seq<PlaylistItemView> {
    items.map_values(|item: PlaylistItem| item@)
}

/// Copies a track listing entry by entry.
pub(crate) fn clone_items(items: &Vec<PlaylistItem>) -> (copy: Vec<PlaylistItem>)
    ensures
        items_view(copy@) == items_view(items@),
{
    let mut copy: Vec<PlaylistItem> = Vec::new();
    let mut i: usize = 0;
    while i < items.len()
        invariant
            i <= items.len(),
            copy.len() == i,
            forall|j: int| 0 <= j < i ==> copy[j]@ == items[j]@,
        decreases items.len() - i,
    {
        copy.push(items[i].clone());
        i += 1;
    }
    copy
}

/// The content of a playlist as the provider returned it at one point in time.
#[derive(Debug, PartialEq, Eq)]
pub struct PlaylistData {
    /// Display name of the playlist.
    pub name: String,
    /// Identifier of the user who owns the playlist.
    pub owner: String,
    /// The full track listing, in provider order.
    pub tracks: Vec<PlaylistItem>,
}

/// Mathematical model of [`PlaylistData`].
pub struct PlaylistDataView {
    pub name: Seq<char>,
    pub owner: Seq<char>,
    pub tracks: Seq<PlaylistItemView>,
}

impl View for PlaylistData {
    type V = PlaylistDataView;

    open spec fn view(&self) -> PlaylistDataView {
        PlaylistDataView { name: self.name@, owner: self.owner@, tracks: items_view(self.tracks@) }
    }
}

impl Clone for PlaylistData {
    fn clone(&self) -> (copy: Self)
        ensures
            copy@ == self@,
    {
        PlaylistData {
            name: self.name.clone(),
            owner: self.owner.clone(),
            tracks: clone_items(&self.tracks),
        }
    }
}

/// What a data column holds, in the model: nothing, or the view of the content.
pub open spec fn data_view(data: Option<PlaylistData>) -> Option<PlaylistDataView> {
    match data {
        Some(content) => Some(content@),
        None => None,
    }
}

/// The all-zero digest that marks a version without content.
pub open spec fn null_sha256() -> Seq<u8> {
    Seq::new(32, |i: int| 0u8)
}

/// One stored version of a playlist: what it held at `timestamp`.
///
/// The version with `timestamp == 0` is the placeholder that marks a playlist
/// as registered but never fetched. As registration stores it, it carries
/// the all-zero digest and no data.
#[derive(Debug, PartialEq, Eq)]
pub struct Playlist {
    /// Identifier of the playlist this version belongs to.
    pub id: String,
    /// SHA-256 fingerprint of the track listing.
    pub sha256: [u8; 32],
    /// Unix time, in seconds, at which the content was captured.
    pub timestamp: u64,
    /// Position of the version in its playlist's history; in a listing of
    /// latest versions, the number of versions stored for the playlist.
    pub count: u64,
    /// The captured content; `None` for the placeholder.
    pub data: Option<PlaylistData>,
}

/// Mathematical model of a [`Playlist`] version.
pub struct PlaylistView {
    pub id: Seq<char>,
    pub sha256: Seq<u8>,
    pub timestamp: u64,
    pub count: nat,
    pub data: Option<PlaylistDataView>,
}

impl View for Playlist {
    type V = PlaylistView;

    open spec fn view(&self) -> PlaylistView {
        PlaylistView {
            id: self.id@,
            sha256: self.sha256@,
            timestamp: self.timestamp,
            count: self.count as nat,
            data: data_view(self.data),
        }
    }
}

impl PlaylistView {
    /// The placeholder version of playlist `id`.
    pub open spec fn placeholder(id: Seq<char>) -> PlaylistView {
        PlaylistView { id, sha256: null_sha256(), timestamp: 0, count: 0, data: None }
    }

    /// Whether this is the version that stands for "registered, not yet fetched".
    pub open spec fn is_placeholder(self) -> bool {
        self.timestamp == 0
    }

    /// The same version, reported at position `count`.
    pub open spec fn at(self, count: nat) -> PlaylistView {
        PlaylistView { count, ..self }
    }
}

/// Copies optional playlist content.
pub(crate) fn clone_data(data: &Option<PlaylistData>) -> (copy: Option<PlaylistData>)
    ensures
        data_view(copy) == data_view(*data),
{
    match data {
        Some(content) => Some(content.clone()),
        None => None,
    }
}

impl Clone for Playlist {
    fn clone(&self) -> (copy: Self)
        ensures
            copy@ == self@,
    {
        Playlist {
            id: self.id.clone(),
            sha256: self.sha256,
            timestamp: self.timestamp,
            count: self.count,
            data: clone_data(&self.data),
        }
    }
}

impl Playlist {
    /// The placeholder version of playlist `id`: zero timestamp, zero digest, no data.
    pub fn placeholder(id: String) -> (version: Playlist)
        ensures
            version@ == PlaylistView::placeholder(id@),
    {
        let version = Playlist {
            id,
            sha256: [0u8; 32],
            timestamp: CONF_TIMESTAMP_NULL,
            count: CONF_DEFAULT_COUNT,
            data: None,
        };
        assert(version.sha256@ =~= null_sha256());
        version
    }

    /// Whether this is the placeholder of its playlist.
    pub fn is_placeholder(&self) -> (answer: bool)
        ensures
            answer == self@.is_placeholder(),
    {
        self.timestamp == CONF_TIMESTAMP_NULL
    }

    /// Builds a version from the columns of a stored row, where a missing
    /// digest reads as the all-zero digest and a missing timestamp as zero.
    pub fn from_row(
        id: String,
        sha256: Option<[u8; 32]>,
        timestamp: Option<u64>,
        count: u64,
        data: Option<PlaylistData>,
    ) -> (version: Playlist)
        ensures
            version@ == (PlaylistView {
                id: id@,
                sha256: match sha256 {
                    Some(digest) => digest@,
                    None => null_sha256(),
                },
                timestamp: match timestamp {
                    Some(seconds) => seconds,
                    None => 0,
                },
                count: count as nat,
                data: data_view(data),
            }),
    {
        let digest = match sha256 {
            Some(digest) => digest,
            None => [0u8; 32],
        };
        assert(sha256 is None ==> digest@ =~= null_sha256());
        let seconds = match timestamp {
            Some(seconds) => seconds,
            None => CONF_TIMESTAMP_NULL,
        };
        Playlist { id, sha256: digest, timestamp: seconds, count, data }
    }
}

} // verus!
