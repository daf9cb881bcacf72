//! What is computed around the provider: the version that a freshly fetched
//! playlist makes, and what an export of a stored version sends back.

use crate::conf::CONF_DEFAULT_COUNT;
use crate::fingerprint::{fingerprint, spec_fingerprint};
use crate::playlist::{
    items_view, Playlist, PlaylistData, PlaylistDataView, PlaylistItem, PlaylistItemView,
    PlaylistView,
};
use crate::seqs::{lemma_filter_empty, lemma_filter_push};
use crate::text::owned;
use vstd::prelude::*;
use vstd::string::*;

verus! {

impl PlaylistView {
    /// The version that the content `data`, fetched of playlist `id` at
    /// `timestamp`, makes: fingerprinted, and not yet numbered.
    pub open spec fn captured(id: Seq<char>, data: PlaylistDataView, timestamp: u64) -> PlaylistView {
        PlaylistView {
            id,
            sha256: spec_fingerprint(data.tracks),
            timestamp,
            count: 0,
            data: Some(data),
        }
    }
}

impl Playlist {
    /// Makes the version of playlist `id` that holds `data`, fetched at
    /// `timestamp`, and fingerprints its track listing.
    pub fn captured(id: String, data: PlaylistData, timestamp: u64) -> (version: Playlist)
        ensures
            version@ == PlaylistView::captured(id@, data@, timestamp),
    {
        let sha256 = fingerprint(&data.tracks);
        Playlist { id, sha256, timestamp, count: CONF_DEFAULT_COUNT, data: Some(data) }
    }
}

/// Whether an entry has an identifier under which it can be added to a
/// playlist: tracks with an identifier, and episodes.
pub open spec fn is_exportable(item: PlaylistItemView) -> bool {
    match item {
        PlaylistItemView::Track(Some(_)) => true,
        PlaylistItemView::Episode(_) => true,
        _ => false,
    }
}

/// The entries of a listing that an export sends, in listing order.
pub open spec fn exportable(items: Seq<PlaylistItemView>) -> Seq<PlaylistItemView> {
    items.filter(|item: PlaylistItemView| is_exportable(item))
}

/// Picks from a track listing the entries that can be added to a playlist,
/// in listing order.
pub fn exportable_items(items: &Vec<PlaylistItem>) -> (kept: Vec<PlaylistItem>)
    ensures
        items_view(kept@) == exportable(items_view(items@)),
{
    let ghost all = items_view(items@);
    let mut kept: Vec<PlaylistItem> = Vec::new();
    let mut i: usize = 0;
    proof {
        lemma_filter_empty(|item: PlaylistItemView| is_exportable(item));
    }
    while i < items.len()
        invariant
            i <= items.len(),
            all == items_view(items@),
            items_view(kept@) == exportable(all.take(i as int)),
        decreases items.len() - i,
    {
        proof {
            assert(all.take(i + 1) =~= all.take(i as int).push(all[i as int]));
            lemma_filter_push(
                all.take(i as int),
                all[i as int],
                |item: PlaylistItemView| is_exportable(item),
            );
        }
        match &items[i] {
            PlaylistItem::Track(Some(_)) | PlaylistItem::Episode(_) => {
                kept.push(items[i].clone());
            },
            _ => {},
        }
        i += 1;
    }
    assert(all.take(i as int) =~= all);
    kept
}

/// The name of the playlist that an export creates for the version of the
/// playlist called `name` that was captured at the time written as `date`.
pub fn export_name(name: &str, date: &str) -> (title: String)
    ensures
        title@ == "Archify - "@ + name@ + " - "@ + date@,
{
    let mut title = owned("Archify - ");
    title.append(name);
    title.append(" - ");
    title.append(date);
    title
}

/// What an export of a version sends to the provider.
#[derive(Debug, PartialEq, Eq)]
pub struct Export {
    /// The user for whom the playlist is created: the owner of the archived playlist.
    pub user_id: String,
    /// The name of the playlist to create.
    pub name: String,
    /// The entries to add to the created playlist, in order.
    pub items: Vec<PlaylistItem>,
}

/// Mathematical model of an [`Export`].
pub struct ExportView {
    pub user_id: Seq<char>,
    pub name: Seq<char>,
    pub items: Seq<PlaylistItemView>,
}

impl View for Export {
    type V = ExportView;

    open spec fn view(&self) -> ExportView {
        ExportView { user_id: self.user_id@, name: self.name@, items: items_view(self.items@) }
    }
}

/// The export of the content `data` under the date written as `date`.
pub open spec fn export_of(data: PlaylistDataView, date: Seq<char>) -> ExportView {
    ExportView {
        user_id: data.owner,
        name: "Archify - "@ + data.name + " - "@ + date,
        items: exportable(data.tracks),
    }
}

/// Prepares the export of a stored version: the playlist to create for the
/// owner of the archived playlist, named after it and after `date`, the
/// capture time as the caller writes it, and the entries to add. A version
/// without content has nothing to export.
pub fn plan_export(playlist: &Playlist, date: &str) -> (plan: Option<Export>)
    ensures
        match plan {
            Some(export) => playlist@.data is Some && export@ == export_of(
                playlist@.data->0,
                date@,
            ),
            None => playlist@.data is None,
        },
{
    match &playlist.data {
        Some(data) => Some(
            Export {
                user_id: data.owner.clone(),
                name: export_name(data.name.as_str(), date),
                items: exportable_items(&data.tracks),
            },
        ),
        None => None,
    }
}

} // verus!
