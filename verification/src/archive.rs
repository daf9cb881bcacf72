//! The operations of the archive on its store: registering playlists,
//! refreshing them from fetched content, listing, selecting and deleting.

use crate::database::{Database, DatabaseView, StoreError};
use crate::history::{
    history_insert, history_wf, lemma_history_insert, lemma_rank_is_boundary, versions_view,
};
use crate::ids::{
    id_result_view, named_playlist, playlist_from_url, resolve_playlist, texts_view,
    url_playlist, InputError,
};
use crate::playlist::{Playlist, PlaylistData, PlaylistDataView, PlaylistView};
use crate::seqs::{lemma_filter_empty, lemma_filter_push};
use crate::text::{owned, same_digest};
use vstd::prelude::*;

verus! {

/// The provider could not give the content of a playlist. Whatever the cause
/// (network, authorisation, no such playlist), the archive treats it alike.
#[derive(Debug, Clone, Copy, PartialEq, Eq)]
pub enum FetchError {
    /// The content could not be fetched.
    Failed,
}

/// How a refresh of one playlist ended where nothing failed.
#[derive(Debug, Clone, Copy, PartialEq, Eq)]
pub enum Refresh {
    /// The content differs from the newest stored version, or the playlist
    /// had none but the placeholder: a new version was stored.
    Stored,
    /// The content has the fingerprint of the newest stored version: nothing
    /// was stored.
    Unchanged,
}

/// Why a refresh of one playlist stored nothing and cannot say "unchanged".
#[derive(Debug, Clone, Copy, PartialEq, Eq)]
pub enum RefreshError {
    /// The content could not be fetched.
    FetchFailed,
    /// The playlist is not registered.
    NotTracked,
    /// The store refused the new version.
    Store(StoreError),
}

/// The model of what a fetch gave.
pub open spec fn content_view(content: Result<PlaylistData, FetchError>) -> Result<
    PlaylistDataView,
    FetchError,
> {
    match content {
        Ok(data) => Ok(data@),
        Err(error) => Err(error),
    }
}

/// Whether `fresh` differs from what the store holds as the newest version
/// of its playlist: the newest version is the placeholder, or it has another
/// fingerprint.
pub open spec fn is_changed(store: DatabaseView, fresh: PlaylistView) -> bool {
    let newest = store.history(fresh.id).last();
    newest.is_placeholder() || newest.sha256 != fresh.sha256
}

/// How the comparison of the freshly captured version `fresh` with `store`
/// ends: in a new stored version, in "unchanged", or in an error.
pub open spec fn store_outcome(store: DatabaseView, fresh: PlaylistView) -> Result<
    Refresh,
    RefreshError,
> {
    if !store.tracks(fresh.id) {
        Err(RefreshError::NotTracked)
    } else if !is_changed(store, fresh) {
        Ok(Refresh::Unchanged)
    } else if store.holds(fresh.id, fresh.timestamp) {
        Err(RefreshError::Store(StoreError::WriteFailed))
    } else {
        Ok(Refresh::Stored)
    }
}

/// The store after that comparison: with `fresh` as a new version where it
/// ends in `Stored`, and as it was in every other case.
pub open spec fn stored_if_changed(store: DatabaseView, fresh: PlaylistView) -> DatabaseView {
    if store_outcome(store, fresh) == Ok::<Refresh, RefreshError>(Refresh::Stored) {
        store.insert(fresh)
    } else {
        store
    }
}

/// Compares the freshly captured version `fresh` with the newest stored
/// version of its playlist, and stores it as a new version only if that
/// version is the placeholder or has another fingerprint. A playlist that
/// is not registered is left alone.
pub fn store_if_changed(db: &mut Database, fresh: &Playlist) -> (outcome: Result<
    Refresh,
    RefreshError,
>)
    ensures
        outcome == store_outcome(old(db)@, fresh@),
        final(db)@ == stored_if_changed(old(db)@, fresh@),
        outcome != Ok::<Refresh, RefreshError>(Refresh::Stored) ==> final(db)@ == old(db)@,
        outcome == Ok::<Refresh, RefreshError>(Refresh::Stored) ==> final(db)@.history(fresh@.id)
            == history_insert(old(db)@.history(fresh@.id), fresh@) && final(db)@.history(
            fresh@.id,
        ).len() == old(db)@.history(fresh@.id).len() + 1,
        forall|other: Seq<char>|
            other != fresh@.id ==> final(db)@.history(other) == old(db)@.history(other)
                && final(db)@.tracks(other) == old(db)@.tracks(other),
        final(db)@.tracks(fresh@.id) == old(db)@.tracks(fresh@.id),
        final(db)@.wf(),
{
    proof {
        use_type_invariant(&*db);
    }
    let changed = match db.latest(fresh.id.as_str()) {
        None => {
            return Err(RefreshError::NotTracked);
        },
        Some(newest) => newest.is_placeholder() || !same_digest(&newest.sha256, &fresh.sha256),
    };
    if !changed {
        Ok(Refresh::Unchanged)
    } else {
        match db.set_playlist(fresh) {
            Ok(()) => Ok(Refresh::Stored),
            Err(error) => Err(RefreshError::Store(error)),
        }
    }
}

/// How the refresh of playlist `id` ends on `store`, when the fetch made at
/// `timestamp` gave `content`.
pub open spec fn refresh_outcome(
    store: DatabaseView,
    id: Seq<char>,
    timestamp: u64,
    content: Result<PlaylistDataView, FetchError>,
) -> Result<Refresh, RefreshError> {
    match content {
        Err(_) => Err(RefreshError::FetchFailed),
        Ok(data) => store_outcome(store, PlaylistView::captured(id, data, timestamp)),
    }
}

/// The store after that refresh: with the fetched content as a new version
/// where the refresh ends in `Stored`, and as it was in every other case.
pub open spec fn refreshed(
    store: DatabaseView,
    id: Seq<char>,
    timestamp: u64,
    content: Result<PlaylistDataView, FetchError>,
) -> DatabaseView {
    match content {
        Ok(data) => stored_if_changed(store, PlaylistView::captured(id, data, timestamp)),
        Err(_) => store,
    }
}

/// Runs one refresh cycle of playlist `playlist_id` with what the fetch made
/// at `timestamp` gave. A failed fetch leaves the store as it is. Fetched
/// content is made into a version, fingerprinted, and stored if it differs
/// from the newest stored version.
pub fn refresh_playlist(
    db: &mut Database,
    playlist_id: &str,
    timestamp: u64,
    content: Result<PlaylistData, FetchError>,
) -> (outcome: Result<Refresh, RefreshError>)
    ensures
        outcome == refresh_outcome(old(db)@, playlist_id@, timestamp, content_view(content)),
        final(db)@ == refreshed(old(db)@, playlist_id@, timestamp, content_view(content)),
        outcome != Ok::<Refresh, RefreshError>(Refresh::Stored) ==> final(db)@ == old(db)@,
        outcome == Ok::<Refresh, RefreshError>(Refresh::Stored) ==> final(db)@.history(
            playlist_id@,
        ) == history_insert(
            old(db)@.history(playlist_id@),
            PlaylistView::captured(playlist_id@, content_view(content)->Ok_0, timestamp),
        ) && final(db)@.history(playlist_id@).len() == old(db)@.history(playlist_id@).len() + 1,
        forall|other: Seq<char>|
            other != playlist_id@ ==> final(db)@.history(other) == old(db)@.history(other)
                && final(db)@.tracks(other) == old(db)@.tracks(other),
        final(db)@.tracks(playlist_id@) == old(db)@.tracks(playlist_id@),
        final(db)@.wf(),
{
    proof {
        use_type_invariant(&*db);
    }
    match content {
        Err(_) => Err(RefreshError::FetchFailed),
        Ok(data) => {
            let fresh = Playlist::captured(owned(playlist_id), data, timestamp);
            store_if_changed(db, &fresh)
        },
    }
}

/// One playlist's share of a refresh of all playlists: what the fetch of
/// playlist `id`, made at `timestamp`, gave.
#[derive(Debug, PartialEq, Eq)]
pub struct Fetch {
    /// The playlist that was asked for.
    pub id: String,
    /// Unix time, in seconds, at which the fetch was made.
    pub timestamp: u64,
    /// The content, or that the fetch failed.
    pub content: Result<PlaylistData, FetchError>,
}

/// Mathematical model of a [`Fetch`].
pub struct FetchView {
    pub id: Seq<char>,
    pub timestamp: u64,
    pub content: Result<PlaylistDataView, FetchError>,
}

impl View for Fetch {
    type V = FetchView;

    open spec fn view(&self) -> FetchView {
        FetchView { id: self.id@, timestamp: self.timestamp, content: content_view(self.content) }
    }
}

/// The model of a list of fetches.
pub open spec fn fetches_view(fetches: Seq<Fetch>) -> Seq<FetchView> {
    fetches.map_values(|fetch: Fetch| fetch@)
}

/// The store after the refresh cycles of `fetches`, run one after the other.
pub open spec fn updated(store: DatabaseView, fetches: Seq<FetchView>) -> DatabaseView
    decreases fetches.len(),
{
    if fetches.len() == 0 {
        store
    } else {
        let fetch = fetches.last();
        refreshed(updated(store, fetches.drop_last()), fetch.id, fetch.timestamp, fetch.content)
    }
}

/// How the refresh cycle of the fetch at place `i` ends: as the cycle of that
/// fetch alone on the store that the cycles before it left.
pub open spec fn update_outcome(store: DatabaseView, fetches: Seq<FetchView>, i: int) -> Result<
    Refresh,
    RefreshError,
> {
    refresh_outcome(
        updated(store, fetches.take(i)),
        fetches[i].id,
        fetches[i].timestamp,
        fetches[i].content,
    )
}

/// Refreshes the playlists of `fetches`, one cycle each in the order given.
/// The cycles are independent: whichever way one ends, failed fetch or
/// refused write included, the others are run, and each ends as it would
/// alone on the store that the cycles before it left.
pub fn update_playlists(db: &mut Database, fetches: Vec<Fetch>) -> (outcomes: Vec<
    Result<Refresh, RefreshError>,
>)
    ensures
        final(db)@ == updated(old(db)@, fetches_view(fetches@)),
        outcomes.len() == fetches.len(),
        forall|i: int|
            0 <= i < fetches.len() ==> #[trigger] outcomes[i] == update_outcome(
                old(db)@,
                fetches_view(fetches@),
                i,
            ),
        final(db)@.wf(),
{
    proof {
        use_type_invariant(&*db);
    }
    let ghost all = fetches_view(fetches@);
    let ghost given = fetches@;
    let ghost start = db@;
    let mut outcomes: Vec<Result<Refresh, RefreshError>> = Vec::new();
    for fetch in iter: fetches
        invariant
            iter.seq() == given,
            all == fetches_view(given),
            outcomes.len() == iter.index(),
            db@ == updated(start, all.take(iter.index() as int)),
            forall|i: int|
                0 <= i < iter.index() ==> #[trigger] outcomes[i] == update_outcome(start, all, i),
    {
        proof {
            let done = iter.index() as int;
            assert(all.take(done + 1).drop_last() =~= all.take(done));
        }
        let outcome = refresh_playlist(db, fetch.id.as_str(), fetch.timestamp, fetch.content);
        outcomes.push(outcome);
    }
    proof {
        assert(all.take(all.len() as int) =~= all);
        use_type_invariant(&*db);
    }
    outcomes
}

/// The store after registering, one after the other, the playlists that the
/// addresses `urls` name. An address that names none changes nothing.
pub open spec fn registered(store: DatabaseView, urls: Seq<Seq<char>>) -> DatabaseView
    decreases urls.len(),
{
    if urls.len() == 0 {
        store
    } else {
        let before = registered(store, urls.drop_last());
        match url_playlist(urls.last()) {
            Ok(id) => before.register(id),
            Err(_) => before,
        }
    }
}

/// What became of an address that names a playlist.
#[derive(Debug, PartialEq, Eq)]
pub struct Registration {
    /// The playlist that the address names.
    pub id: String,
    /// Whether the placeholder was stored: `false` where the playlist was
    /// registered before.
    pub inserted: bool,
}

/// How the address at place `i` of `urls` fares when the addresses are
/// registered on `store` one after the other: the playlist it names, and
/// whether that playlist is new to the store that the addresses before it
/// left; or why it names none.
pub open spec fn registration(store: DatabaseView, urls: Seq<Seq<char>>, i: int) -> Result<
    (Seq<char>, bool),
    InputError,
> {
    match url_playlist(urls[i]) {
        Ok(id) => Ok((id, !registered(store, urls.take(i)).tracks(id))),
        Err(error) => Err(error),
    }
}

/// The model of what became of an address.
pub open spec fn registration_view(outcome: Result<Registration, InputError>) -> Result<
    (Seq<char>, bool),
    InputError,
> {
    match outcome {
        Ok(done) => Ok((done.id@, done.inserted)),
        Err(error) => Err(error),
    }
}

/// Registers the playlists at the addresses `playlist_ids` for tracking. Each
/// address is taken by itself: one that names no playlist is reported in its
/// place of the result and does not keep the others from being registered.
/// To register a playlist that is in the store already changes nothing.
pub fn add_playlist(db: &mut Database, playlist_ids: Vec<String>) -> (outcomes: Vec<
    Result<Registration, InputError>,
>)
    ensures
        final(db)@ == registered(old(db)@, texts_view(playlist_ids@)),
        outcomes.len() == playlist_ids.len(),
        forall|i: int|
            0 <= i < playlist_ids.len() ==> registration_view(#[trigger] outcomes[i])
                == registration(old(db)@, texts_view(playlist_ids@), i),
        final(db)@.wf(),
{
    proof {
        use_type_invariant(&*db);
    }
    let ghost urls = texts_view(playlist_ids@);
    let ghost start = db@;
    let mut outcomes: Vec<Result<Registration, InputError>> = Vec::new();
    let mut i: usize = 0;
    while i < playlist_ids.len()
        invariant
            i <= playlist_ids.len(),
            urls == texts_view(playlist_ids@),
            outcomes.len() == i,
            db@ == registered(start, urls.take(i as int)),
            forall|j: int|
                0 <= j < i ==> registration_view(#[trigger] outcomes[j]) == registration(
                    start,
                    urls,
                    j,
                ),
        decreases playlist_ids.len() - i,
    {
        proof {
            assert(urls.take(i + 1).drop_last() =~= urls.take(i as int));
        }
        let outcome = match playlist_from_url(playlist_ids[i].as_str()) {
            Ok(id) => {
                let inserted = db.set_unique_empty_playlist(id.as_str());
                Ok(Registration { id, inserted })
            },
            Err(error) => Err(error),
        };
        outcomes.push(outcome);
        i += 1;
    }
    proof {
        assert(urls.take(i as int) =~= urls);
        use_type_invariant(&*db);
    }
    outcomes
}

/// The store after deleting, one after the other, the playlists that the
/// addresses `urls` name. An address that names none changes nothing.
pub open spec fn deleted(store: DatabaseView, urls: Seq<Seq<char>>) -> DatabaseView
    decreases urls.len(),
{
    if urls.len() == 0 {
        store
    } else {
        let before = deleted(store, urls.drop_last());
        match url_playlist(urls.last()) {
            Ok(id) => before.delete(id),
            Err(_) => before,
        }
    }
}

/// Deletes the histories of the playlists at the addresses `playlist_ids`.
/// Each address is taken by itself: one that names no playlist is reported in
/// its place of the result and does not keep the others from being deleted.
pub fn delete_playlist(db: &mut Database, playlist_ids: Vec<String>) -> (outcomes: Vec<
    Result<String, InputError>,
>)
    ensures
        final(db)@ == deleted(old(db)@, texts_view(playlist_ids@)),
        outcomes.len() == playlist_ids.len(),
        forall|i: int|
            0 <= i < playlist_ids.len() ==> id_result_view(#[trigger] outcomes[i]) == url_playlist(
                playlist_ids[i]@,
            ),
        final(db)@.wf(),
{
    proof {
        use_type_invariant(&*db);
    }
    let ghost urls = texts_view(playlist_ids@);
    let ghost start = db@;
    let mut outcomes: Vec<Result<String, InputError>> = Vec::new();
    let mut i: usize = 0;
    while i < playlist_ids.len()
        invariant
            i <= playlist_ids.len(),
            urls == texts_view(playlist_ids@),
            outcomes.len() == i,
            db@ == deleted(start, urls.take(i as int)),
            forall|j: int|
                0 <= j < i ==> id_result_view(#[trigger] outcomes[j]) == url_playlist(
                    playlist_ids[j]@,
                ),
        decreases playlist_ids.len() - i,
    {
        proof {
            assert(urls.take(i + 1).drop_last() =~= urls.take(i as int));
        }
        let id = playlist_from_url(playlist_ids[i].as_str());
        match &id {
            Ok(found) => {
                db.delete_playlist(found.as_str());
            },
            Err(_) => {},
        }
        outcomes.push(id);
        i += 1;
    }
    proof {
        assert(urls.take(i as int) =~= urls);
        use_type_invariant(&*db);
    }
    outcomes
}

/// One line of the list of tracked playlists.
#[derive(Debug, PartialEq, Eq)]
pub struct Listing {
    /// The playlist.
    pub id: String,
    /// The name of the playlist in its newest version. `None` while the
    /// playlist holds nothing but the placeholder: the name is not available
    /// before the first refresh.
    pub name: Option<String>,
    /// The number of versions stored of the playlist, not counting the first.
    pub versions: u64,
}

/// Mathematical model of a [`Listing`].
pub struct ListingView {
    pub id: Seq<char>,
    pub name: Option<Seq<char>>,
    pub versions: nat,
}

impl View for Listing {
    type V = ListingView;

    open spec fn view(&self) -> ListingView {
        ListingView {
            id: self.id@,
            name: match self.name {
                Some(name) => Some(name@),
                None => None,
            },
            versions: self.versions as nat,
        }
    }
}

/// The name that a version gives its playlist, if the version has content.
pub open spec fn name_of(version: PlaylistView) -> Option<Seq<char>> {
    match version.data {
        Some(data) => Some(data.name),
        None => None,
    }
}

/// The line that lists a playlist whose newest version is `newest`, reported
/// with the number of its versions.
pub open spec fn listing_of(newest: PlaylistView) -> ListingView {
    ListingView { id: newest.id, name: name_of(newest), versions: (newest.count - 1) as nat }
}

/// The name of the playlist as `version` holds it.
fn version_name(version: &Playlist) -> (name: Option<String>)
    ensures
        match name {
            Some(name) => Some(name@) == name_of(version@),
            None => name_of(version@) is None,
        },
{
    match &version.data {
        Some(data) => Some(data.name.clone()),
        None => None,
    }
}

/// Lists the tracked playlists, in the order in which they were first stored:
/// each with the name that its newest version gives it and the number of
/// versions stored after the first.
pub fn list_playlists(db: &Database) -> (listings: Vec<Listing>)
    ensures
        listings.len() == db@.latest_unique().len(),
        forall|i: int|
            0 <= i < listings.len() ==> (#[trigger] listings[i])@ == listing_of(
                db@.latest_unique()[i],
            ),
{
    let newest = db.get_latest_unique_playlists();
    let ghost all = versions_view(newest@);
    let mut listings: Vec<Listing> = Vec::new();
    let mut i: usize = 0;
    while i < newest.len()
        invariant
            i <= newest.len(),
            listings.len() == i,
            all == versions_view(newest@),
            all == db@.latest_unique(),
            db@.wf(),
            forall|j: int| 0 <= j < i ==> (#[trigger] listings[j])@ == listing_of(all[j]),
        decreases newest.len() - i,
    {
        let version = &newest[i];
        assert(version.count >= 1) by {
            assert(db@.latest_unique().len() == db@.histories.len());
            assert(db@.latest_unique()[i as int].count == db@.histories[i as int].len());
        }
        listings.push(
            Listing {
                id: version.id.clone(),
                name: version_name(version),
                versions: version.count - 1,
            },
        );
        i += 1;
    }
    listings
}

/// One line of the history of a playlist.
#[derive(Debug, Clone, Copy, PartialEq, Eq)]
pub struct VersionLine {
    /// The position of the version in the history. The placeholder, which is
    /// not shown, has position 0.
    pub index: u64,
    /// Unix time, in seconds, at which the version was captured.
    pub timestamp: u64,
}

/// What is shown of the history of a playlist.
#[derive(Debug, PartialEq, Eq)]
pub struct TrackedVersions {
    /// The playlist.
    pub id: String,
    /// The name of the playlist in the first version shown.
    pub name: Option<String>,
    /// The versions of the playlist but for the placeholder, oldest first.
    pub versions: Vec<VersionLine>,
}

/// Mathematical model of [`TrackedVersions`].
pub struct TrackedVersionsView {
    pub id: Seq<char>,
    pub name: Option<Seq<char>>,
    pub versions: Seq<VersionLine>,
}

impl View for TrackedVersions {
    type V = TrackedVersionsView;

    open spec fn view(&self) -> TrackedVersionsView {
        TrackedVersionsView {
            id: self.id@,
            name: match self.name {
                Some(name) => Some(name@),
                None => None,
            },
            versions: self.versions@,
        }
    }
}

/// Why the history of a playlist cannot be shown.
#[derive(Debug, Clone, Copy, PartialEq, Eq)]
pub enum HistoryError {
    /// The text names no playlist.
    Input(InputError),
    /// The store has no version of the playlist.
    UnknownPlaylist,
    /// The playlist is registered but was never fetched: it has nothing but
    /// the placeholder.
    HistoryNotAvailable,
}

/// The versions of `history` that hold fetched content: all but the placeholder.
pub open spec fn fetched_versions(history: Seq<PlaylistView>) -> Seq<PlaylistView> {
    history.filter(|version: PlaylistView| !version.is_placeholder())
}

/// The line that shows `version`.
pub open spec fn line_of(version: PlaylistView) -> VersionLine {
    VersionLine { index: version.count as u64, timestamp: version.timestamp }
}

/// What is shown of the history, in `store`, of the playlist that `input` names.
pub open spec fn tracked_versions(store: DatabaseView, input: Seq<char>) -> Result<
    TrackedVersionsView,
    HistoryError,
> {
    match named_playlist(input) {
        Err(error) => Err(HistoryError::Input(error)),
        Ok(id) => {
            let fetched = fetched_versions(store.history(id));
            if store.history(id).len() == 0 {
                Err(HistoryError::UnknownPlaylist)
            } else if fetched.len() == 0 {
                Err(HistoryError::HistoryNotAvailable)
            } else {
                Ok(
                    TrackedVersionsView {
                        id,
                        name: name_of(fetched[0]),
                        versions: fetched.map_values(|version: PlaylistView| line_of(version)),
                    },
                )
            }
        },
    }
}

/// The model of the outcome of showing a history.
pub open spec fn tracked_view(shown: Result<TrackedVersions, HistoryError>) -> Result<
    TrackedVersionsView,
    HistoryError,
> {
    match shown {
        Ok(versions) => Ok(versions@),
        Err(error) => Err(error),
    }
}

/// Shows the history of the playlist that `playlist_id` names, by identifier
/// or by address: one line for each version, oldest first, with the position
/// of the version in the history and its capture time. The placeholder is
/// not shown, though it counts in the positions. A playlist that has nothing
/// but the placeholder has no history to show.
pub fn list_tracked_versions(db: &Database, playlist_id: &str) -> (shown: Result<
    TrackedVersions,
    HistoryError,
>)
    ensures
        tracked_view(shown) == tracked_versions(db@, playlist_id@),
{
    let id = match resolve_playlist(playlist_id) {
        Ok(id) => id,
        Err(error) => {
            return Err(HistoryError::Input(error));
        },
    };
    let history = db.get_all_tracked_versions(id.as_str());
    if history.len() == 0 {
        return Err(HistoryError::UnknownPlaylist);
    }
    let ghost all = versions_view(history@);
    let ghost keep = |version: PlaylistView| !version.is_placeholder();
    let ghost line = |version: PlaylistView| line_of(version);
    let mut name: Option<String> = None;
    let mut versions: Vec<VersionLine> = Vec::new();
    let mut i: usize = 0;
    proof {
        lemma_filter_empty(keep);
    }
    while i < history.len()
        invariant
            i <= history.len(),
            all == versions_view(history@),
            keep == |version: PlaylistView| !version.is_placeholder(),
            line == |version: PlaylistView| line_of(version),
            versions@ == all.take(i as int).filter(keep).map_values(line),
            forall|j: int| 0 <= j < history.len() ==> (#[trigger] history[j]).count == j,
            versions.len() > 0 ==> match name {
                Some(name) => Some(name@) == name_of(all.take(i as int).filter(keep)[0]),
                None => name_of(all.take(i as int).filter(keep)[0]) is None,
            },
        decreases history.len() - i,
    {
        let version = &history[i];
        proof {
            assert(all.take(i + 1) =~= all.take(i as int).push(all[i as int]));
            lemma_filter_push(all.take(i as int), all[i as int], keep);
        }
        if !version.is_placeholder() {
            if versions.len() == 0 {
                name = version_name(version);
            }
            versions.push(VersionLine { index: version.count, timestamp: version.timestamp });
        }
        i += 1;
    }
    assert(all.take(i as int) =~= all);
    if versions.len() == 0 {
        Err(HistoryError::HistoryNotAvailable)
    } else {
        Ok(TrackedVersions { id, name, versions })
    }
}

/// Why no version was selected.
#[derive(Debug, Clone, Copy, PartialEq, Eq)]
pub enum SelectionError {
    /// The text names no playlist.
    Input(InputError),
    /// The playlist has no version at that position, or the version there
    /// is the placeholder, which holds nothing to export.
    SelectionNotFound,
}

/// The version at position `index` of the history, in `store`, of the
/// playlist that `input` names, if it holds content.
pub open spec fn selection(store: DatabaseView, input: Seq<char>, index: u64) -> Result<
    PlaylistView,
    SelectionError,
> {
    match named_playlist(input) {
        Err(error) => Err(SelectionError::Input(error)),
        Ok(id) => match store.nth(id, index as nat) {
            Some(version) => if version.data is Some {
                Ok(version)
            } else {
                Err(SelectionError::SelectionNotFound)
            },
            None => Err(SelectionError::SelectionNotFound),
        },
    }
}

/// The model of the outcome of a selection.
pub open spec fn selection_view(selected: Result<Playlist, SelectionError>) -> Result<
    PlaylistView,
    SelectionError,
> {
    match selected {
        Ok(version) => Ok(version@),
        Err(error) => Err(error),
    }
}

/// Selects, for export, the version at position `index` of the history of
/// the playlist that `playlist_id` names, by identifier or by address. There
/// is nothing to select where the history has no such position or the
/// version there holds no content.
pub fn select_for_export(db: &Database, playlist_id: &str, index: u64) -> (selected: Result<
    Playlist,
    SelectionError,
>)
    ensures
        selection_view(selected) == selection(db@, playlist_id@, index),
{
    let id = match resolve_playlist(playlist_id) {
        Ok(id) => id,
        Err(error) => {
            return Err(SelectionError::Input(error));
        },
    };
    match db.get_playlist_from_tracked_index(id.as_str(), index) {
        Some(version) => {
            if version.data.is_some() {
                Ok(version)
            } else {
                Err(SelectionError::SelectionNotFound)
            }
        },
        None => Err(SelectionError::SelectionNotFound),
    }
}

/// Law: a refresh is a no-op when the fingerprints match. Where the newest
/// stored version of a playlist is not the placeholder and has the
/// fingerprint of the freshly captured version, the comparison ends in
/// `Unchanged` and the store is as it was; so does the refresh with content
/// that makes such a version.
pub proof fn law_refresh_unchanged(store: DatabaseView, fresh: PlaylistView)
    requires
        store.tracks(fresh.id),
        !store.history(fresh.id).last().is_placeholder(),
        store.history(fresh.id).last().sha256 == fresh.sha256,
    ensures
        store_outcome(store, fresh) == Ok::<Refresh, RefreshError>(Refresh::Unchanged),
        stored_if_changed(store, fresh) == store,
        forall|data: PlaylistDataView|
            PlaylistView::captured(fresh.id, data, fresh.timestamp).sha256 == fresh.sha256 ==> {
                &&& #[trigger] refresh_outcome(store, fresh.id, fresh.timestamp, Ok(data)) == Ok::<
                    Refresh,
                    RefreshError,
                >(Refresh::Unchanged)
                &&& refreshed(store, fresh.id, fresh.timestamp, Ok(data)) == store
            },
{
}

/// Law: content that was stored twice in a row is not stored a third time.
/// After two versions `first` and `second` with one fingerprint were put in
/// as the newest versions of a playlist, a refresh with content of that
/// fingerprint ends in `Unchanged` and leaves the store as it is.
pub proof fn law_refresh_after_two_versions(
    store: DatabaseView,
    first: PlaylistView,
    second: PlaylistView,
    fresh: PlaylistView,
)
    requires
        store.wf(),
        first.id == second.id,
        fresh.id == second.id,
        second.sha256 == first.sha256,
        fresh.sha256 == second.sha256,
        first.timestamp < second.timestamp,
        forall|i: int|
            0 <= i < store.history(first.id).len() ==> (#[trigger] store.history(
                first.id,
            )[i]).timestamp < first.timestamp,
    ensures
        store_outcome(store.insert(first).insert(second), fresh) == Ok::<Refresh, RefreshError>(
            Refresh::Unchanged,
        ),
        stored_if_changed(store.insert(first).insert(second), fresh) == store.insert(first).insert(
            second,
        ),
{
    let id = first.id;
    let once = store.insert(first);
    let before = store.history(id);
    // `first` goes behind every version that the playlist had ...
    store.lemma_history(id);
    store.lemma_insert(first);
    if store.tracks(id) {
        lemma_history_insert(before, first);
        lemma_rank_is_boundary(before, first.timestamp, before.len() as int);
    }
    // ... and `second` behind `first`, where it is the newest version.
    let middle = once.history(id);
    assert forall|i: int| 0 <= i < middle.len() implies (#[trigger] middle[i]).timestamp
        < second.timestamp by {
        assert(middle[i].timestamp <= middle[middle.len() - 1].timestamp);
    }
    once.lemma_history(id);
    once.lemma_insert(second);
    lemma_history_insert(middle, second);
    lemma_rank_is_boundary(middle, second.timestamp, middle.len() as int);
}

} // verus!
