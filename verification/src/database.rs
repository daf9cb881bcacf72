//! The version store: for every tracked playlist, the history of the versions
//! captured of it.

use crate::history::{
    history_holds, history_insert, history_wf, insert_version, lemma_history_insert,
    lemma_rank_parts, rank, versions_view,
};
use crate::playlist::{Playlist, PlaylistView};
use crate::text::{owned, same_text};
use vstd::prelude::*;

verus! {

/// A list of versions.
pub type Playlists = Vec<Playlist>;

/// Why the store refused an operation.
#[derive(Debug, Clone, Copy, PartialEq, Eq)]
pub enum StoreError {
    /// The write was rejected: the playlist already has a version captured at
    /// that time.
    WriteFailed,
}

/// Mathematical model of the store: the histories of the tracked playlists,
/// in the order in which the playlists were first stored.
pub struct DatabaseView {
    pub histories: Seq<Seq<PlaylistView>>,
}

impl DatabaseView {
    /// The store that tracks nothing.
    pub open spec fn empty() -> DatabaseView {
        DatabaseView { histories: Seq::empty() }
    }

    /// Whether the store is well-formed: every history is, and no two
    /// histories belong to the same playlist.
    pub open spec fn wf(self) -> bool {
        &&& forall|i: int|
            0 <= i < self.histories.len() ==> history_wf(#[trigger] self.histories[i])
        &&& forall|i: int, j: int|
            0 <= i < j < self.histories.len() ==> (#[trigger] self.histories[i])[0].id
                != (#[trigger] self.histories[j])[0].id
    }

    /// Whether the store has a history of playlist `id`.
    pub open spec fn tracks(self, id: Seq<char>) -> bool {
        exists|i: int| 0 <= i < self.histories.len() && (#[trigger] self.histories[i])[0].id == id
    }

    /// The place of the history of playlist `id` among the histories.
    pub open spec fn index_of(self, id: Seq<char>) -> int {
        choose|i: int| 0 <= i < self.histories.len() && (#[trigger] self.histories[i])[0].id == id
    }

    /// The history of playlist `id`, empty if the playlist is not tracked.
    pub open spec fn history(self, id: Seq<char>) -> Seq<PlaylistView> {
        if self.tracks(id) {
            self.histories[self.index_of(id)]
        } else {
            Seq::empty()
        }
    }

    /// Whether playlist `id` has a version captured at `timestamp`.
    pub open spec fn holds(self, id: Seq<char>, timestamp: u64) -> bool {
        history_holds(self.history(id), timestamp)
    }

    /// The version at position `index` of the history of playlist `id`.
    pub open spec fn nth(self, id: Seq<char>, index: nat) -> Option<PlaylistView> {
        if index < self.history(id).len() {
            Some(self.history(id)[index as int])
        } else {
            None
        }
    }

    /// The newest version of playlist `id`.
    pub open spec fn latest(self, id: Seq<char>) -> Option<PlaylistView> {
        if self.tracks(id) {
            Some(self.history(id).last())
        } else {
            None
        }
    }

    /// For every tracked playlist its newest version, reported with the
    /// number of versions that the playlist has.
    pub open spec fn latest_unique(self) -> Seq<PlaylistView> {
        Seq::new(
            self.histories.len(),
            |i: int| self.histories[i].last().at(self.histories[i].len()),
        )
    }

    /// The store after registering playlist `id`: unchanged if the playlist
    /// is tracked, else with a new history that holds the placeholder.
    pub open spec fn register(self, id: Seq<char>) -> DatabaseView {
        if self.tracks(id) {
            self
        } else {
            DatabaseView { histories: self.histories.push(seq![PlaylistView::placeholder(id)]) }
        }
    }

    /// The store after putting in `version`.
    pub open spec fn insert(self, version: PlaylistView) -> DatabaseView {
        if self.tracks(version.id) {
            DatabaseView {
                histories: self.histories.update(
                    self.index_of(version.id),
                    history_insert(self.history(version.id), version),
                ),
            }
        } else {
            DatabaseView { histories: self.histories.push(seq![version.at(0)]) }
        }
    }

    /// The store without the history of playlist `id`.
    pub open spec fn delete(self, id: Seq<char>) -> DatabaseView {
        if self.tracks(id) {
            DatabaseView { histories: self.histories.remove(self.index_of(id)) }
        } else {
            self
        }
    }

    /// In a well-formed store a playlist has its history at one place only.
    pub proof fn lemma_lookup(self, i: int)
        requires
            self.wf(),
            0 <= i < self.histories.len(),
        ensures
            self.tracks(self.histories[i][0].id),
            self.index_of(self.histories[i][0].id) == i,
            self.history(self.histories[i][0].id) == self.histories[i],
    {
    }

    /// A playlist of the store has a well-formed history of its own versions.
    pub proof fn lemma_history(self, id: Seq<char>)
        requires
            self.wf(),
        ensures
            self.tracks(id) ==> history_wf(self.history(id)) && self.history(id)[0].id == id && 0
                <= self.index_of(id) < self.histories.len(),
            !self.tracks(id) ==> self.history(id).len() == 0,
    {
    }

    /// A well-formed history of a playlist new to the store, put behind the
    /// others, keeps the store well-formed and is found as the history of
    /// its playlist; the other playlists keep their histories.
    proof fn lemma_push(self, added: Seq<PlaylistView>)
        requires
            self.wf(),
            history_wf(added),
            !self.tracks(added[0].id),
        ensures
            (DatabaseView { histories: self.histories.push(added) }).wf(),
            (DatabaseView { histories: self.histories.push(added) }).tracks(added[0].id),
            (DatabaseView { histories: self.histories.push(added) }).history(added[0].id) == added,
            forall|other: Seq<char>|
                other != added[0].id ==> (DatabaseView {
                    histories: self.histories.push(added),
                }).history(other) == self.history(other),
            forall|other: Seq<char>|
                other != added[0].id ==> (DatabaseView {
                    histories: self.histories.push(added),
                }).tracks(other) == self.tracks(other),
    {
        let after = DatabaseView { histories: self.histories.push(added) };
        let n = self.histories.len() as int;
        assert forall|i: int| 0 <= i < n implies #[trigger] after.histories[i]
            == self.histories[i] by {}
        assert(after.histories[n] == added);
        after.lemma_lookup(n);
        assert forall|other: Seq<char>| other != added[0].id implies after.history(other)
            == self.history(other) && after.tracks(other) == self.tracks(other) by {
            if self.tracks(other) {
                after.lemma_lookup(self.index_of(other));
            } else if after.tracks(other) {
                let k = after.index_of(other);
                assert(after.histories[k] == self.histories[k]);
            }
        }
    }

    /// Registering keeps the store well-formed, gives a playlist new to the
    /// store the placeholder as its whole history, and changes no other
    /// history.
    pub proof fn lemma_register(self, id: Seq<char>)
        requires
            self.wf(),
        ensures
            self.register(id).wf(),
            self.register(id).tracks(id),
            self.tracks(id) ==> self.register(id) == self,
            !self.tracks(id) ==> self.register(id).history(id) == seq![
                PlaylistView::placeholder(id),
            ],
            forall|other: Seq<char>|
                other != id ==> self.register(id).history(other) == self.history(other),
            forall|other: Seq<char>|
                other != id ==> self.register(id).tracks(other) == self.tracks(other),
    {
        if !self.tracks(id) {
            self.lemma_push(seq![PlaylistView::placeholder(id)]);
        }
    }

    /// Putting in a version captured at a time that its playlist does not
    /// hold yet keeps the store well-formed, puts the version into the
    /// history of its playlist and changes no other history.
    pub proof fn lemma_insert(self, version: PlaylistView)
        requires
            self.wf(),
            !self.holds(version.id, version.timestamp),
        ensures
            self.insert(version).wf(),
            self.insert(version).tracks(version.id),
            self.insert(version).history(version.id) == if self.tracks(version.id) {
                history_insert(self.history(version.id), version)
            } else {
                seq![version.at(0)]
            },
            forall|other: Seq<char>|
                other != version.id ==> self.insert(version).history(other) == self.history(other),
            forall|other: Seq<char>|
                other != version.id ==> self.insert(version).tracks(other) == self.tracks(other),
    {
        let after = self.insert(version);
        let id = version.id;
        if self.tracks(id) {
            let k = self.index_of(id);
            lemma_history_insert(self.history(id), version);
            // Every history stays with its playlist, and all but one stay as they are.
            assert forall|i: int| 0 <= i < after.histories.len() implies history_wf(
                #[trigger] after.histories[i],
            ) && after.histories[i][0].id == self.histories[i][0].id by {}
            after.lemma_lookup(k);
            assert forall|other: Seq<char>| other != id implies after.history(other)
                == self.history(other) && after.tracks(other) == self.tracks(other) by {
                if self.tracks(other) {
                    after.lemma_lookup(self.index_of(other));
                } else if after.tracks(other) {
                    let m = after.index_of(other);
                    assert(after.histories[m][0].id == self.histories[m][0].id);
                }
            }
        } else {
            self.lemma_push(seq![version.at(0)]);
        }
    }

    /// Deleting a playlist keeps the store well-formed, leaves the store
    /// without the playlist and changes no other history.
    pub proof fn lemma_delete(self, id: Seq<char>)
        requires
            self.wf(),
        ensures
            self.delete(id).wf(),
            !self.delete(id).tracks(id),
            self.delete(id).history(id) == Seq::<PlaylistView>::empty(),
            forall|other: Seq<char>|
                other != id ==> self.delete(id).history(other) == self.history(other),
            forall|other: Seq<char>|
                other != id ==> self.delete(id).tracks(other) == self.tracks(other),
    {
        let after = self.delete(id);
        if self.tracks(id) {
            let k = self.index_of(id);
            // The histories behind the deleted one move up by one place.
            assert forall|i: int| 0 <= i < after.histories.len() implies #[trigger] after.histories[i]
                == self.histories[if i < k {
                i
            } else {
                i + 1
            }] by {}
            if after.tracks(id) {
                let m = after.index_of(id);
                self.lemma_lookup(if m < k { m } else { m + 1 });
            }
            assert forall|other: Seq<char>| other != id implies after.history(other)
                == self.history(other) && after.tracks(other) == self.tracks(other) by {
                if self.tracks(other) {
                    let m = self.index_of(other);
                    after.lemma_lookup(if m < k { m } else { m - 1 });
                } else if after.tracks(other) {
                    let m = after.index_of(other);
                    self.lemma_lookup(if m < k { m } else { m + 1 });
                }
            }
        }
    }
}

/// Law: registering a playlist a second time changes nothing, and a playlist
/// never has two placeholder versions: however often it is registered, its
/// history holds at most one version with capture time zero.
pub proof fn law_register_twice(store: DatabaseView, id: Seq<char>)
    requires
        store.wf(),
    ensures
        store.register(id).register(id) == store.register(id),
        store.register(id).register(id).wf(),
        !store.tracks(id) ==> store.register(id).register(id).history(id) == seq![
            PlaylistView::placeholder(id),
        ],
        forall|i: int, j: int|
            #![trigger
                store.register(id).register(id).history(id)[i],
                store.register(id).register(id).history(id)[j]
            ]
            0 <= i < j < store.register(id).register(id).history(id).len() ==> !(
            store.register(id).register(id).history(id)[i].is_placeholder()
                && store.register(id).register(id).history(id)[j].is_placeholder()),
{
    store.lemma_register(id);
    let once = store.register(id);
    once.lemma_register(id);
    once.lemma_history(id);
}

/// Law: the history of a playlist is in strictly ascending order of capture
/// time, and its versions are numbered by their positions.
pub proof fn law_history_ascending(store: DatabaseView, id: Seq<char>)
    requires
        store.wf(),
    ensures
        forall|i: int, j: int|
            0 <= i < j < store.history(id).len() ==> (#[trigger] store.history(id)[i]).timestamp
                < (#[trigger] store.history(id)[j]).timestamp,
        forall|i: int|
            0 <= i < store.history(id).len() ==> (#[trigger] store.history(id)[i]).count == i
                && store.history(id)[i].id == id,
{
    store.lemma_history(id);
}

/// Law: only the first version of a history can be the placeholder, and the
/// newest version of a playlist is the one with the greatest capture time.
pub proof fn law_placeholder_first_newest_last(store: DatabaseView, id: Seq<char>)
    requires
        store.wf(),
        store.tracks(id),
    ensures
        store.latest(id) == Some(store.history(id).last()),
        forall|i: int|
            0 <= i < store.history(id).len() && (#[trigger] store.history(id)[i]).is_placeholder()
                ==> i == 0,
        forall|i: int|
            0 <= i < store.history(id).len() ==> (#[trigger] store.history(id)[i]).timestamp
                <= store.history(id).last().timestamp,
{
    store.lemma_history(id);
}

/// Law: the list of newest versions has one version for every playlist of
/// the store and no two of one playlist; each is the newest version of its
/// playlist, reported with the number of versions that the playlist has.
pub proof fn law_latest_unique(store: DatabaseView)
    requires
        store.wf(),
    ensures
        forall|i: int|
            0 <= i < store.latest_unique().len() ==> {
                let id = (#[trigger] store.latest_unique()[i]).id;
                &&& store.tracks(id)
                &&& store.latest_unique()[i] == store.history(id).last().at(store.history(id).len())
            },
        forall|i: int, j: int|
            0 <= i < j < store.latest_unique().len() ==> (#[trigger] store.latest_unique()[i]).id
                != (#[trigger] store.latest_unique()[j]).id,
        forall|id: Seq<char>|
            store.tracks(id) ==> 0 <= store.index_of(id) < store.latest_unique().len()
                && store.latest_unique()[store.index_of(id)].id == id,
{
    // The newest version of a history belongs to the playlist of its first.
    assert forall|i: int| 0 <= i < store.latest_unique().len() implies (
    #[trigger] store.latest_unique()[i]).id == store.histories[i][0].id by {
        let history = store.histories[i];
        assert(history[history.len() - 1].id == history[0].id);
    }
}

/// Law: the store only grows. Putting in a version changes no stored
/// version but for its number: every version that the history held is in
/// the new history, before the new version at its old position and behind
/// it one position further on.
pub proof fn law_insert_keeps_versions(store: DatabaseView, version: PlaylistView)
    requires
        store.wf(),
        !store.holds(version.id, version.timestamp),
    ensures
        store.insert(version).history(version.id).len() == store.history(version.id).len() + 1,
        forall|i: int|
            #![trigger store.history(version.id)[i]]
            0 <= i < store.history(version.id).len() ==> {
                let moved = if i < rank(store.history(version.id), version.timestamp) {
                    i
                } else {
                    i + 1
                };
                store.insert(version).history(version.id)[moved] == store.history(version.id)[i].at(
                    moved as nat,
                )
            },
        store.insert(version).history(version.id)[rank(
            store.history(version.id),
            version.timestamp,
        )] == version.at(rank(store.history(version.id), version.timestamp) as nat),
{
    store.lemma_history(version.id);
    store.lemma_insert(version);
    if store.tracks(version.id) {
        lemma_history_insert(store.history(version.id), version);
        lemma_rank_parts(store.history(version.id), version.timestamp);
    }
}

/// Law: a position at or beyond the length of a playlist's history holds no
/// version, and every position below the length holds one.
pub proof fn law_nth_in_range(store: DatabaseView, id: Seq<char>, index: nat)
    ensures
        index >= store.history(id).len() ==> store.nth(id, index) is None,
        index < store.history(id).len() ==> store.nth(id, index) == Some(
            store.history(id)[index as int],
        ),
        !store.tracks(id) ==> store.nth(id, index) is None,
{
}

/// Law: after a playlist was deleted its history is empty, and the histories
/// of the other playlists are as they were.
pub proof fn law_delete_then_history(store: DatabaseView, id: Seq<char>)
    requires
        store.wf(),
    ensures
        store.delete(id).wf(),
        store.delete(id).history(id) == Seq::<PlaylistView>::empty(),
        forall|index: nat| store.delete(id).nth(id, index) is None,
        forall|other: Seq<char>|
            other != id ==> store.delete(id).history(other) == store.history(other),
{
    store.lemma_delete(id);
}

/// The store of playlist versions.
///
/// A playlist enters the store through
/// [`set_unique_empty_playlist`](Database::set_unique_empty_playlist), which
/// gives it a placeholder version, or through
/// [`set_playlist`](Database::set_playlist). No stored version is ever
/// changed; a history only grows, or is deleted as a whole.
pub struct Database {
    playlists: Vec<Vec<Playlist>>,
}

/// The model of the stored histories.
spec fn model(playlists: Seq<Vec<Playlist>>) -> DatabaseView {
    DatabaseView { histories: Seq::new(playlists.len(), |i: int| versions_view(playlists[i]@)) }
}

impl View for Database {
    type V = DatabaseView;

    closed spec fn view(&self) -> DatabaseView {
        model(self.playlists@)
    }
}

/// Looks for the history of playlist `id`.
fn find_history(playlists: &Vec<Vec<Playlist>>, id: &str) -> (found: Option<usize>)
    requires
        model(playlists@).wf(),
    ensures
        match found {
            Some(k) => k < playlists.len() && model(playlists@).tracks(id@) && model(
                playlists@,
            ).index_of(id@) == k,
            None => !model(playlists@).tracks(id@),
        },
{
    let ghost view = model(playlists@);
    let mut k: usize = 0;
    while k < playlists.len()
        invariant
            k <= playlists.len(),
            view == model(playlists@),
            view.wf(),
            forall|i: int| 0 <= i < k ==> (#[trigger] view.histories[i])[0].id != id@,
        decreases playlists.len() - k,
    {
        assert(view.histories[k as int][0] == playlists@[k as int]@[0]@);
        if same_text(playlists[k][0].id.as_str(), id) {
            proof {
                view.lemma_lookup(k as int);
            }
            return Some(k);
        }
        k += 1;
    }
    None
}

/// Whether `history` holds a version captured at `timestamp`.
fn holds_timestamp(history: &Vec<Playlist>, timestamp: u64) -> (held: bool)
    ensures
        held == history_holds(versions_view(history@), timestamp),
{
    let ghost view = versions_view(history@);
    let mut i: usize = 0;
    while i < history.len()
        invariant
            i <= history.len(),
            view == versions_view(history@),
            forall|j: int| 0 <= j < i ==> (#[trigger] view[j]).timestamp != timestamp,
        decreases history.len() - i,
    {
        assert(view[i as int] == history@[i as int]@);
        if history[i].timestamp == timestamp {
            return true;
        }
        i += 1;
    }
    false
}

/// Adds a history after the stored ones.
fn push_history(playlists: &mut Vec<Vec<Playlist>>, history: Vec<Playlist>)
    ensures
        model(final(playlists)@).histories == model(old(playlists)@).histories.push(
            versions_view(history@),
        ),
{
    playlists.push(history);
    assert(model(playlists@).histories =~= model(old(playlists)@).histories.push(
        versions_view(history@),
    ));
}

/// Puts `version` into the history at place `k`.
fn insert_into(playlists: &mut Vec<Vec<Playlist>>, k: usize, version: Playlist)
    requires
        k < old(playlists).len(),
        history_wf(model(old(playlists)@).histories[k as int]),
        version@.id == model(old(playlists)@).histories[k as int][0].id,
        !history_holds(model(old(playlists)@).histories[k as int], version.timestamp),
    ensures
        model(final(playlists)@).histories == model(old(playlists)@).histories.update(
            k as int,
            history_insert(model(old(playlists)@).histories[k as int], version@),
        ),
{
    insert_version(&mut playlists[k], version);
    assert(model(playlists@).histories =~= model(old(playlists)@).histories.update(
        k as int,
        history_insert(model(old(playlists)@).histories[k as int], version@),
    ));
}

/// Takes the history at place `k` out of the stored ones.
fn remove_history(playlists: &mut Vec<Vec<Playlist>>, k: usize)
    requires
        k < old(playlists).len(),
    ensures
        model(final(playlists)@).histories == model(old(playlists)@).histories.remove(k as int),
{
    playlists.remove(k);
}

/// A copy of every version of `history`.
fn clone_history(history: &Vec<Playlist>) -> (copy: Playlists)
    ensures
        versions_view(copy@) == versions_view(history@),
{
    let mut copy: Vec<Playlist> = Vec::new();
    let mut i: usize = 0;
    while i < history.len()
        invariant
            i <= history.len(),
            copy.len() == i,
            forall|j: int| 0 <= j < i ==> copy@[j]@ == history@[j]@,
        decreases history.len() - i,
    {
        copy.push(history[i].clone());
        i += 1;
    }
    copy
}

impl Database {
    /// Every store is well-formed.
    #[verifier::type_invariant]
    pub open spec fn well_formed(self) -> bool {
        self@.wf()
    }

    /// Hands out the stored histories and leaves the store empty, so that
    /// they can be worked on and put back.
    fn take_playlists(&mut self) -> (playlists: Vec<Vec<Playlist>>)
        ensures
            playlists == old(self).playlists,
    {
        let mut playlists: Vec<Vec<Playlist>> = Vec::new();
        std::mem::swap(&mut self.playlists, &mut playlists);
        playlists
    }

    /// A store that tracks no playlist.
    pub fn new() -> (db: Database)
        ensures
            db@ == DatabaseView::empty(),
            forall|id: Seq<char>| !db@.tracks(id),
            db@.wf(),
    {
        let db = Database { playlists: Vec::new() };
        assert(db@.histories =~= DatabaseView::empty().histories);
        db
    }

    /// Registers playlist `playlist_id` for tracking: stores its placeholder
    /// version if, and only if, the store has no version of the playlist. The
    /// result tells whether the placeholder was stored.
    pub fn set_unique_empty_playlist(&mut self, playlist_id: &str) -> (inserted: bool)
        ensures
            final(self)@ == old(self)@.register(playlist_id@),
            inserted == !old(self)@.tracks(playlist_id@),
            final(self)@.tracks(playlist_id@),
            final(self)@.history(playlist_id@) == if inserted {
                seq![PlaylistView::placeholder(playlist_id@)]
            } else {
                old(self)@.history(playlist_id@)
            },
            forall|other: Seq<char>|
                other != playlist_id@ ==> final(self)@.history(other) == old(self)@.history(other)
                    && final(self)@.tracks(other) == old(self)@.tracks(other),
            final(self)@.wf(),
    {
        proof {
            use_type_invariant(&*self);
            self@.lemma_register(playlist_id@);
        }
        match find_history(&self.playlists, playlist_id) {
            Some(_) => false,
            None => {
                let mut history: Vec<Playlist> = Vec::new();
                history.push(Playlist::placeholder(owned(playlist_id)));
                assert(versions_view(history@) =~= seq![PlaylistView::placeholder(playlist_id@)]);
                let mut playlists = self.take_playlists();
                push_history(&mut playlists, history);
                self.playlists = playlists;
                true
            },
        }
    }

    /// Stores `playlist` as a new version of its playlist, at the place in
    /// the history that its capture time gives it. The write fails, and the
    /// store stays as it is, if and only if the playlist already has a
    /// version captured at that time.
    pub fn set_playlist(&mut self, playlist: &Playlist) -> (result: Result<(), StoreError>)
        ensures
            match result {
                Ok(()) => !old(self)@.holds(playlist@.id, playlist@.timestamp) && final(self)@
                    == old(self)@.insert(playlist@),
                Err(StoreError::WriteFailed) => old(self)@.holds(
                    playlist@.id,
                    playlist@.timestamp,
                ) && final(self)@ == old(self)@,
            },
            result is Ok ==> final(self)@.tracks(playlist@.id) && final(self)@.history(playlist@.id)
                == if old(self)@.tracks(playlist@.id) {
                history_insert(old(self)@.history(playlist@.id), playlist@)
            } else {
                seq![playlist@.at(0)]
            },
            result is Ok ==> final(self)@.history(playlist@.id).len() == old(self)@.history(
                playlist@.id,
            ).len() + 1,
            forall|other: Seq<char>|
                other != playlist@.id ==> final(self)@.history(other) == old(self)@.history(other)
                    && final(self)@.tracks(other) == old(self)@.tracks(other),
            final(self)@.wf(),
    {
        proof {
            use_type_invariant(&*self);
            self@.lemma_history(playlist@.id);
        }
        match find_history(&self.playlists, playlist.id.as_str()) {
            Some(k) => {
                if holds_timestamp(&self.playlists[k], playlist.timestamp) {
                    Err(StoreError::WriteFailed)
                } else {
                    proof {
                        self@.lemma_insert(playlist@);
                        lemma_history_insert(self@.history(playlist@.id), playlist@);
                    }
                    let mut playlists = self.take_playlists();
                    insert_into(&mut playlists, k, playlist.clone());
                    self.playlists = playlists;
                    Ok(())
                }
            },
            None => {
                proof {
                    self@.lemma_insert(playlist@);
                }
                let mut version = playlist.clone();
                version.count = 0;
                let mut history: Vec<Playlist> = Vec::new();
                history.push(version);
                assert(versions_view(history@) =~= seq![playlist@.at(0)]);
                let mut playlists = self.take_playlists();
                push_history(&mut playlists, history);
                self.playlists = playlists;
                Ok(())
            },
        }
    }

    /// Deletes every version of playlist `playlist_id`. The result tells
    /// whether the playlist had any.
    pub fn delete_playlist(&mut self, playlist_id: &str) -> (deleted: bool)
        ensures
            final(self)@ == old(self)@.delete(playlist_id@),
            deleted == old(self)@.tracks(playlist_id@),
            !final(self)@.tracks(playlist_id@),
            final(self)@.history(playlist_id@) == Seq::<PlaylistView>::empty(),
            forall|other: Seq<char>|
                other != playlist_id@ ==> final(self)@.history(other) == old(self)@.history(other)
                    && final(self)@.tracks(other) == old(self)@.tracks(other),
            final(self)@.wf(),
    {
        proof {
            use_type_invariant(&*self);
            self@.lemma_delete(playlist_id@);
        }
        match find_history(&self.playlists, playlist_id) {
            Some(k) => {
                let mut playlists = self.take_playlists();
                remove_history(&mut playlists, k);
                self.playlists = playlists;
                true
            },
            None => false,
        }
    }

    /// For every tracked playlist, in the order in which the playlists were
    /// first stored, its newest version. The `count` of each tells how many
    /// versions the playlist has, the placeholder included.
    pub fn get_latest_unique_playlists(&self) -> (latest: Playlists)
        ensures
            versions_view(latest@) == self@.latest_unique(),
            self@.wf(),
    {
        proof {
            use_type_invariant(self);
        }
        let mut latest: Vec<Playlist> = Vec::new();
        let mut k: usize = 0;
        while k < self.playlists.len()
            invariant
                k <= self.playlists.len(),
                latest.len() == k,
                self@.wf(),
                self@ == model(self.playlists@),
                forall|i: int| 0 <= i < k ==> latest@[i]@ == self@.latest_unique()[i],
            decreases self.playlists.len() - k,
        {
            let history = &self.playlists[k];
            assert(versions_view(history@) == self@.histories[k as int]);
            let mut newest = history[history.len() - 1].clone();
            newest.count = history.len() as u64;
            latest.push(newest);
            k += 1;
        }
        latest
    }

    /// The newest version of playlist `playlist_id`, if the playlist is tracked.
    pub fn latest(&self, playlist_id: &str) -> (newest: Option<&Playlist>)
        ensures
            match newest {
                Some(version) => Some(version@) == self@.latest(playlist_id@),
                None => self@.latest(playlist_id@) is None,
            },
            self@.wf(),
    {
        proof {
            use_type_invariant(self);
            self@.lemma_history(playlist_id@);
        }
        match find_history(&self.playlists, playlist_id) {
            Some(k) => {
                let history = &self.playlists[k];
                Some(&history[history.len() - 1])
            },
            None => None,
        }
    }

    /// The history of playlist `playlist_id`: all its versions in strictly
    /// ascending order of capture time, each numbered by its position. The
    /// history of a playlist that is not tracked is empty.
    pub fn get_all_tracked_versions(&self, playlist_id: &str) -> (history: Playlists)
        ensures
            versions_view(history@) == self@.history(playlist_id@),
            forall|i: int, j: int|
                0 <= i < j < history.len() ==> history[i].timestamp < history[j].timestamp,
            forall|i: int| 0 <= i < history.len() ==> history[i].count == i,
            self@.wf(),
    {
        proof {
            use_type_invariant(self);
            self@.lemma_history(playlist_id@);
        }
        match find_history(&self.playlists, playlist_id) {
            Some(k) => {
                let history = clone_history(&self.playlists[k]);
                assert forall|i: int, j: int| 0 <= i < j < history.len() implies history[i].timestamp
                    < history[j].timestamp by {
                    assert(versions_view(history@)[i] == history@[i]@);
                    assert(versions_view(history@)[j] == history@[j]@);
                }
                assert forall|i: int| 0 <= i < history.len() implies history[i].count == i by {
                    assert(versions_view(history@)[i] == history@[i]@);
                }
                history
            },
            None => {
                let history: Vec<Playlist> = Vec::new();
                history
            },
        }
    }

    /// The version at position `index` of the history of playlist
    /// `playlist_id`, or `None` if the history has no such position.
    pub fn get_playlist_from_tracked_index(&self, playlist_id: &str, index: u64) -> (version:
        Option<Playlist>)
        ensures
            match version {
                Some(found) => Some(found@) == self@.nth(playlist_id@, index as nat),
                None => self@.nth(playlist_id@, index as nat) is None,
            },
            version is None <==> index >= self@.history(playlist_id@).len(),
            self@.wf(),
    {
        proof {
            use_type_invariant(self);
            self@.lemma_history(playlist_id@);
        }
        match find_history(&self.playlists, playlist_id) {
            Some(k) => {
                let history = &self.playlists[k];
                if index < history.len() as u64 {
                    let i = index as usize;
                    Some(history[i].clone())
                } else {
                    None
                }
            },
            None => None,
        }
    }
}

} // verus!
