//! The history of one playlist: its stored versions in ascending order of
//! capture time.

use crate::playlist::{Playlist, PlaylistView};
use vstd::prelude::*;

verus! {

/// The model of a list of versions.
pub open spec fn versions_view(versions: Seq<Playlist>) -> Seq<PlaylistView> {
    versions.map_values(|version: Playlist| version@)
}

/// Whether `history` is a well-formed history of one playlist: not empty,
/// all versions of the same playlist, capture times strictly ascending, and
/// every version numbered by its position.
pub open spec fn history_wf(history: Seq<PlaylistView>) -> bool {
    &&& history.len() > 0
    &&& forall|i: int|
        0 <= i < history.len() ==> (#[trigger] history[i]).id == history[0].id && history[i].count
            == i
    &&& ascending(history)
}

/// Whether the capture times of `history` are strictly ascending.
pub open spec fn ascending(history: Seq<PlaylistView>) -> bool {
    forall|i: int, j: int|
        0 <= i < j < history.len() ==> (#[trigger] history[i]).timestamp
            < (#[trigger] history[j]).timestamp
}

/// Whether `history` holds a version captured at `timestamp`.
pub open spec fn history_holds(history: Seq<PlaylistView>, timestamp: u64) -> bool {
    exists|i: int| 0 <= i < history.len() && (#[trigger] history[i]).timestamp == timestamp
}

/// The number of versions in `history` captured before `timestamp`.
pub open spec fn rank(history: Seq<PlaylistView>, timestamp: u64) -> int
    decreases history.len(),
{
    if history.len() == 0 {
        0
    } else {
        rank(history.drop_last(), timestamp) + if history.last().timestamp < timestamp {
            1int
        } else {
            0int
        }
    }
}

/// `history` with every version numbered by its position.
pub open spec fn renumbered(history: Seq<PlaylistView>) -> Seq<PlaylistView> {
    Seq::new(history.len(), |i: int| history[i].at(i as nat))
}

/// `history` with `version` put in at the place its capture time gives it.
pub open spec fn history_insert(history: Seq<PlaylistView>, version: PlaylistView) -> Seq<
    PlaylistView,
> {
    renumbered(history.insert(rank(history, version.timestamp), version))
}

/// In an ascending history, the rank of a capture time is the one position
/// that parts the versions captured before it from the others.
pub proof fn lemma_rank_is_boundary(history: Seq<PlaylistView>, timestamp: u64, k: int)
    requires
        0 <= k <= history.len(),
        forall|i: int| 0 <= i < k ==> (#[trigger] history[i]).timestamp < timestamp,
        forall|i: int| k <= i < history.len() ==> (#[trigger] history[i]).timestamp >= timestamp,
    ensures
        rank(history, timestamp) == k,
    decreases history.len(),
{
    if history.len() > 0 {
        let front = history.drop_last();
        assert forall|i: int| 0 <= i < front.len() implies front[i] == history[i] by {}
        if k == history.len() {
            lemma_rank_is_boundary(front, timestamp, k - 1);
        } else {
            lemma_rank_is_boundary(front, timestamp, k);
        }
    }
}

/// In an ascending history, the versions below the rank of a capture time
/// were captured before it and the others at it or after it.
pub proof fn lemma_rank_parts(history: Seq<PlaylistView>, timestamp: u64)
    requires
        ascending(history),
    ensures
        0 <= rank(history, timestamp) <= history.len(),
        forall|i: int|
            0 <= i < rank(history, timestamp) ==> (#[trigger] history[i]).timestamp < timestamp,
        forall|i: int|
            rank(history, timestamp) <= i < history.len() ==> (#[trigger] history[i]).timestamp
                >= timestamp,
    decreases history.len(),
{
    if history.len() > 0 {
        let front = history.drop_last();
        assert forall|i: int| 0 <= i < front.len() implies front[i] == history[i] by {}
        lemma_rank_parts(front, timestamp);
    }
}

/// Putting a version of the same playlist, captured at a time the history
/// does not hold yet, into a well-formed history gives a well-formed history
/// of the same playlist that holds one version more.
pub proof fn lemma_history_insert(history: Seq<PlaylistView>, version: PlaylistView)
    requires
        history_wf(history),
        version.id == history[0].id,
        !history_holds(history, version.timestamp),
    ensures
        history_wf(history_insert(history, version)),
        history_insert(history, version).len() == history.len() + 1,
        history_insert(history, version)[0].id == history[0].id,
        history_insert(history, version)[rank(history, version.timestamp)] == version.at(
            rank(history, version.timestamp) as nat,
        ),
        forall|timestamp: u64|
            history_holds(history_insert(history, version), timestamp) <==> (timestamp
                == version.timestamp || history_holds(history, timestamp)),
{
    let k = rank(history, version.timestamp);
    let widened = history.insert(k, version);
    let after = history_insert(history, version);
    lemma_rank_parts(history, version.timestamp);
    // Renumbering changes neither capture times nor the playlist.
    assert forall|i: int| 0 <= i < after.len() implies (#[trigger] after[i]).timestamp
        == widened[i].timestamp && after[i].id == history[0].id && after[i].count == i by {}
    assert forall|timestamp: u64|
        history_holds(after, timestamp) <==> (timestamp == version.timestamp || history_holds(
            history,
            timestamp,
        )) by {
        if history_holds(history, timestamp) {
            // A version held before is held after, at its place or one further on.
            let i = choose|i: int|
                0 <= i < history.len() && (#[trigger] history[i]).timestamp == timestamp;
            if i < k {
                assert(after[i].timestamp == widened[i].timestamp);
            } else {
                assert(after[i + 1].timestamp == widened[i + 1].timestamp);
            }
        }
    }
}

/// Puts `version` into `history` at the place its capture time gives it, and
/// numbers the versions anew.
pub(crate) fn insert_version(history: &mut Vec<Playlist>, version: Playlist)
    requires
        history_wf(versions_view(old(history)@)),
        version@.id == versions_view(old(history)@)[0].id,
        !history_holds(versions_view(old(history)@), version.timestamp),
    ensures
        versions_view(final(history)@) == history_insert(versions_view(old(history)@), version@),
{
    let ghost before = versions_view(history@);
    let mut position: usize = 0;
    while position < history.len() && history[position].timestamp < version.timestamp
        invariant
            position <= history.len(),
            before == versions_view(history@),
            forall|i: int| 0 <= i < position ==> (#[trigger] before[i]).timestamp < version.timestamp,
        decreases history.len() - position,
    {
        position += 1;
    }
    proof {
        // The scan stopped at the first version that is not older: by the
        // order of the history, no version behind it is older either.
        assert forall|i: int| position <= i < before.len() implies (#[trigger] before[i]).timestamp
            >= version.timestamp by {
            if i > position {
                assert(before[position as int].timestamp < before[i].timestamp);
            }
        }
        lemma_rank_is_boundary(before, version.timestamp, position as int);
    }
    let ghost widened = before.insert(position as int, version@);
    history.insert(position, version);
    let mut i: usize = position;
    while i < history.len()
        invariant
            position <= i <= history.len(),
            history.len() == widened.len(),
            widened == before.insert(position as int, version@),
            history_wf(before),
            position <= before.len(),
            forall|j: int|
                0 <= j < history.len() ==> (#[trigger] versions_view(history@)[j]) == if j < i {
                    widened[j].at(j as nat)
                } else {
                    widened[j]
                },
        decreases history.len() - i,
    {
        let ghost prior = history@;
        history[i].count = i as u64;
        assert forall|j: int| 0 <= j < history.len() implies (#[trigger] versions_view(
            history@,
        )[j]) == if j < i + 1 {
            widened[j].at(j as nat)
        } else {
            widened[j]
        } by {
            assert(versions_view(prior)[j] == prior[j]@);
        }
        i += 1;
    }
    assert(versions_view(history@) =~= history_insert(before, version@));
}

} // verus!
