//! Content fingerprints: the SHA-256 digest of a playlist's track identifiers.

use crate::playlist::{items_view, PlaylistItem, PlaylistItemView};
use sha2::{Digest, Sha256};
use vstd::prelude::*;
use vstd::string::*;
use vstd::utf8::*;

verus! {

/// The SHA-256 digest of `data`.
pub uninterp spec fn sha256(data: Seq<u8>) -> Seq<u8>;

/// Calls `sha2::Sha256::digest`, the one-shot form of the hasher, which
/// returns the 32-byte SHA-256 digest of the bytes handed to it. The digest is
/// not computed here: it is taken on trust to be `sha256` of the input.
#[verifier::external_body]
fn sha256_digest(data: &[u8]) -> (digest: [u8; 32])
    ensures
        digest@ == sha256(data@),
{
    Sha256::digest(data).into()
}

/// The bytes that an entry contributes to the fingerprint: the identifier of a
/// track that has one, and nothing for any other entry.
pub open spec fn hashed_bytes(item: PlaylistItemView) -> Seq<u8> {
    match item {
        PlaylistItemView::Track(Some(id)) => encode_utf8(id),
        _ => Seq::empty(),
    }
}

/// The byte stream that is hashed for a track listing: the contributions of
/// its entries, one after the other in listing order.
pub open spec fn fingerprint_input(items: Seq<PlaylistItemView>) -> Seq<u8>
    decreases items.len(),
{
    if items.len() == 0 {
        Seq::empty()
    } else {
        fingerprint_input(items.drop_last()) + hashed_bytes(items.last())
    }
}

/// The fingerprint of a track listing.
pub open spec fn spec_fingerprint(items: Seq<PlaylistItemView>) -> Seq<u8> {
    sha256(fingerprint_input(items))
}

/// Gathers the bytes to hash for `items`.
pub fn fingerprint_bytes(items: &Vec<PlaylistItem>) -> (bytes: Vec<u8>)
    ensures
        bytes@ == fingerprint_input(items_view(items@)),
{
    let mut bytes: Vec<u8> = Vec::new();
    let mut i: usize = 0;
    while i < items.len()
        invariant
            i <= items.len(),
            bytes@ == fingerprint_input(items_view(items@).take(i as int)),
        decreases items.len() - i,
    {
        let ghost before = items_view(items@).take(i as int);
        assert(items_view(items@).take(i + 1).drop_last() == before);
        match &items[i] {
            PlaylistItem::Track(Some(id)) => {
                let id_bytes = id.as_str().as_bytes();
                let mut k: usize = 0;
                while k < id_bytes.len()
                    invariant
                        k <= id_bytes.len(),
                        bytes@ == fingerprint_input(before) + id_bytes@.take(k as int),
                    decreases id_bytes.len() - k,
                {
                    bytes.push(id_bytes[k]);
                    k += 1;
                }
            },
            _ => {},
        }
        i += 1;
    }
    assert(items_view(items@).take(i as int) == items_view(items@));
    bytes
}

/// Computes the fingerprint of a track listing: the SHA-256 digest of the
/// identifiers of its tracks, in listing order. Entries without a track
/// identifier are passed over.
pub fn fingerprint(items: &Vec<PlaylistItem>) -> (digest: [u8; 32])
    ensures
        digest@ == spec_fingerprint(items_view(items@)),
{
    let bytes = fingerprint_bytes(items);
    sha256_digest(bytes.as_slice())
}

/// Whether every entry of `items` is a track whose identifier takes exactly
/// `width` bytes.
pub open spec fn uniform_tracks(items: Seq<PlaylistItemView>, width: nat) -> bool {
    forall|i: int|
        0 <= i < items.len() ==> (#[trigger] items[i] matches PlaylistItemView::Track(Some(id))
            && encode_utf8(id).len() == width)
}

/// Whether SHA-256 tells the byte strings `a` and `b` apart unless they are equal.
pub open spec fn collision_free(a: Seq<u8>, b: Seq<u8>) -> bool {
    sha256(a) == sha256(b) ==> a == b
}

/// A listing of `width`-byte track identifiers stays one without its last entry.
proof fn lemma_uniform_front(items: Seq<PlaylistItemView>, width: nat)
    requires
        uniform_tracks(items, width),
        items.len() > 0,
    ensures
        uniform_tracks(items.drop_last(), width),
{
    let front = items.drop_last();
    assert forall|i: int| 0 <= i < front.len() implies (#[trigger] front[i] matches PlaylistItemView::Track(
        Some(id),
    ) && encode_utf8(id).len() == width) by {
        assert(front[i] == items[i]);
    }
}

/// The byte stream of a listing of `width`-byte track identifiers has
/// `width` bytes per entry.
pub proof fn lemma_uniform_input_len(items: Seq<PlaylistItemView>, width: nat)
    requires
        uniform_tracks(items, width),
    ensures
        fingerprint_input(items).len() == items.len() * width,
    decreases items.len(),
{
    if items.len() > 0 {
        let front = items.drop_last();
        lemma_uniform_front(items, width);
        lemma_uniform_input_len(front, width);
        assert(hashed_bytes(items[items.len() - 1]).len() == width);
        assert(items.len() * width == front.len() * width + width) by (nonlinear_arith)
            requires
                items.len() == front.len() + 1,
        ;
    }
}

/// Law: a fingerprint depends on nothing but the listing. Two listings with
/// the same entries in the same order have the same fingerprint.
pub proof fn law_fingerprint_deterministic(a: Seq<PlaylistItemView>, b: Seq<PlaylistItemView>)
    requires
        a == b,
    ensures
        fingerprint_input(a) == fingerprint_input(b),
        spec_fingerprint(a) == spec_fingerprint(b),
{
}

/// Law: among listings of tracks whose identifiers all take the same non-zero
/// number of bytes, different listings are hashed from different byte streams.
pub proof fn law_uniform_input_injective(
    a: Seq<PlaylistItemView>,
    b: Seq<PlaylistItemView>,
    width: nat,
)
    requires
        width > 0,
        uniform_tracks(a, width),
        uniform_tracks(b, width),
        fingerprint_input(a) == fingerprint_input(b),
    ensures
        a == b,
    decreases a.len(),
{
    lemma_uniform_input_len(a, width);
    lemma_uniform_input_len(b, width);
    assert(a.len() == b.len()) by (nonlinear_arith)
        requires
            a.len() * width == b.len() * width,
            width > 0,
    ;
    if a.len() > 0 {
        let a_front = a.drop_last();
        let b_front = b.drop_last();
        lemma_uniform_front(a, width);
        lemma_uniform_front(b, width);
        lemma_uniform_input_len(a_front, width);
        lemma_uniform_input_len(b_front, width);
        // Both streams part at the same place into what the front gives
        // and what the last entry gives.
        let whole = fingerprint_input(a);
        let cut = fingerprint_input(a_front).len() as int;
        assert(fingerprint_input(a_front) =~= whole.subrange(0, cut));
        assert(fingerprint_input(b_front) =~= whole.subrange(0, cut));
        assert(hashed_bytes(a.last()) =~= whole.subrange(cut, whole.len() as int));
        assert(hashed_bytes(b.last()) =~= whole.subrange(cut, whole.len() as int));
        // Identifiers with the same bytes are the same identifier.
        let a_id = a[a.len() - 1]->Track_0->0;
        let b_id = b[b.len() - 1]->Track_0->0;
        assert(a_id == b_id) by {
            encode_utf8_decode_utf8(a_id);
            encode_utf8_decode_utf8(b_id);
        }
        law_uniform_input_injective(a_front, b_front, width);
        assert(a =~= a_front.push(a.last()));
        assert(b =~= b_front.push(b.last()));
    }
}

/// Law: the fingerprint is sensitive to order. Reversing a listing of more
/// than one entry that does not read the same in both directions changes its
/// fingerprint, provided that the reversal changes the hashed byte stream and
/// that SHA-256 does not collide on the two streams.
pub proof fn law_fingerprint_order_sensitive(items: Seq<PlaylistItemView>)
    requires
        items.len() > 1,
        items != items.reverse(),
        fingerprint_input(items) != fingerprint_input(items.reverse()),
        collision_free(fingerprint_input(items), fingerprint_input(items.reverse())),
    ensures
        spec_fingerprint(items) != spec_fingerprint(items.reverse()),
{
}

/// Law: for tracks whose identifiers all take the same non-zero number of
/// bytes, reversing a listing that does not read the same in both directions
/// changes the hashed byte stream, and with it the fingerprint unless SHA-256
/// collides on the two streams.
pub proof fn law_uniform_order_sensitive(items: Seq<PlaylistItemView>, width: nat)
    requires
        width > 0,
        uniform_tracks(items, width),
        items.len() > 1,
        items != items.reverse(),
    ensures
        fingerprint_input(items) != fingerprint_input(items.reverse()),
        collision_free(fingerprint_input(items), fingerprint_input(items.reverse()))
            ==> spec_fingerprint(items) != spec_fingerprint(items.reverse()),
{
    let reversed = items.reverse();
    assert forall|i: int| 0 <= i < reversed.len() implies (#[trigger] reversed[i] matches PlaylistItemView::Track(
        Some(id),
    ) && encode_utf8(id).len() == width) by {
        assert(reversed[i] == items[items.len() - 1 - i]);
    }
    if fingerprint_input(items) == fingerprint_input(reversed) {
        law_uniform_input_injective(items, reversed, width);
    }
}

} // verus!
