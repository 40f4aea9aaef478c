//! Laws relating the operations of the state machine to each other.
//!
//! Each law is stated over [`StateView`] and the transition functions that
//! the operations' own contracts pin their successor states to, so every law
//! carries over to any sequence of calls on an [`crate::state::InventoryContract`].

use vstd::prelude::*;

use crate::entities::Identity;
use crate::entities::InventoryItem;
use crate::state::StateView;

verus! {

/// Item IDs are dense: in a well-formed state the listed items carry the IDs
/// `1..=item_count`, in order and with no repeats, so `get_item_count`
/// equals the number of items ever listed and every ID `add_item` ever
/// returned is one of exactly that many distinct values.
pub proof fn lemma_item_ids_dense(s: StateView)
    requires
        s.wf(),
    ensures
        s.items.len() == s.item_count,
        forall|i: int| 0 <= i < s.items.len() ==> (#[trigger] s.items[i]).item_id == i + 1,
        forall|i1: int, i2: int|
            0 <= i1 < i2 < s.items.len() ==> s.items[i1].item_id != s.items[i2].item_id,
        forall|n: u64| 1 <= n <= s.item_count ==> s.get_item_spec(n) is Some,
{
}

/// Rental IDs are dense: in a well-formed state the issued rentals carry the
/// IDs `1..=rental_count`, in order and with no repeats, so
/// `get_rental_count` equals the number of rentals ever issued and every ID
/// `issue_item` ever returned is one of exactly that many distinct values.
pub proof fn lemma_rental_ids_dense(s: StateView)
    requires
        s.wf(),
    ensures
        s.rentals.len() == s.rental_count,
        forall|j: int| 0 <= j < s.rentals.len() ==> (#[trigger] s.rentals[j]).rental_id == j + 1,
        forall|j1: int, j2: int|
            0 <= j1 < j2 < s.rentals.len() ==> s.rentals[j1].rental_id != s.rentals[j2].rental_id,
        forall|n: u64| 1 <= n <= s.rental_count ==> s.get_rental_spec(n) is Some,
{
}

/// In an availability-consistent state, an item is unavailable exactly when
/// an active rental of it exists.  Consistency holds along every run of
/// `initialize`, `add_item`, `issue_item` and `return_item` (see the lemmas
/// below); a manual `update_item_availability` is the one operation that may
/// break it.
pub proof fn lemma_unavailable_iff_actively_rented(s: StateView, item_id: u64)
    requires
        s.wf(),
        s.availability_consistent(),
        s.has_item(item_id),
    ensures
        !s.item_available(item_id) <==> exists|j: int| #[trigger] s.active_rental_of(item_id, j),
{
    let i = item_id - 1;
    assert(s.items[i].is_available <==> !(exists|j: int| #[trigger] s.active_rental_of(
        (i + 1) as u64,
        j,
    )));
    assert((i + 1) as u64 == item_id);
    if exists|j: int| #[trigger] s.active_rental_of(item_id, j) {
        let j = choose|j: int| #[trigger] s.active_rental_of(item_id, j);
        assert(s.active_rental_of((i + 1) as u64, j));
    }
    if exists|j: int| #[trigger] s.active_rental_of((i + 1) as u64, j) {
        let j = choose|j: int| #[trigger] s.active_rental_of((i + 1) as u64, j);
        assert(s.active_rental_of(item_id, j));
    }
}

/// The initial state is availability-consistent: there is no item and no
/// rental, so there is nothing to disagree.
pub proof fn lemma_initial_consistent()
    ensures
        StateView::initial().availability_consistent(),
{
}

/// `add_item` preserves availability consistency: the new item is available
/// and no rental can reference its fresh ID.
pub proof fn lemma_add_item_preserves_consistency(
    s: StateView,
    owner: Identity,
    name: String,
    description: String,
    rental_price_per_day: i128,
)
    requires
        s.wf(),
        s.availability_consistent(),
        s.item_count < u64::MAX,
    ensures
        s.add_item_tr(owner, name, description, rental_price_per_day).availability_consistent(),
{
    let s2 = s.add_item_tr(owner, name, description, rental_price_per_day);
    assert forall|i: int|
        0 <= i < s2.items.len() implies ((#[trigger] s2.items[i]).is_available <==> !(exists|
        j: int,
    | #[trigger] s2.active_rental_of((i + 1) as u64, j))) by {
        if i < s.items.len() {
            assert forall|j: int| #[trigger]
                s2.active_rental_of((i + 1) as u64, j) implies s.active_rental_of(
                (i + 1) as u64,
                j,
            ) by {}
            assert forall|j: int| #[trigger]
                s.active_rental_of((i + 1) as u64, j) implies s2.active_rental_of(
                (i + 1) as u64,
                j,
            ) by {}
            assert(s.items[i].is_available <==> s2.items[i].is_available);
        } else {
            assert(s2.items[i].is_available);
            assert forall|j: int| !(#[trigger] s2.active_rental_of((i + 1) as u64, j)) by {
                if 0 <= j < s.rentals.len() {
                    assert(s.rentals[j].item_id <= s.item_count);
                }
            }
        }
    }
}

/// `issue_item` preserves availability consistency: the item it rents out
/// becomes unavailable with the new rental as its single active rental, and
/// no other item's rentals change.
pub proof fn lemma_issue_item_preserves_consistency(
    s: StateView,
    renter: Identity,
    item_id: u64,
    rental_days: u64,
    deposit_amount: i128,
    now: u64,
)
    requires
        s.wf(),
        s.availability_consistent(),
        s.has_item(item_id),
        s.item_available(item_id),
        s.rental_count < u64::MAX,
    ensures
        s.issue_item_tr(
            renter,
            item_id,
            rental_days,
            deposit_amount,
            now,
        ).availability_consistent(),
{
    let s2 = s.issue_item_tr(renter, item_id, rental_days, deposit_amount, now);
    let jn = s.rentals.len() as int;
    assert forall|i: int|
        0 <= i < s2.items.len() implies ((#[trigger] s2.items[i]).is_available <==> !(exists|
        j: int,
    | #[trigger] s2.active_rental_of((i + 1) as u64, j))) by {
        if i + 1 == item_id {
            assert(!s2.items[i].is_available);
            assert(s2.active_rental_of((i + 1) as u64, jn));
        } else {
            assert(s2.items[i].is_available <==> s.items[i].is_available);
            assert forall|j: int| #[trigger]
                s2.active_rental_of((i + 1) as u64, j) implies s.active_rental_of(
                (i + 1) as u64,
                j,
            ) by {}
            assert forall|j: int| #[trigger]
                s.active_rental_of((i + 1) as u64, j) implies s2.active_rental_of(
                (i + 1) as u64,
                j,
            ) by {}
        }
    }
    assert forall|j1: int, j2: int|
        #![trigger s2.rentals[j1], s2.rentals[j2]]
        (0 <= j1 < s2.rentals.len() && 0 <= j2 < s2.rentals.len() && s2.rentals[j1].is_active
            && s2.rentals[j2].is_active && s2.rentals[j1].item_id
            == s2.rentals[j2].item_id) implies j1 == j2 by {
        if j1 != j2 {
            if j1 < jn && j2 < jn {
                assert(s.rentals[j1] == s2.rentals[j1]);
                assert(s.rentals[j2] == s2.rentals[j2]);
            } else if j1 < jn || j2 < jn {
                let jo = if j1 < jn {
                    j1
                } else {
                    j2
                };
                let i0 = item_id - 1;
                assert(s2.rentals[jn].item_id == item_id);
                assert(s2.rentals[jo] == s.rentals[jo]);
                assert((i0 + 1) as u64 == item_id);
                assert(s.active_rental_of((i0 + 1) as u64, jo));
                assert(s.items[i0].is_available);
            } else {
                assert(j1 == jn && j2 == jn);
            }
        }
    }
}

/// `return_item` preserves availability consistency: the closed rental was
/// the single active rental of its item, which becomes available again, and
/// no other item's rentals change.
pub proof fn lemma_return_item_preserves_consistency(s: StateView, rental_id: u64, now: u64)
    requires
        s.wf(),
        s.availability_consistent(),
        s.has_rental(rental_id),
        s.rental_at(rental_id).is_active,
    ensures
        s.return_item_tr(rental_id, now).availability_consistent(),
{
    let s2 = s.return_item_tr(rental_id, now);
    let j0 = rental_id - 1;
    let item_id = s.rental_at(rental_id).item_id;
    assert forall|i: int|
        0 <= i < s2.items.len() implies ((#[trigger] s2.items[i]).is_available <==> !(exists|
        j: int,
    | #[trigger] s2.active_rental_of((i + 1) as u64, j))) by {
        if i + 1 == item_id {
            assert(s2.items[i].is_available);
            assert forall|j: int| !(#[trigger] s2.active_rental_of((i + 1) as u64, j)) by {
                if 0 <= j < s2.rentals.len() && j != j0 {
                    assert(s2.rentals[j] == s.rentals[j]);
                    if s2.active_rental_of((i + 1) as u64, j) {
                        assert(s.active_rental_of(item_id, j));
                        assert(s.active_rental_of(item_id, j0));
                    }
                }
            }
        } else {
            assert(s2.items[i].is_available <==> s.items[i].is_available);
            assert forall|j: int| #[trigger]
                s2.active_rental_of((i + 1) as u64, j) implies s.active_rental_of(
                (i + 1) as u64,
                j,
            ) by {
                assert(j != j0);
            }
            assert forall|j: int| #[trigger]
                s.active_rental_of((i + 1) as u64, j) implies s2.active_rental_of(
                (i + 1) as u64,
                j,
            ) by {
                assert(j != j0);
            }
        }
    }
    assert forall|j1: int, j2: int|
        #![trigger s2.rentals[j1], s2.rentals[j2]]
        (0 <= j1 < s2.rentals.len() && 0 <= j2 < s2.rentals.len() && s2.rentals[j1].is_active
            && s2.rentals[j2].is_active && s2.rentals[j1].item_id
            == s2.rentals[j2].item_id) implies j1 == j2 by {
        if j1 != j0 && j2 != j0 {
            assert(s.rentals[j1] == s2.rentals[j1]);
            assert(s.rentals[j2] == s2.rentals[j2]);
        }
    }
}

/// Round trip: after a successful `add_item`, `get_item` on the returned ID
/// yields exactly the record that was constructed — the given name,
/// description, owner and price, with the fresh ID and `is_available` true.
pub proof fn lemma_add_item_then_get_item(
    s: StateView,
    owner: Identity,
    name: String,
    description: String,
    rental_price_per_day: i128,
)
    requires
        s.wf(),
        s.item_count < u64::MAX,
    ensures
        ({
            let s2 = s.add_item_tr(owner, name, description, rental_price_per_day);
            s2.get_item_spec((s.item_count + 1) as u64) == Some(
                InventoryItem {
                    item_id: (s.item_count + 1) as u64,
                    name,
                    description,
                    owner,
                    is_available: true,
                    rental_price_per_day,
                },
            )
        }),
{
}

} // verus!
