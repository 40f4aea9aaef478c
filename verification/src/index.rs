//! The reverse-lookup indices, as mathematics.
//!
//! The store keeps one list of rental IDs per item and one per renter, both
//! append-only and in issuance order.  Either list is fully determined by the
//! sequence of rental records, so this module defines the two derived
//! sequences and proves how they evolve when a rental is issued or returned.
//! The state manager keeps the stored lists equal to these sequences.

use vstd::prelude::*;

use crate::entities::Identity;
use crate::entities::RentalRecord;

verus! {

/// The rental IDs ever issued against `item_id`, in issuance order.
pub open spec fn rentals_for_item(rentals: Seq<RentalRecord>, item_id: u64) -> Seq<u64>
    decreases rentals.len(),
{
    if rentals.len() == 0 {
        Seq::empty()
    } else {
        let prefix = rentals_for_item(rentals.drop_last(), item_id);
        if rentals.last().item_id == item_id {
            prefix.push(rentals.last().rental_id)
        } else {
            prefix
        }
    }
}

/// The rental IDs ever issued to `renter`, in issuance order.
pub open spec fn rentals_for_user(rentals: Seq<RentalRecord>, renter: Identity) -> Seq<u64>
    decreases rentals.len(),
{
    if rentals.len() == 0 {
        Seq::empty()
    } else {
        let prefix = rentals_for_user(rentals.drop_last(), renter);
        if rentals.last().renter == renter {
            prefix.push(rentals.last().rental_id)
        } else {
            prefix
        }
    }
}

/// Issuing a rental appends its ID to the index of its item and leaves the
/// index of every other item unchanged.
pub proof fn lemma_rentals_for_item_push(rentals: Seq<RentalRecord>, r: RentalRecord, item_id: u64)
    ensures
        rentals_for_item(rentals.push(r), item_id) == if r.item_id == item_id {
            rentals_for_item(rentals, item_id).push(r.rental_id)
        } else {
            rentals_for_item(rentals, item_id)
        },
{
    assert(rentals.push(r).drop_last() =~= rentals);
    assert(rentals.push(r).last() == r);
}

/// Issuing a rental appends its ID to the index of its renter and leaves the
/// index of every other renter unchanged.
pub proof fn lemma_rentals_for_user_push(rentals: Seq<RentalRecord>, r: RentalRecord, renter: Identity)
    ensures
        rentals_for_user(rentals.push(r), renter) == if r.renter == renter {
            rentals_for_user(rentals, renter).push(r.rental_id)
        } else {
            rentals_for_user(rentals, renter)
        },
{
    assert(rentals.push(r).drop_last() =~= rentals);
    assert(rentals.push(r).last() == r);
}

/// Replacing a rental record while keeping its ID, item and renter — as a
/// return does — leaves every item index unchanged.
pub proof fn lemma_rentals_for_item_update(
    rentals: Seq<RentalRecord>,
    j: int,
    r2: RentalRecord,
    item_id: u64,
)
    requires
        0 <= j < rentals.len(),
        r2.rental_id == rentals[j].rental_id,
        r2.item_id == rentals[j].item_id,
    ensures
        rentals_for_item(rentals.update(j, r2), item_id) == rentals_for_item(rentals, item_id),
    decreases rentals.len(),
{
    let s2 = rentals.update(j, r2);
    if j == rentals.len() - 1 {
        assert(s2.drop_last() =~= rentals.drop_last());
        assert(s2.last() == r2);
    } else {
        assert(s2.drop_last() =~= rentals.drop_last().update(j, r2));
        assert(s2.last() == rentals.last());
        lemma_rentals_for_item_update(rentals.drop_last(), j, r2, item_id);
    }
}

/// Replacing a rental record while keeping its ID, item and renter — as a
/// return does — leaves every renter index unchanged.
pub proof fn lemma_rentals_for_user_update(
    rentals: Seq<RentalRecord>,
    j: int,
    r2: RentalRecord,
    renter: Identity,
)
    requires
        0 <= j < rentals.len(),
        r2.rental_id == rentals[j].rental_id,
        r2.renter == rentals[j].renter,
    ensures
        rentals_for_user(rentals.update(j, r2), renter) == rentals_for_user(rentals, renter),
    decreases rentals.len(),
{
    let s2 = rentals.update(j, r2);
    if j == rentals.len() - 1 {
        assert(s2.drop_last() =~= rentals.drop_last());
        assert(s2.last() == r2);
    } else {
        assert(s2.drop_last() =~= rentals.drop_last().update(j, r2));
        assert(s2.last() == rentals.last());
        lemma_rentals_for_user_update(rentals.drop_last(), j, r2, renter);
    }
}

/// An item that no rental references has an empty index.
pub proof fn lemma_rentals_for_item_absent(rentals: Seq<RentalRecord>, item_id: u64)
    requires
        forall|j: int| 0 <= j < rentals.len() ==> (#[trigger] rentals[j]).item_id != item_id,
    ensures
        rentals_for_item(rentals, item_id) == Seq::<u64>::empty(),
    decreases rentals.len(),
{
    if rentals.len() > 0 {
        assert forall|j: int| 0 <= j < rentals.drop_last().len() implies (#[trigger] rentals
            .drop_last()[j]).item_id != item_id by {
            assert(rentals.drop_last()[j] == rentals[j]);
        }
        lemma_rentals_for_item_absent(rentals.drop_last(), item_id);
    }
}

/// A renter that no rental references has an empty index.
pub proof fn lemma_rentals_for_user_absent(rentals: Seq<RentalRecord>, renter: Identity)
    requires
        forall|j: int| 0 <= j < rentals.len() ==> (#[trigger] rentals[j]).renter != renter,
    ensures
        rentals_for_user(rentals, renter) == Seq::<u64>::empty(),
    decreases rentals.len(),
{
    if rentals.len() > 0 {
        assert forall|j: int| 0 <= j < rentals.drop_last().len() implies (#[trigger] rentals
            .drop_last()[j]).renter != renter by {
            assert(rentals.drop_last()[j] == rentals[j]);
        }
        lemma_rentals_for_user_absent(rentals.drop_last(), renter);
    }
}

} // verus!
