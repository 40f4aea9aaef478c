//! The entity layer: identities, the two record kinds, the key space of the
//! host's keyed store, and the error kinds that operations can signal.

use vstd::prelude::*;

verus! {

/// An opaque party known to the host's identity collaborator.
///
/// The host proves that a call is made on behalf of an identity; this core
/// only compares identities for equality, so an identity is carried as the
/// plain handle under which the host knows the party.
#[derive(Clone, Copy, Debug, PartialEq, Eq, Structural, Hash)]
pub struct Identity {
    pub handle: u64,
}

/// A rentable asset.
///
/// `item_id` is assigned by the allocator at creation and never reused;
/// `is_available` is `true` exactly while the item may be rented, except
/// where the owner has overridden it manually.
#[derive(Debug, PartialEq, Eq)]
pub struct InventoryItem {
    pub item_id: u64,
    pub name: String,
    pub description: String,
    pub owner: Identity,
    pub is_available: bool,
    pub rental_price_per_day: i128,
}

impl InventoryItem {
    /// The same item with its availability flag overwritten.
    pub open spec fn with_availability(self, is_available: bool) -> InventoryItem {
        InventoryItem {
            item_id: self.item_id,
            name: self.name,
            description: self.description,
            owner: self.owner,
            is_available,
            rental_price_per_day: self.rental_price_per_day,
        }
    }
}

impl Clone for InventoryItem {
    fn clone(&self) -> (res: Self)
        ensures
            res == *self,
    {
        InventoryItem {
            item_id: self.item_id,
            name: self.name.clone(),
            description: self.description.clone(),
            owner: self.owner,
            is_available: self.is_available,
            rental_price_per_day: self.rental_price_per_day,
        }
    }
}

/// One rental transaction for one item.
///
/// A rental is created active with no actual return date; returning it sets
/// the date and clears `is_active`, exactly once.
#[derive(Clone, Copy, Debug, PartialEq, Eq)]
pub struct RentalRecord {
    pub rental_id: u64,
    pub item_id: u64,
    pub renter: Identity,
    pub issue_date: u64,
    pub expected_return_date: u64,
    pub actual_return_date: Option<u64>,
    pub deposit_amount: i128,
    pub is_active: bool,
}

impl RentalRecord {
    /// The same rental closed at `now`: inactive, with the actual return
    /// date set.  A rental makes this transition at most once.
    pub open spec fn returned(self, now: u64) -> RentalRecord {
        RentalRecord {
            rental_id: self.rental_id,
            item_id: self.item_id,
            renter: self.renter,
            issue_date: self.issue_date,
            expected_return_date: self.expected_return_date,
            actual_return_date: Some(now),
            deposit_amount: self.deposit_amount,
            is_active: false,
        }
    }
}

/// The key space of the host's keyed store.
///
/// Each variant is a distinct, collision-free namespace: the two counters,
/// the primary records, and the two reverse-lookup indices.  The state
/// manager holds the records of each family in a typed field of its own, so
/// the host may persist them under these keys without any risk of collision.
#[derive(Clone, Copy, Debug, PartialEq, Eq, Structural)]
pub enum DataKey {
    ItemCounter,
    RentalCounter,
    Item(u64),
    Rental(u64),
    ItemRentals(u64),
    UserRentals(Identity),
}

/// The failure kinds an operation can signal.
///
/// Every failure aborts the operation with no state change and surfaces
/// directly to the caller.
#[derive(Clone, Copy, Debug, PartialEq, Eq, Structural)]
pub enum Error {
    /// The caller failed the host's identity proof.
    Unauthorized,
    /// The referenced item or rental does not exist.
    NotFound,
    /// A rent attempt on an item that is not available.
    ItemUnavailable,
    /// The caller is not the required party: wrong renter on a return, or
    /// wrong owner on an availability update.
    Forbidden,
    /// A return attempt on a rental that was already returned.
    AlreadyReturned,
}

} // verus!
