//! The rental state machine.
//!
//! [`InventoryContract`] owns the whole state: the two counters, the primary
//! item and rental records, and the two reverse-lookup indices.  The host
//! environment persists this state between calls, proves which identity a
//! caller controls, and supplies the current time; each mutating operation
//! therefore takes the authenticated caller together with the host's
//! authorization verdict, and each timed operation takes the clock reading.
//!
//! Contracts are stated over [`StateView`], the mathematical abstraction of
//! the state: the counters and the two record sequences.  The stored indices
//! are a cache that well-formedness ties to the record sequences, so the view
//! determines everything an observer can see.

use vstd::prelude::*;

use crate::entities::Error;
use crate::entities::Identity;
use crate::entities::InventoryItem;
use crate::entities::RentalRecord;
use crate::index::lemma_rentals_for_item_absent;
use crate::index::lemma_rentals_for_item_push;
use crate::index::lemma_rentals_for_item_update;
use crate::index::lemma_rentals_for_user_absent;
use crate::index::lemma_rentals_for_user_push;
use crate::index::lemma_rentals_for_user_update;
use crate::index::rentals_for_item;
use crate::index::rentals_for_user;

verus! {

/// The abstract state: what the operations read and decide on.
#[verifier::ext_equal]
pub ghost struct StateView {
    pub item_count: u64,
    pub rental_count: u64,
    pub items: Seq<InventoryItem>,
    pub rentals: Seq<RentalRecord>,
}

impl StateView {
    /// The state set up by `initialize`: both counters zero, no records.
    pub open spec fn initial() -> StateView {
        StateView { item_count: 0, rental_count: 0, items: Seq::empty(), rentals: Seq::empty() }
    }

    /// Well-formedness of the abstract state: IDs are dense (the record with
    /// ID `n` sits at position `n - 1`, so IDs are exactly `1..=count` with
    /// no repeats), every rental references an existing item, and a rental is
    /// active exactly while its actual return date is absent.
    pub open spec fn wf(self) -> bool {
        &&& self.items.len() == self.item_count
        &&& self.rentals.len() == self.rental_count
        &&& forall|i: int|
            0 <= i < self.items.len() ==> (#[trigger] self.items[i]).item_id == i + 1
        &&& forall|j: int|
            0 <= j < self.rentals.len() ==> (#[trigger] self.rentals[j]).rental_id == j + 1
        &&& forall|j: int|
            0 <= j < self.rentals.len() ==> 1 <= (#[trigger] self.rentals[j]).item_id
                <= self.item_count
        &&& forall|j: int|
            0 <= j < self.rentals.len() ==> ((#[trigger] self.rentals[j]).is_active
                <==> self.rentals[j].actual_return_date is None)
    }

    /// Whether an item with this ID exists.
    pub open spec fn has_item(self, item_id: u64) -> bool {
        1 <= item_id <= self.item_count
    }

    /// The item with this ID.
    pub open spec fn item_at(self, item_id: u64) -> InventoryItem
        recommends
            self.has_item(item_id),
    {
        self.items[item_id - 1]
    }

    /// Whether the item with this ID may be rented now.
    pub open spec fn item_available(self, item_id: u64) -> bool
        recommends
            self.has_item(item_id),
    {
        self.item_at(item_id).is_available
    }

    /// Whether a rental with this ID exists.
    pub open spec fn has_rental(self, rental_id: u64) -> bool {
        1 <= rental_id <= self.rental_count
    }

    /// The rental with this ID.
    pub open spec fn rental_at(self, rental_id: u64) -> RentalRecord
        recommends
            self.has_rental(rental_id),
    {
        self.rentals[rental_id - 1]
    }

    /// What `get_item` returns.
    pub open spec fn get_item_spec(self, item_id: u64) -> Option<InventoryItem> {
        if self.has_item(item_id) {
            Some(self.item_at(item_id))
        } else {
            None
        }
    }

    /// What `get_rental` returns.
    pub open spec fn get_rental_spec(self, rental_id: u64) -> Option<RentalRecord> {
        if self.has_rental(rental_id) {
            Some(self.rental_at(rental_id))
        } else {
            None
        }
    }

    /// The item that a successful `add_item` creates: the next item ID,
    /// available, owned by the lister.
    pub open spec fn new_item(
        self,
        owner: Identity,
        name: String,
        description: String,
        rental_price_per_day: i128,
    ) -> InventoryItem {
        InventoryItem {
            item_id: (self.item_count + 1) as u64,
            name,
            description,
            owner,
            is_available: true,
            rental_price_per_day,
        }
    }

    /// The successor state of a successful `add_item`.
    pub open spec fn add_item_tr(
        self,
        owner: Identity,
        name: String,
        description: String,
        rental_price_per_day: i128,
    ) -> StateView {
        StateView {
            item_count: (self.item_count + 1) as u64,
            rental_count: self.rental_count,
            items: self.items.push(self.new_item(owner, name, description, rental_price_per_day)),
            rentals: self.rentals,
        }
    }

    /// The rental that a successful `issue_item` creates: the next rental
    /// ID, active, issued at `now` and expected back `rental_days` days of
    /// 86400 seconds later.
    pub open spec fn new_rental(
        self,
        renter: Identity,
        item_id: u64,
        rental_days: u64,
        deposit_amount: i128,
        now: u64,
    ) -> RentalRecord {
        RentalRecord {
            rental_id: (self.rental_count + 1) as u64,
            item_id,
            renter,
            issue_date: now,
            expected_return_date: (now + rental_days * 86400) as u64,
            actual_return_date: None,
            deposit_amount,
            is_active: true,
        }
    }

    /// The successor state of a successful `issue_item`: the new rental is
    /// appended and the item becomes unavailable.
    pub open spec fn issue_item_tr(
        self,
        renter: Identity,
        item_id: u64,
        rental_days: u64,
        deposit_amount: i128,
        now: u64,
    ) -> StateView {
        StateView {
            item_count: self.item_count,
            rental_count: (self.rental_count + 1) as u64,
            items: self.items.update(
                item_id - 1,
                self.item_at(item_id).with_availability(false),
            ),
            rentals: self.rentals.push(
                self.new_rental(renter, item_id, rental_days, deposit_amount, now),
            ),
        }
    }

    /// The successor state of a successful `return_item`: the rental is
    /// closed at `now` and its item becomes available again.
    pub open spec fn return_item_tr(self, rental_id: u64, now: u64) -> StateView {
        let rental = self.rental_at(rental_id);
        StateView {
            item_count: self.item_count,
            rental_count: self.rental_count,
            items: self.items.update(
                rental.item_id - 1,
                self.item_at(rental.item_id).with_availability(true),
            ),
            rentals: self.rentals.update(rental_id - 1, rental.returned(now)),
        }
    }

    /// The successor state of a successful `update_item_availability`: the
    /// flag is overwritten unconditionally.
    pub open spec fn set_availability_tr(self, item_id: u64, is_available: bool) -> StateView {
        StateView {
            item_count: self.item_count,
            rental_count: self.rental_count,
            items: self.items.update(
                item_id - 1,
                self.item_at(item_id).with_availability(is_available),
            ),
            rentals: self.rentals,
        }
    }

    /// Whether position `j` holds an active rental of the item with this ID.
    pub open spec fn active_rental_of(self, item_id: u64, j: int) -> bool {
        &&& 0 <= j < self.rentals.len()
        &&& self.rentals[j].is_active
        &&& self.rentals[j].item_id == item_id
    }

    /// An item is unavailable exactly while an active rental of it exists,
    /// and at most one rental of an item is active at a time.
    ///
    /// This holds of every state reached through `initialize`, `add_item`,
    /// `issue_item` and `return_item` alone; a manual
    /// `update_item_availability` may break it, since it overwrites the flag
    /// without touching any rental.
    pub open spec fn availability_consistent(self) -> bool {
        &&& forall|i: int|
            0 <= i < self.items.len() ==> ((#[trigger] self.items[i]).is_available <==> !(exists|
                j: int,
            | #[trigger] self.active_rental_of((i + 1) as u64, j)))
        &&& forall|j1: int, j2: int|
            #![trigger self.rentals[j1], self.rentals[j2]]
            (0 <= j1 < self.rentals.len() && 0 <= j2 < self.rentals.len()
                && self.rentals[j1].is_active && self.rentals[j2].is_active
                && self.rentals[j1].item_id == self.rentals[j2].item_id) ==> j1 == j2
    }
}

/// One entry of the renter index: the rental IDs ever issued to one renter.
pub struct UserRentalsEntry {
    pub user: Identity,
    pub rental_ids: Vec<u64>,
}

/// The state manager: the counters, the primary records, and the stored
/// reverse-lookup indices.
pub struct InventoryContract {
    pub item_counter: u64,
    pub rental_counter: u64,
    pub items: Vec<InventoryItem>,
    pub rentals: Vec<RentalRecord>,
    pub item_rentals: Vec<Vec<u64>>,
    pub user_rentals: Vec<UserRentalsEntry>,
}

impl View for InventoryContract {
    type V = StateView;

    open spec fn view(&self) -> StateView {
        StateView {
            item_count: self.item_counter,
            rental_count: self.rental_counter,
            items: self.items@,
            rentals: self.rentals@,
        }
    }
}

/// Copies a list of rental IDs element by element.
fn copy_ids(v: &Vec<u64>) -> (r: Vec<u64>)
    ensures
        r@ == v@,
{
    let mut r: Vec<u64> = Vec::new();
    let mut i: usize = 0;
    while i < v.len()
        invariant
            i <= v.len(),
            r@ == v@.subrange(0, i as int),
        decreases v.len() - i,
    {
        r.push(v[i]);
        proof {
            assert(v@.subrange(0, i as int).push(v@[i as int]) =~= v@.subrange(0, i + 1));
        }
        i = i + 1;
    }
    proof {
        assert(v@.subrange(0, v.len() as int) =~= v@);
    }
    r
}

/// Carries a renter-index entry from one state to another whose stored
/// renter index is the same sequence.
proof fn lemma_user_entry_transfer(pre: InventoryContract, post: InventoryContract, u: Identity)
    requires
        pre.user_has_entry(u),
        post.user_rentals@ == pre.user_rentals@,
    ensures
        post.user_has_entry(u),
{
    let k = choose|k: int|
        0 <= k < pre.user_rentals@.len() && (#[trigger] pre.user_rentals@[k]).user == u;
    assert(post.user_rentals@[k].user == u);
}

impl InventoryContract {
    /// Whether a renter has an entry in the stored renter index.
    pub open spec fn user_has_entry(self, user: Identity) -> bool {
        exists|k: int|
            0 <= k < self.user_rentals@.len() && (#[trigger] self.user_rentals@[k]).user == user
    }

    /// Well-formedness: the abstract state is well-formed and the stored
    /// indices cache exactly the sequences derived from the rental records —
    /// one list per item, and one list per renter with at most one entry
    /// each.
    pub open spec fn wf(self) -> bool {
        &&& self@.wf()
        &&& self.item_rentals@.len() == self.items@.len()
        &&& forall|i: int|
            0 <= i < self.item_rentals@.len() ==> (#[trigger] self.item_rentals@[i])@
                == rentals_for_item(self.rentals@, (i + 1) as u64)
        &&& forall|k1: int, k2: int|
            0 <= k1 < k2 < self.user_rentals@.len() ==> (#[trigger] self.user_rentals@[k1]).user
                != (#[trigger] self.user_rentals@[k2]).user
        &&& forall|k: int|
            0 <= k < self.user_rentals@.len() ==> (#[trigger] self.user_rentals@[k]).rental_ids@
                == rentals_for_user(self.rentals@, self.user_rentals@[k].user)
        &&& forall|j: int|
            0 <= j < self.rentals@.len() ==> self.user_has_entry(
                (#[trigger] self.rentals@[j]).renter,
            )
    }

    /// Sets up fresh state: both counters zero, no records, empty indices.
    /// Everything else requires a state built from this one.
    pub fn initialize() -> (s: InventoryContract)
        ensures
            s.wf(),
            s@ == StateView::initial(),
            s@.availability_consistent(),
    {
        InventoryContract {
            item_counter: 0,
            rental_counter: 0,
            items: Vec::new(),
            rentals: Vec::new(),
            item_rentals: Vec::new(),
            user_rentals: Vec::new(),
        }
    }

    /// The total number of items ever listed.
    pub fn get_item_count(&self) -> (r: u64)
        ensures
            r == self@.item_count,
    {
        self.item_counter
    }

    /// The total number of rentals ever issued.
    pub fn get_rental_count(&self) -> (r: u64)
        ensures
            r == self@.rental_count,
    {
        self.rental_counter
    }

    /// The position of an existing item in the item vector.
    fn item_index(&self, item_id: u64) -> (idx: usize)
        requires
            self.wf(),
            self@.has_item(item_id),
        ensures
            idx == item_id - 1,
            idx < self.items@.len(),
    {
        let n = self.items.len();
        assert(item_id - 1 < n);
        (item_id - 1) as usize
    }

    /// The position of an existing rental in the rental vector.
    fn rental_index(&self, rental_id: u64) -> (idx: usize)
        requires
            self.wf(),
            self@.has_rental(rental_id),
        ensures
            idx == rental_id - 1,
            idx < self.rentals@.len(),
    {
        let n = self.rentals.len();
        assert(rental_id - 1 < n);
        (rental_id - 1) as usize
    }

    /// Looks the renter up in the stored renter index.
    fn find_user(&self, user: Identity) -> (r: Option<usize>)
        ensures
            match r {
                Some(k) => k < self.user_rentals@.len() && self.user_rentals@[k as int].user
                    == user,
                None => forall|k: int|
                    0 <= k < self.user_rentals@.len() ==> (#[trigger] self.user_rentals@[k]).user
                        != user,
            },
    {
        let mut k: usize = 0;
        while k < self.user_rentals.len()
            invariant
                k <= self.user_rentals@.len(),
                forall|m: int|
                    0 <= m < k ==> (#[trigger] self.user_rentals@[m]).user != user,
            decreases self.user_rentals@.len() - k,
        {
            if self.user_rentals[k].user == user {
                return Some(k);
            }
            k = k + 1;
        }
        None
    }

    /// Looks an item up by ID; `None` exactly when no such item was ever
    /// listed.  No authentication: anyone may read.
    pub fn get_item(&self, item_id: u64) -> (r: Option<InventoryItem>)
        requires
            self.wf(),
        ensures
            r == self@.get_item_spec(item_id),
    {
        if 1 <= item_id && item_id <= self.item_counter {
            let idx = self.item_index(item_id);
            Some(self.items[idx].clone())
        } else {
            None
        }
    }

    /// Looks a rental up by ID; `None` exactly when no such rental was ever
    /// issued.  No authentication: anyone may read.
    pub fn get_rental(&self, rental_id: u64) -> (r: Option<RentalRecord>)
        requires
            self.wf(),
        ensures
            r == self@.get_rental_spec(rental_id),
    {
        if 1 <= rental_id && rental_id <= self.rental_counter {
            let idx = self.rental_index(rental_id);
            Some(self.rentals[idx])
        } else {
            None
        }
    }

    /// The rental IDs ever issued against this item, in issuance order;
    /// empty if there are none, or if no such item exists.
    pub fn get_item_rentals(&self, item_id: u64) -> (r: Vec<u64>)
        requires
            self.wf(),
        ensures
            r@ == rentals_for_item(self@.rentals, item_id),
    {
        if 1 <= item_id && item_id <= self.item_counter {
            let idx = self.item_index(item_id);
            copy_ids(&self.item_rentals[idx])
        } else {
            proof {
                assert forall|j: int| 0 <= j < self.rentals@.len() implies (#[trigger] self
                    .rentals@[j]).item_id != item_id by {}
                lemma_rentals_for_item_absent(self.rentals@, item_id);
            }
            Vec::new()
        }
    }

    /// The rental IDs ever issued to this renter, in issuance order; empty
    /// if there are none.
    pub fn get_user_rentals(&self, user: Identity) -> (r: Vec<u64>)
        requires
            self.wf(),
        ensures
            r@ == rentals_for_user(self@.rentals, user),
    {
        match self.find_user(user) {
            Some(k) => copy_ids(&self.user_rentals[k].rental_ids),
            None => {
                proof {
                    assert forall|j: int| 0 <= j < self.rentals@.len() implies (#[trigger] self
                        .rentals@[j]).renter != user by {
                        assert(self.user_has_entry(self.rentals@[j].renter));
                    }
                    lemma_rentals_for_user_absent(self.rentals@, user);
                }
                Vec::new()
            },
        }
    }

    /// Lists a new item for rent.  `owner_authorized` is the host's verdict
    /// on whether the call is made on behalf of `owner`; without it nothing
    /// changes.  On success the item gets the next item ID — which is
    /// returned — and starts out available.
    pub fn add_item(
        &mut self,
        owner: Identity,
        owner_authorized: bool,
        name: String,
        description: String,
        rental_price_per_day: i128,
    ) -> (r: Result<u64, Error>)
        requires
            old(self).wf(),
            owner_authorized ==> old(self).item_counter < u64::MAX,
        ensures
            final(self).wf(),
            !owner_authorized ==> r == Err::<u64, Error>(Error::Unauthorized) && *final(self)
                == *old(self),
            owner_authorized ==> r == Ok::<u64, Error>((old(self)@.item_count + 1) as u64)
                && final(self)@ == old(self)@.add_item_tr(
                owner,
                name,
                description,
                rental_price_per_day,
            ),
    {
        if !owner_authorized {
            return Err(Error::Unauthorized);
        }
        let item_id = self.item_counter + 1;
        let item = InventoryItem {
            item_id,
            name,
            description,
            owner,
            is_available: true,
            rental_price_per_day,
        };
        self.items.push(item);
        self.item_rentals.push(Vec::new());
        self.item_counter = item_id;
        proof {
            assert forall|i: int| 0 <= i < self.item_rentals@.len() implies (#[trigger] self
                .item_rentals@[i])@ == rentals_for_item(self.rentals@, (i + 1) as u64) by {
                if i + 1 == self.item_rentals@.len() {
                    assert forall|j: int| 0 <= j < self.rentals@.len() implies (#[trigger] self
                        .rentals@[j]).item_id != (i + 1) as u64 by {}
                    lemma_rentals_for_item_absent(self.rentals@, (i + 1) as u64);
                }
            }
            assert forall|j: int| 0 <= j < self.rentals@.len() implies self.user_has_entry(
                (#[trigger] self.rentals@[j]).renter,
            ) by {
                assert(old(self).user_has_entry(old(self).rentals@[j].renter));
                lemma_user_entry_transfer(*old(self), *self, self.rentals@[j].renter);
            }
        }
        Ok(item_id)
    }

    /// Rents an available item out.  `renter_authorized` is the host's
    /// verdict on whether the call is made on behalf of `renter`, and `now`
    /// is the clock reading that becomes the issue date; the expected return
    /// date is `now + rental_days * 86400`.  On success the rental gets the
    /// next rental ID — which is returned — the item becomes unavailable,
    /// and the rental is appended to the item's and the renter's indices.
    /// On any failure nothing changes.
    pub fn issue_item(
        &mut self,
        renter: Identity,
        renter_authorized: bool,
        item_id: u64,
        rental_days: u64,
        deposit_amount: i128,
        now: u64,
    ) -> (r: Result<u64, Error>)
        requires
            old(self).wf(),
            (renter_authorized && old(self)@.has_item(item_id) && old(self)@.item_available(
                item_id,
            )) ==> old(self).rental_counter < u64::MAX && now + rental_days * 86400 <= u64::MAX,
        ensures
            final(self).wf(),
            !renter_authorized ==> r == Err::<u64, Error>(Error::Unauthorized) && *final(self)
                == *old(self),
            renter_authorized && !old(self)@.has_item(item_id) ==> r == Err::<u64, Error>(
                Error::NotFound,
            ) && *final(self) == *old(self),
            renter_authorized && old(self)@.has_item(item_id) && !old(self)@.item_available(
                item_id,
            ) ==> r == Err::<u64, Error>(Error::ItemUnavailable) && *final(self) == *old(self),
            renter_authorized && old(self)@.has_item(item_id) && old(self)@.item_available(item_id)
                ==> r == Ok::<u64, Error>((old(self)@.rental_count + 1) as u64) && final(self)@
                == old(self)@.issue_item_tr(renter, item_id, rental_days, deposit_amount, now),
    {
        if !renter_authorized {
            return Err(Error::Unauthorized);
        }
        if item_id < 1 || self.item_counter < item_id {
            return Err(Error::NotFound);
        }
        let idx = self.item_index(item_id);
        if !self.items[idx].is_available {
            return Err(Error::ItemUnavailable);
        }
        let expected_return_date = now + rental_days * 86400;
        let rental_id = self.rental_counter + 1;
        let rental = RentalRecord {
            rental_id,
            item_id,
            renter,
            issue_date: now,
            expected_return_date,
            actual_return_date: None,
            deposit_amount,
            is_active: true,
        };
        let current = &self.items[idx];
        let unavailable = InventoryItem {
            item_id: current.item_id,
            name: current.name.clone(),
            description: current.description.clone(),
            owner: current.owner,
            is_available: false,
            rental_price_per_day: current.rental_price_per_day,
        };
        self.items.set(idx, unavailable);
        self.rentals.push(rental);
        self.rental_counter = rental_id;
        let mut item_ids = copy_ids(&self.item_rentals[idx]);
        item_ids.push(rental_id);
        self.item_rentals.set(idx, item_ids);
        match self.find_user(renter) {
            Some(k) => {
                let mut user_ids = copy_ids(&self.user_rentals[k].rental_ids);
                user_ids.push(rental_id);
                self.user_rentals.set(k, UserRentalsEntry { user: renter, rental_ids: user_ids });
                proof {
                    assert(self.user_rentals@[k as int].user == renter);
                }
            },
            None => {
                let mut user_ids: Vec<u64> = Vec::new();
                user_ids.push(rental_id);
                proof {
                    assert forall|j: int| 0 <= j < old(self).rentals@.len() implies (#[trigger] old(
                        self,
                    ).rentals@[j]).renter != renter by {
                        assert(old(self).user_has_entry(old(self).rentals@[j].renter));
                    }
                    lemma_rentals_for_user_absent(old(self).rentals@, renter);
                }
                self.user_rentals.push(UserRentalsEntry { user: renter, rental_ids: user_ids });
                proof {
                    assert(self.user_rentals@[self.user_rentals@.len() - 1].user == renter);
                }
            },
        }
        proof {
            assert(self.rentals@ == old(self).rentals@.push(rental));
            assert forall|i: int| 0 <= i < self.item_rentals@.len() implies (#[trigger] self
                .item_rentals@[i])@ == rentals_for_item(self.rentals@, (i + 1) as u64) by {
                lemma_rentals_for_item_push(old(self).rentals@, rental, (i + 1) as u64);
            }
            assert forall|k: int| 0 <= k < self.user_rentals@.len() implies (#[trigger] self
                .user_rentals@[k]).rental_ids@ == rentals_for_user(
                self.rentals@,
                self.user_rentals@[k].user,
            ) by {
                lemma_rentals_for_user_push(old(self).rentals@, rental, self.user_rentals@[k].user);
            }
            assert forall|j: int| 0 <= j < self.rentals@.len() implies self.user_has_entry(
                (#[trigger] self.rentals@[j]).renter,
            ) by {
                if j < old(self).rentals@.len() {
                    assert(self.rentals@[j].renter == old(self).rentals@[j].renter);
                    assert(old(self).user_has_entry(old(self).rentals@[j].renter));
                    let k0 = choose|k0: int|
                        0 <= k0 < old(self).user_rentals@.len() && (#[trigger] old(
                            self,
                        ).user_rentals@[k0]).user == old(self).rentals@[j].renter;
                    assert(self.user_rentals@[k0].user == self.rentals@[j].renter);
                } else {
                    assert(self.rentals@[j].renter == renter);
                    assert(self.user_has_entry(renter));
                }
            }
        }
        Ok(rental_id)
    }

    /// Returns a rented item.  Only the original renter may return it;
    /// `returner_authorized` is the host's verdict on whether the call is
    /// made on behalf of `returner`, and `now` is the clock reading that
    /// becomes the actual return date.  On success the rental is closed —
    /// exactly once, later attempts fail — and the item becomes available
    /// again.
    pub fn return_item(
        &mut self,
        rental_id: u64,
        returner: Identity,
        returner_authorized: bool,
        now: u64,
    ) -> (r: Result<bool, Error>)
        requires
            old(self).wf(),
        ensures
            final(self).wf(),
            !returner_authorized ==> r == Err::<bool, Error>(Error::Unauthorized) && *final(self)
                == *old(self),
            returner_authorized && !old(self)@.has_rental(rental_id) ==> r == Err::<bool, Error>(
                Error::NotFound,
            ) && *final(self) == *old(self),
            returner_authorized && old(self)@.has_rental(rental_id) && old(self)@.rental_at(
                rental_id,
            ).renter != returner ==> r == Err::<bool, Error>(Error::Forbidden) && *final(self)
                == *old(self),
            returner_authorized && old(self)@.has_rental(rental_id) && old(self)@.rental_at(
                rental_id,
            ).renter == returner && !old(self)@.rental_at(rental_id).is_active ==> r == Err::<
                bool,
                Error,
            >(Error::AlreadyReturned) && *final(self) == *old(self),
            returner_authorized && old(self)@.has_rental(rental_id) && old(self)@.rental_at(
                rental_id,
            ).renter == returner && old(self)@.rental_at(rental_id).is_active ==> r == Ok::<
                bool,
                Error,
            >(true) && final(self)@ == old(self)@.return_item_tr(rental_id, now),
    {
        if !returner_authorized {
            return Err(Error::Unauthorized);
        }
        if rental_id < 1 || self.rental_counter < rental_id {
            return Err(Error::NotFound);
        }
        let jdx = self.rental_index(rental_id);
        let rental = self.rentals[jdx];
        if rental.renter != returner {
            return Err(Error::Forbidden);
        }
        if !rental.is_active {
            return Err(Error::AlreadyReturned);
        }
        let idx = self.item_index(rental.item_id);
        let closed = RentalRecord {
            rental_id: rental.rental_id,
            item_id: rental.item_id,
            renter: rental.renter,
            issue_date: rental.issue_date,
            expected_return_date: rental.expected_return_date,
            actual_return_date: Some(now),
            deposit_amount: rental.deposit_amount,
            is_active: false,
        };
        self.rentals.set(jdx, closed);
        let current = &self.items[idx];
        let updated = InventoryItem {
            item_id: current.item_id,
            name: current.name.clone(),
            description: current.description.clone(),
            owner: current.owner,
            is_available: true,
            rental_price_per_day: current.rental_price_per_day,
        };
        self.items.set(idx, updated);
        proof {
            assert forall|i: int| 0 <= i < self.item_rentals@.len() implies (#[trigger] self
                .item_rentals@[i])@ == rentals_for_item(self.rentals@, (i + 1) as u64) by {
                lemma_rentals_for_item_update(
                    old(self).rentals@,
                    jdx as int,
                    closed,
                    (i + 1) as u64,
                );
            }
            assert forall|k: int| 0 <= k < self.user_rentals@.len() implies (#[trigger] self
                .user_rentals@[k]).rental_ids@ == rentals_for_user(
                self.rentals@,
                self.user_rentals@[k].user,
            ) by {
                lemma_rentals_for_user_update(
                    old(self).rentals@,
                    jdx as int,
                    closed,
                    self.user_rentals@[k].user,
                );
            }
            assert forall|j: int| 0 <= j < self.rentals@.len() implies self.user_has_entry(
                (#[trigger] self.rentals@[j]).renter,
            ) by {
                assert(self.rentals@[j].renter == old(self).rentals@[j].renter);
                assert(old(self).user_has_entry(old(self).rentals@[j].renter));
                lemma_user_entry_transfer(*old(self), *self, self.rentals@[j].renter);
            }
        }
        Ok(true)
    }

    /// Overwrites an item's availability flag manually.  Only the item's
    /// owner may do this; `caller_authorized` is the host's verdict on
    /// whether the call is made on behalf of `caller`.  The flag is set
    /// unconditionally: no active rental is checked or closed, so this is
    /// the one operation that may break availability consistency.
    pub fn update_item_availability(
        &mut self,
        item_id: u64,
        is_available: bool,
        caller: Identity,
        caller_authorized: bool,
    ) -> (r: Result<(), Error>)
        requires
            old(self).wf(),
        ensures
            final(self).wf(),
            !caller_authorized ==> r == Err::<(), Error>(Error::Unauthorized) && *final(self)
                == *old(self),
            caller_authorized && !old(self)@.has_item(item_id) ==> r == Err::<(), Error>(
                Error::NotFound,
            ) && *final(self) == *old(self),
            caller_authorized && old(self)@.has_item(item_id) && old(self)@.item_at(item_id).owner
                != caller ==> r == Err::<(), Error>(Error::Forbidden) && *final(self) == *old(self),
            caller_authorized && old(self)@.has_item(item_id) && old(self)@.item_at(item_id).owner
                == caller ==> r == Ok::<(), Error>(()) && final(self)@ == old(
                self,
            )@.set_availability_tr(item_id, is_available),
    {
        if !caller_authorized {
            return Err(Error::Unauthorized);
        }
        if item_id < 1 || self.item_counter < item_id {
            return Err(Error::NotFound);
        }
        let idx = self.item_index(item_id);
        if self.items[idx].owner != caller {
            return Err(Error::Forbidden);
        }
        let current = &self.items[idx];
        let updated = InventoryItem {
            item_id: current.item_id,
            name: current.name.clone(),
            description: current.description.clone(),
            owner: current.owner,
            is_available,
            rental_price_per_day: current.rental_price_per_day,
        };
        self.items.set(idx, updated);
        proof {
            assert forall|j: int| 0 <= j < self.rentals@.len() implies self.user_has_entry(
                (#[trigger] self.rentals@[j]).renter,
            ) by {
                assert(old(self).user_has_entry(old(self).rentals@[j].renter));
                lemma_user_entry_transfer(*old(self), *self, self.rentals@[j].renter);
            }
        }
        Ok(())
    }

    /// Whether an active rental has run past its expected return date at
    /// time `now` (strictly; equality is not overdue).  A returned rental is
    /// never overdue.
    pub fn is_overdue(&self, rental_id: u64, now: u64) -> (r: Result<bool, Error>)
        requires
            self.wf(),
        ensures
            !self@.has_rental(rental_id) ==> r == Err::<bool, Error>(Error::NotFound),
            self@.has_rental(rental_id) && !self@.rental_at(rental_id).is_active ==> r == Ok::<
                bool,
                Error,
            >(false),
            self@.has_rental(rental_id) && self@.rental_at(rental_id).is_active ==> r == Ok::<
                bool,
                Error,
            >(now > self@.rental_at(rental_id).expected_return_date),
    {
        if rental_id < 1 || self.rental_counter < rental_id {
            return Err(Error::NotFound);
        }
        let idx = self.rental_index(rental_id);
        let rental = self.rentals[idx];
        if !rental.is_active {
            return Ok(false);
        }
        Ok(now > rental.expected_return_date)
    }
}

} // verus!
