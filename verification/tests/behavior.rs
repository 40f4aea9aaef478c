//! Behavior of each operation: error cases, formulas, indices, and the
//! availability rules on concrete values.

use inventory_logger::entities::Error;
use inventory_logger::entities::Identity;
use inventory_logger::entities::InventoryItem;
use inventory_logger::state::InventoryContract;

fn id(handle: u64) -> Identity {
    Identity { handle }
}

#[test]
fn full_rental_cycle_scenario() {
    let mut c = InventoryContract::initialize();
    let owner = id(10);
    let renter = id(20);

    let item_id = c
        .add_item(owner, true, String::from("Bike"), String::from("City bike"), 100)
        .unwrap();
    assert_eq!(item_id, 1);
    assert_eq!(c.get_item_count(), 1);

    let issue_date = 5_000;
    let rental_id = c.issue_item(renter, true, item_id, 7, 500, issue_date).unwrap();
    assert_eq!(rental_id, 1);

    let rental = c.get_rental(rental_id).unwrap();
    assert_eq!(rental.issue_date, issue_date);
    assert_eq!(rental.expected_return_date, issue_date + 604_800);
    assert_eq!(rental.deposit_amount, 500);
    assert_eq!(rental.item_id, item_id);
    assert_eq!(rental.renter, renter);
    assert!(rental.is_active);
    assert_eq!(rental.actual_return_date, None);
    assert_eq!(c.get_item(item_id).unwrap().is_available, false);

    let returned = c.return_item(rental_id, renter, true, 6_000).unwrap();
    assert!(returned);
    assert_eq!(c.get_item(item_id).unwrap().is_available, true);
    let rental = c.get_rental(rental_id).unwrap();
    assert_eq!(rental.is_active, false);
    assert_eq!(rental.actual_return_date, Some(6_000));
}

#[test]
fn add_item_then_get_item_round_trip() {
    let mut c = InventoryContract::initialize();
    let owner = id(7);
    let item_id = c
        .add_item(owner, true, String::from("Tent"), String::from("Four seasons"), 42)
        .unwrap();
    let expected = InventoryItem {
        item_id,
        name: String::from("Tent"),
        description: String::from("Four seasons"),
        owner,
        is_available: true,
        rental_price_per_day: 42,
    };
    assert_eq!(c.get_item(item_id), Some(expected));
}

#[test]
fn item_ids_count_up_from_one() {
    let mut c = InventoryContract::initialize();
    let owner = id(1);
    for n in 1..=5u64 {
        let got = c
            .add_item(owner, true, String::from("Thing"), String::from("Nth"), 1)
            .unwrap();
        assert_eq!(got, n);
        assert_eq!(c.get_item_count(), n);
    }
}

#[test]
fn rental_ids_count_up_from_one() {
    let mut c = InventoryContract::initialize();
    let owner = id(1);
    let renter = id(2);
    for n in 1..=4u64 {
        let item = c
            .add_item(owner, true, String::from("Thing"), String::from("Nth"), 1)
            .unwrap();
        let got = c.issue_item(renter, true, item, 1, 0, 0).unwrap();
        assert_eq!(got, n);
        assert_eq!(c.get_rental_count(), n);
    }
}

#[test]
fn unauthorized_calls_change_nothing() {
    let mut c = InventoryContract::initialize();
    let owner = id(1);
    let renter = id(2);
    let item_id = c
        .add_item(owner, true, String::from("Saw"), String::from("Circular"), 9)
        .unwrap();

    let denied = c.add_item(owner, false, String::from("Axe"), String::from("Felling"), 5);
    assert_eq!(denied, Err(Error::Unauthorized));
    assert_eq!(c.get_item_count(), 1);

    let denied = c.issue_item(renter, false, item_id, 3, 50, 0);
    assert_eq!(denied, Err(Error::Unauthorized));
    assert_eq!(c.get_rental_count(), 0);
    assert_eq!(c.get_item(item_id).unwrap().is_available, true);

    let rental_id = c.issue_item(renter, true, item_id, 3, 50, 0).unwrap();
    let denied = c.return_item(rental_id, renter, false, 10);
    assert_eq!(denied, Err(Error::Unauthorized));
    assert!(c.get_rental(rental_id).unwrap().is_active);

    let denied = c.update_item_availability(item_id, true, owner, false);
    assert_eq!(denied, Err(Error::Unauthorized));
    assert_eq!(c.get_item(item_id).unwrap().is_available, false);
}

#[test]
fn missing_ids_are_not_found() {
    let mut c = InventoryContract::initialize();
    assert_eq!(c.get_item(1), None);
    assert_eq!(c.get_rental(1), None);
    assert_eq!(c.issue_item(id(2), true, 1, 3, 50, 0), Err(Error::NotFound));
    assert_eq!(c.return_item(1, id(2), true, 0), Err(Error::NotFound));
    assert_eq!(c.is_overdue(1, 0), Err(Error::NotFound));
    assert_eq!(c.update_item_availability(1, false, id(1), true), Err(Error::NotFound));

    let item_id = c
        .add_item(id(1), true, String::from("Pump"), String::from("Foot pump"), 3)
        .unwrap();
    assert_eq!(c.get_item(0), None);
    assert_eq!(c.get_item(item_id + 1), None);
    assert_eq!(c.issue_item(id(2), true, item_id + 1, 3, 50, 0), Err(Error::NotFound));
}

#[test]
fn issue_unavailable_item_changes_nothing() {
    let mut c = InventoryContract::initialize();
    let owner = id(1);
    let renter1 = id(2);
    let renter2 = id(3);
    let item_id = c
        .add_item(owner, true, String::from("Kayak"), String::from("Single seat"), 30)
        .unwrap();
    let rental_id = c.issue_item(renter1, true, item_id, 2, 60, 100).unwrap();
    let before = c.get_rental(rental_id).unwrap();

    let refused = c.issue_item(renter2, true, item_id, 9, 999, 200);
    assert_eq!(refused, Err(Error::ItemUnavailable));
    assert_eq!(c.get_rental_count(), 1);
    assert_eq!(c.get_rental(rental_id).unwrap(), before);
    assert_eq!(c.get_item(item_id).unwrap().is_available, false);
    assert_eq!(c.get_user_rentals(renter2).len(), 0);
}

#[test]
fn double_return_changes_nothing() {
    let mut c = InventoryContract::initialize();
    let owner = id(1);
    let renter = id(2);
    let item_id = c
        .add_item(owner, true, String::from("Ladder"), String::from("Tall"), 8)
        .unwrap();
    let rental_id = c.issue_item(renter, true, item_id, 2, 60, 100).unwrap();
    c.return_item(rental_id, renter, true, 150).unwrap();
    let before = c.get_rental(rental_id).unwrap();

    let refused = c.return_item(rental_id, renter, true, 999);
    assert_eq!(refused, Err(Error::AlreadyReturned));
    assert_eq!(c.get_rental(rental_id).unwrap(), before);
    assert_eq!(c.get_rental(rental_id).unwrap().actual_return_date, Some(150));
    assert_eq!(c.get_item(item_id).unwrap().is_available, true);
}

#[test]
fn only_the_renter_may_return() {
    let mut c = InventoryContract::initialize();
    let owner = id(1);
    let renter = id(2);
    let other = id(3);
    let item_id = c
        .add_item(owner, true, String::from("Piano"), String::from("Upright"), 70)
        .unwrap();
    let rental_id = c.issue_item(renter, true, item_id, 2, 60, 0).unwrap();

    // Wrong party, active rental
    assert_eq!(c.return_item(rental_id, other, true, 5), Err(Error::Forbidden));
    assert_eq!(c.return_item(rental_id, owner, true, 5), Err(Error::Forbidden));
    assert!(c.get_rental(rental_id).unwrap().is_active);

    // Wrong party, returned rental: still the wrong party, not AlreadyReturned
    c.return_item(rental_id, renter, true, 5).unwrap();
    assert_eq!(c.return_item(rental_id, other, true, 9), Err(Error::Forbidden));
}

#[test]
fn only_the_owner_may_update_availability() {
    let mut c = InventoryContract::initialize();
    let owner = id(1);
    let other = id(2);
    let item_id = c
        .add_item(owner, true, String::from("Mixer"), String::from("Stand mixer"), 12)
        .unwrap();

    assert_eq!(c.update_item_availability(item_id, false, other, true), Err(Error::Forbidden));
    assert_eq!(c.get_item(item_id).unwrap().is_available, true);

    c.update_item_availability(item_id, false, owner, true).unwrap();
    assert_eq!(c.get_item(item_id).unwrap().is_available, false);
    c.update_item_availability(item_id, true, owner, true).unwrap();
    assert_eq!(c.get_item(item_id).unwrap().is_available, true);
}

#[test]
fn availability_override_bypasses_rental_state() {
    let mut c = InventoryContract::initialize();
    let owner = id(1);
    let renter = id(2);
    let item_id = c
        .add_item(owner, true, String::from("Trailer"), String::from("Box trailer"), 25)
        .unwrap();
    let rental_id = c.issue_item(renter, true, item_id, 2, 60, 0).unwrap();

    // The owner forces the flag while the rental is still active.
    c.update_item_availability(item_id, true, owner, true).unwrap();
    assert_eq!(c.get_item(item_id).unwrap().is_available, true);
    assert!(c.get_rental(rental_id).unwrap().is_active);

    // The flag alone gates renting, so the item can be issued again.
    let second = c.issue_item(id(3), true, item_id, 1, 10, 5).unwrap();
    assert_eq!(second, 2);
}

#[test]
fn overdue_follows_the_clock_strictly() {
    let mut c = InventoryContract::initialize();
    let owner = id(1);
    let renter = id(2);
    let item_id = c
        .add_item(owner, true, String::from("Projector"), String::from("4K"), 15)
        .unwrap();
    let issue_date = 1_000;
    let rental_id = c.issue_item(renter, true, item_id, 7, 500, issue_date).unwrap();
    let due = issue_date + 7 * 86_400;

    assert_eq!(c.is_overdue(rental_id, issue_date), Ok(false));
    assert_eq!(c.is_overdue(rental_id, due), Ok(false));
    assert_eq!(c.is_overdue(rental_id, due + 1), Ok(true));

    c.return_item(rental_id, renter, true, due + 500).unwrap();
    assert_eq!(c.is_overdue(rental_id, due + 1_000), Ok(false));
}

#[test]
fn zero_rental_days_are_due_at_issue() {
    let mut c = InventoryContract::initialize();
    let renter = id(2);
    let item_id = c
        .add_item(id(1), true, String::from("Dolly"), String::from("Hand truck"), 4)
        .unwrap();
    let rental_id = c.issue_item(renter, true, item_id, 0, 0, 777).unwrap();
    assert_eq!(c.get_rental(rental_id).unwrap().expected_return_date, 777);
    assert_eq!(c.is_overdue(rental_id, 777), Ok(false));
    assert_eq!(c.is_overdue(rental_id, 778), Ok(true));
}

#[test]
fn indices_keep_issuance_order() {
    let mut c = InventoryContract::initialize();
    let owner = id(1);
    let renter1 = id(2);
    let renter2 = id(3);
    let item_a = c
        .add_item(owner, true, String::from("Board"), String::from("Surfboard"), 6)
        .unwrap();
    let item_b = c
        .add_item(owner, true, String::from("Wetsuit"), String::from("Size M"), 2)
        .unwrap();

    let r1 = c.issue_item(renter1, true, item_a, 1, 10, 0).unwrap();
    c.return_item(r1, renter1, true, 10).unwrap();
    let r2 = c.issue_item(renter2, true, item_a, 1, 10, 20).unwrap();
    let r3 = c.issue_item(renter1, true, item_b, 1, 10, 30).unwrap();

    assert_eq!(c.get_item_rentals(item_a), vec![r1, r2]);
    assert_eq!(c.get_item_rentals(item_b), vec![r3]);
    assert_eq!(c.get_user_rentals(renter1), vec![r1, r3]);
    assert_eq!(c.get_user_rentals(renter2), vec![r2]);

    // Indices are append-only: the returned rental stays listed.
    assert_eq!(c.get_item_rentals(item_a).len(), 2);

    // Unknown keys have empty indices.
    assert_eq!(c.get_item_rentals(99), Vec::<u64>::new());
    assert_eq!(c.get_user_rentals(id(99)), Vec::<u64>::new());
}

#[test]
fn renting_again_after_return_lists_twice() {
    let mut c = InventoryContract::initialize();
    let owner = id(1);
    let renter = id(2);
    let item_id = c
        .add_item(owner, true, String::from("Canoe"), String::from("Two seats"), 14)
        .unwrap();
    let r1 = c.issue_item(renter, true, item_id, 1, 5, 0).unwrap();
    c.return_item(r1, renter, true, 50).unwrap();
    let r2 = c.issue_item(renter, true, item_id, 1, 5, 60).unwrap();

    // The same renter renting the same item twice appears twice; nothing is
    // deduplicated.
    assert_eq!(c.get_user_rentals(renter), vec![r1, r2]);
    assert_eq!(c.get_item_rentals(item_id), vec![r1, r2]);
}
