//! End-to-end flows through the rental state machine.

use inventory_logger::entities::Identity;
use inventory_logger::state::InventoryContract;

#[test]
fn test_add_and_get_item() {
    let mut c = InventoryContract::initialize();

    let owner = Identity { handle: 1 };
    let name = String::from("Laptop");
    let desc = String::from("MacBook Pro 16");

    let item_id = c.add_item(owner, true, name, desc, 100).unwrap();

    let item = c.get_item(item_id).unwrap();
    assert_eq!(item.item_id, item_id);
    assert_eq!(item.is_available, true);
}

#[test]
fn test_rent_and_return() {
    let mut c = InventoryContract::initialize();

    let owner = Identity { handle: 1 };
    let renter = Identity { handle: 2 };
    let name = String::from("Camera");
    let desc = String::from("Canon EOS R5");

    let item_id = c.add_item(owner, true, name, desc, 50).unwrap();

    // Rent the item
    let rental_id = c.issue_item(renter, true, item_id, 7, 500, 0).unwrap();

    let item = c.get_item(item_id).unwrap();
    assert_eq!(item.is_available, false);

    let rental = c.get_rental(rental_id).unwrap();
    assert_eq!(rental.is_active, true);

    // Return the item
    c.return_item(rental_id, renter, true, 0).unwrap();

    let item = c.get_item(item_id).unwrap();
    assert_eq!(item.is_available, true);

    let rental = c.get_rental(rental_id).unwrap();
    assert_eq!(rental.is_active, false);
}

#[test]
fn test_full_inventory_flow() {
    let mut c = InventoryContract::initialize();

    let owner = Identity { handle: 1 };
    let renter1 = Identity { handle: 2 };
    let renter2 = Identity { handle: 3 };

    // Add multiple items
    let laptop_id = c
        .add_item(owner, true, String::from("Laptop"), String::from("MacBook Pro 16"), 150)
        .unwrap();

    let camera_id = c
        .add_item(owner, true, String::from("Camera"), String::from("Canon EOS R5"), 100)
        .unwrap();

    let drone_id = c
        .add_item(owner, true, String::from("Drone"), String::from("DJI Mavic 3"), 200)
        .unwrap();

    // Verify items added
    assert_eq!(c.get_item_count(), 3);

    let laptop = c.get_item(laptop_id).unwrap();
    assert_eq!(laptop.is_available, true);
    assert_eq!(laptop.rental_price_per_day, 150);

    // Rent items
    let rental1_id = c.issue_item(renter1, true, laptop_id, 7, 1000, 0).unwrap();
    let rental2_id = c.issue_item(renter2, true, camera_id, 3, 500, 0).unwrap();

    // Verify rentals
    assert_eq!(c.get_rental_count(), 2);

    let laptop_after_rent = c.get_item(laptop_id).unwrap();
    assert_eq!(laptop_after_rent.is_available, false);

    let rental1 = c.get_rental(rental1_id).unwrap();
    assert_eq!(rental1.is_active, true);
    assert_eq!(rental1.item_id, laptop_id);

    // Check user rentals
    let renter1_rentals = c.get_user_rentals(renter1);
    assert_eq!(renter1_rentals.len(), 1);

    // Return item
    c.return_item(rental1_id, renter1, true, 0).unwrap();

    let laptop_after_return = c.get_item(laptop_id).unwrap();
    assert_eq!(laptop_after_return.is_available, true);

    let rental1_after = c.get_rental(rental1_id).unwrap();
    assert_eq!(rental1_after.is_active, false);
    assert!(rental1_after.actual_return_date.is_some());

    // Verify drone still available
    let drone = c.get_item(drone_id).unwrap();
    assert_eq!(drone.is_available, true);
    assert!(c.get_rental(rental2_id).is_some());
}

#[test]
fn test_multiple_users() {
    let mut c = InventoryContract::initialize();

    let owner1 = Identity { handle: 1 };
    let owner2 = Identity { handle: 2 };
    let renter1 = Identity { handle: 3 };
    let renter2 = Identity { handle: 4 };

    // Different owners add items
    let item1 = c
        .add_item(owner1, true, String::from("PC"), String::from("Gaming"), 300)
        .unwrap();
    let item2 = c
        .add_item(owner2, true, String::from("DSLR"), String::from("Sony"), 120)
        .unwrap();

    // Different renters
    let rental1 = c.issue_item(renter1, true, item1, 10, 3000, 0).unwrap();
    let rental2 = c.issue_item(renter2, true, item2, 5, 600, 0).unwrap();

    assert_eq!(c.get_item_count(), 2);
    assert_eq!(c.get_rental_count(), 2);

    // Return one
    c.return_item(rental2, renter2, true, 0).unwrap();

    let item2_status = c.get_item(item2).unwrap();
    assert_eq!(item2_status.is_available, true);

    let item1_status = c.get_item(item1).unwrap();
    assert_eq!(item1_status.is_available, false);
    assert!(c.get_rental(rental1).is_some());
}

#[test]
fn test_rent_unavailable_item() {
    let mut c = InventoryContract::initialize();

    let owner = Identity { handle: 1 };
    let renter1 = Identity { handle: 2 };
    let renter2 = Identity { handle: 3 };

    let item_id = c
        .add_item(owner, true, String::from("Item"), String::from("Test"), 50)
        .unwrap();

    // First rental succeeds
    c.issue_item(renter1, true, item_id, 5, 250, 0).unwrap();

    // Second rental must be refused
    let second = c.issue_item(renter2, true, item_id, 3, 150, 0);
    assert_eq!(second, Err(inventory_logger::entities::Error::ItemUnavailable));
}

#[test]
fn test_return_completed_rental() {
    let mut c = InventoryContract::initialize();

    let owner = Identity { handle: 1 };
    let renter = Identity { handle: 2 };

    let item_id = c
        .add_item(owner, true, String::from("Item"), String::from("Test"), 50)
        .unwrap();
    let rental_id = c.issue_item(renter, true, item_id, 5, 250, 0).unwrap();

    // First return succeeds
    c.return_item(rental_id, renter, true, 0).unwrap();

    // Second return must be refused
    let again = c.return_item(rental_id, renter, true, 0);
    assert_eq!(again, Err(inventory_logger::entities::Error::AlreadyReturned));
}
