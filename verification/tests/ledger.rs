use printer_supplies::catalog::{DeleteRequest, Drum, Printer, Toner};
use printer_supplies::error::{ApiError, ValidationCode};
use printer_supplies::movement::{CreateMovementRequest, UpdateMovementRequest};
use printer_supplies::store::{ItemRef, Store};

const P1: &str = "11111111-1111-4111-8111-111111111111";
const T1: &str = "22222222-2222-4222-8222-222222222222";
const D1: &str = "33333333-3333-4333-8333-333333333333";
const UNKNOWN: &str = "99999999-9999-4999-8999-999999999999";

fn toner_row(id: &str, name: &str, stock: Option<i32>) -> Toner {
    Toner { id: id.to_string(), name: name.to_string(), stock, price: None }
}

fn drum_row(id: &str, name: &str, stock: Option<i32>) -> Drum {
    Drum { id: id.to_string(), name: name.to_string(), stock, price: None }
}

fn printer_row(id: &str) -> Printer {
    Printer {
        id: id.to_string(),
        name: "Laser".to_string(),
        model: "X-100".to_string(),
        brand: UNKNOWN.to_string(),
        toner: T1.to_string(),
        drum: D1.to_string(),
    }
}

fn seeded() -> Store {
    let mut store = Store::new();
    store.add_printer(printer_row(P1)).unwrap();
    store.add_toner(toner_row(T1, "Black toner", Some(0))).unwrap();
    store.add_drum(drum_row(D1, "Main drum", Some(5))).unwrap();
    store
}

fn create_req(printer: &str, item: &str, quantity: i32) -> CreateMovementRequest {
    CreateMovementRequest {
        printer_id: printer.to_string(),
        item_id: item.to_string(),
        quantity,
    }
}

fn toner_stock(store: &Store, id: &str) -> Option<i32> {
    store.toners.iter().find(|t| t.id == id).unwrap().stock
}

fn drum_stock(store: &Store, id: &str) -> Option<i32> {
    store.drums.iter().find(|d| d.id == id).unwrap().stock
}

#[test]
fn resolver_picks_toner_then_drum_then_none() {
    let store = seeded();
    assert_eq!(store.resolve(&T1.to_string()), Some(ItemRef::Toner(T1.to_string())));
    assert_eq!(store.resolve(&D1.to_string()), Some(ItemRef::Drum(D1.to_string())));
    assert_eq!(store.resolve(&UNKNOWN.to_string()), None);
}

#[test]
fn create_movement_scenario_toner_stock_and_listing() {
    let mut store = seeded();
    let id = store.create_movement(&create_req(P1, T1, 10)).unwrap();
    assert_eq!(toner_stock(&store, T1), Some(10));
    assert_eq!(store.count_movements(), 1);
    let listing = store.show_movements().unwrap();
    assert_eq!(listing.len(), 1);
    assert_eq!(listing[0].id, id);
    assert_eq!(listing[0].quantity, 10);
    assert_eq!(listing[0].item.id, T1);
    assert_eq!(listing[0].item.name, "Black toner");
    assert_eq!(listing[0].printer.id, P1);
    assert_eq!(listing[0].printer.name, "Laser");
    assert_eq!(listing[0].printer.model, "X-100");
}

#[test]
fn create_movement_zero_quantity_rejected() {
    let mut store = seeded();
    let r = store.create_movement(&create_req(P1, T1, 0));
    assert_eq!(r, Err(ApiError::ValidationError(ValidationCode::InvalidQuantity)));
    assert_eq!(r.unwrap_err().status_code(), 400);
    assert_eq!(toner_stock(&store, T1), Some(0));
    assert_eq!(store.count_movements(), 0);
}

#[test]
fn create_movement_negative_quantity_rejected() {
    let mut store = seeded();
    let r = store.create_movement(&create_req(P1, T1, -4));
    assert_eq!(r, Err(ApiError::ValidationError(ValidationCode::InvalidQuantity)));
    assert_eq!(toner_stock(&store, T1), Some(0));
    assert_eq!(store.count_movements(), 0);
}

#[test]
fn create_movement_unknown_item_rejected() {
    let mut store = seeded();
    let r = store.create_movement(&create_req(P1, UNKNOWN, 5));
    assert_eq!(r, Err(ApiError::IdNotFound));
    assert_eq!(r.unwrap_err().status_code(), 404);
    assert_eq!(store.count_movements(), 0);
}

#[test]
fn create_movement_malformed_ids_rejected() {
    let mut store = seeded();
    let r = store.create_movement(&create_req("not-a-uuid", T1, 5));
    assert_eq!(r, Err(ApiError::ValidationError(ValidationCode::InvalidUuid)));
    assert_eq!(store.count_movements(), 0);
}

#[test]
fn create_movement_accepts_simple_format_ids() {
    let simple = "44444444444444444444444444444444";
    let mut store = Store::new();
    store.add_printer(printer_row(P1)).unwrap();
    store.add_toner(toner_row(simple, "Plain toner", Some(1))).unwrap();
    store.create_movement(&create_req(P1, simple, 2)).unwrap();
    assert_eq!(toner_stock(&store, simple), Some(3));
}

#[test]
fn create_movement_on_drum_updates_drum_stock() {
    let mut store = seeded();
    store.create_movement(&create_req(P1, D1, 7)).unwrap();
    assert_eq!(drum_stock(&store, D1), Some(12));
    assert_eq!(toner_stock(&store, T1), Some(0));
}

#[test]
fn create_movement_null_stock_stays_null() {
    let mut store = Store::new();
    store.add_printer(printer_row(P1)).unwrap();
    store.add_toner(toner_row(T1, "Black toner", None)).unwrap();
    store.create_movement(&create_req(P1, T1, 3)).unwrap();
    assert_eq!(toner_stock(&store, T1), None);
    assert_eq!(store.count_movements(), 1);
}

#[test]
fn create_movement_with_taken_id_is_database_error() {
    let mut store = seeded();
    let id = store.create_movement(&create_req(P1, T1, 1)).unwrap();
    let r = store.create_movement_with(&create_req(P1, T1, 2), &id, 0);
    assert_eq!(r, Err(ApiError::DatabaseError));
    assert_eq!(toner_stock(&store, T1), Some(1));
    assert_eq!(store.count_movements(), 1);
}

#[test]
fn create_movement_stock_overflow_is_database_error() {
    let mut store = Store::new();
    store.add_printer(printer_row(P1)).unwrap();
    store.add_toner(toner_row(T1, "Black toner", Some(i32::MAX - 1))).unwrap();
    let r = store.create_movement_with(&create_req(P1, T1, 2), &UNKNOWN.to_string(), 0);
    assert_eq!(r, Err(ApiError::DatabaseError));
    assert_eq!(toner_stock(&store, T1), Some(i32::MAX - 1));
    assert_eq!(store.count_movements(), 0);
}

#[test]
fn serialized_creates_accumulate_without_lost_updates() {
    let mut store = seeded();
    let quantities = [4, 9, 25];
    for q in quantities {
        store.create_movement(&create_req(P1, T1, q)).unwrap();
    }
    assert_eq!(toner_stock(&store, T1), Some(38));
    assert_eq!(store.count_movements(), 3);
}

#[test]
fn update_movement_nonexistent_id_not_found() {
    let mut store = seeded();
    let req = UpdateMovementRequest {
        id: UNKNOWN.to_string(),
        printer_id: None,
        item_id: None,
        quantity: Some(2),
    };
    assert_eq!(store.update_movement(&req), Err(ApiError::IdNotFound));
}

#[test]
fn update_movement_no_fields_not_modified() {
    let mut store = seeded();
    let id = store.create_movement(&create_req(P1, T1, 5)).unwrap();
    let req = UpdateMovementRequest { id, printer_id: None, item_id: None, quantity: None };
    let r = store.update_movement(&req);
    assert_eq!(r, Err(ApiError::NotModified));
    assert_eq!(r.unwrap_err().status_code(), 304);
}

#[test]
fn update_movement_equal_values_not_modified() {
    let mut store = seeded();
    let id = store.create_movement(&create_req(P1, T1, 5)).unwrap();
    let req = UpdateMovementRequest {
        id,
        printer_id: Some(P1.to_string()),
        item_id: Some(T1.to_string()),
        quantity: Some(5),
    };
    assert_eq!(store.update_movement(&req), Err(ApiError::NotModified));
}

#[test]
fn update_movement_quantity_leaves_stock_unchanged() {
    let mut store = seeded();
    let id = store.create_movement(&create_req(P1, T1, 5)).unwrap();
    assert_eq!(toner_stock(&store, T1), Some(5));
    let req = UpdateMovementRequest {
        id: id.clone(),
        printer_id: None,
        item_id: None,
        quantity: Some(40),
    };
    assert_eq!(store.update_movement(&req), Ok(id.clone()));
    assert_eq!(toner_stock(&store, T1), Some(5));
    let details = store.search_movement(&id).unwrap();
    assert_eq!(details.quantity, 40);
}

#[test]
fn update_movement_unresolvable_item_is_ignored() {
    let mut store = seeded();
    let id = store.create_movement(&create_req(P1, T1, 5)).unwrap();
    let req = UpdateMovementRequest {
        id: id.clone(),
        printer_id: None,
        item_id: Some(UNKNOWN.to_string()),
        quantity: None,
    };
    assert_eq!(store.update_movement(&req), Err(ApiError::NotModified));
    assert_eq!(store.search_movement(&id).unwrap().item.id, T1);
}

#[test]
fn update_movement_item_to_drum() {
    let mut store = seeded();
    let id = store.create_movement(&create_req(P1, T1, 5)).unwrap();
    let req = UpdateMovementRequest {
        id: id.clone(),
        printer_id: None,
        item_id: Some(D1.to_string()),
        quantity: None,
    };
    assert_eq!(store.update_movement(&req), Ok(id.clone()));
    assert_eq!(store.search_movement(&id).unwrap().item.id, D1);
    // The toner keeps the stock the create applied; nothing is reversed.
    assert_eq!(toner_stock(&store, T1), Some(5));
    assert_eq!(drum_stock(&store, D1), Some(5));
}

#[test]
fn update_movement_malformed_reference_rejected() {
    let mut store = seeded();
    let id = store.create_movement(&create_req(P1, T1, 5)).unwrap();
    let req = UpdateMovementRequest {
        id,
        printer_id: Some("bad".to_string()),
        item_id: None,
        quantity: None,
    };
    assert_eq!(
        store.update_movement(&req),
        Err(ApiError::ValidationError(ValidationCode::InvalidUuid))
    );
}

#[test]
fn delete_movement_nonexistent_id_not_found() {
    let mut store = seeded();
    let r = store.delete_movement(&DeleteRequest { id: UNKNOWN.to_string() });
    assert_eq!(r, Err(ApiError::IdNotFound));
}

#[test]
fn delete_movement_removes_row_and_keeps_stock() {
    let mut store = seeded();
    let id = store.create_movement(&create_req(P1, T1, 5)).unwrap();
    assert_eq!(store.count_movements(), 1);
    assert_eq!(store.delete_movement(&DeleteRequest { id }), Ok(()));
    assert_eq!(store.count_movements(), 0);
    assert_eq!(toner_stock(&store, T1), Some(5));
}

#[test]
fn search_movement_not_found() {
    let store = seeded();
    assert_eq!(
        store.search_movement(&UNKNOWN.to_string()),
        Err(ApiError::IdNotFound)
    );
}

#[test]
fn search_movement_malformed_id_rejected() {
    let store = seeded();
    assert_eq!(
        store.search_movement(&"oops".to_string()),
        Err(ApiError::ValidationError(ValidationCode::InvalidUuid))
    );
}

#[test]
fn movement_reads_denormalize_details() {
    let mut store = seeded();
    let id = store.create_movement(&create_req(P1, D1, 2)).unwrap();
    let details = store.search_movement(&id).unwrap();
    assert_eq!(details.id, id);
    assert_eq!(details.printer.name, "Laser");
    assert_eq!(details.item.name, "Main drum");
    assert_eq!(details.quantity, 2);
}

#[test]
fn show_movements_skips_rows_whose_printer_is_gone() {
    let mut store = seeded();
    store.create_movement(&create_req(P1, T1, 5)).unwrap();
    // A ledger row referencing a printer the catalog no longer holds.
    store.printers.clear();
    let listing = store.show_movements().unwrap();
    assert_eq!(listing.len(), 0);
    assert_eq!(store.count_movements(), 1);
}

#[test]
fn show_movements_fails_on_unresolvable_item() {
    let mut store = seeded();
    store.create_movement(&create_req(P1, T1, 5)).unwrap();
    // The item vanishes from the catalog while its printer stays.
    store.toners.clear();
    assert_eq!(store.show_movements(), Err(ApiError::DatabaseError));
}

#[test]
fn search_movement_fails_on_unresolvable_item() {
    let mut store = seeded();
    let id = store.create_movement(&create_req(P1, T1, 5)).unwrap();
    store.toners.clear();
    assert_eq!(store.search_movement(&id), Err(ApiError::DatabaseError));
}

#[test]
fn fresh_ids_are_well_formed() {
    let mut store = seeded();
    let id = store.create_movement(&create_req(P1, T1, 5)).unwrap();
    assert!(printer_supplies::ids::is_uuid(&id));
}
