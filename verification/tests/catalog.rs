use printer_supplies::catalog::{Brand, Drum, Printer, Toner};
use printer_supplies::error::ApiError;
use printer_supplies::ids::is_uuid;
use printer_supplies::movement::Movement;
use printer_supplies::status::Status;
use printer_supplies::store::Store;
use rust_decimal::Decimal;

const B1: &str = "aaaaaaaa-1111-4111-8111-aaaaaaaaaaaa";
const T1: &str = "bbbbbbbb-2222-4222-8222-bbbbbbbbbbbb";

#[test]
fn brand_new_generates_a_well_formed_id() {
    let brand = Brand::new("Epson");
    assert!(is_uuid(&brand.id));
    assert_eq!(brand.name, "Epson");
}

#[test]
fn printer_new_keeps_its_references() {
    let p = Printer::new("Office", "X-100", B1.to_string(), T1.to_string(), T1.to_string());
    assert!(is_uuid(&p.id));
    assert_eq!(p.name, "Office");
    assert_eq!(p.model, "X-100");
    assert_eq!(p.brand, B1);
    assert_eq!(p.toner, T1);
    assert_eq!(p.drum, T1);
}

#[test]
fn toner_new_carries_stock_and_price() {
    let price = Decimal::new(1999, 2);
    let t = Toner::new("Black XL", Some(12), Some(price));
    assert!(is_uuid(&t.id));
    assert_eq!(t.name, "Black XL");
    assert_eq!(t.stock, Some(12));
    assert_eq!(t.price, Some(price));
}

#[test]
fn toner_and_drum_defaults_are_unknown_and_empty() {
    let t = Toner::default();
    assert!(is_uuid(&t.id));
    assert_eq!(t.name, "Unknown");
    assert_eq!(t.stock, None);
    assert_eq!(t.price, None);
    let d = Drum::default();
    assert!(is_uuid(&d.id));
    assert_eq!(d.name, "Unknown");
    assert_eq!(d.stock, None);
    assert_eq!(d.price, None);
}

#[test]
fn movement_new_stamps_fresh_id() {
    let m = Movement::new(B1, T1, 9);
    assert!(is_uuid(&m.id));
    assert_eq!(m.printer_id, B1);
    assert_eq!(m.item_id, T1);
    assert_eq!(m.quantity, 9);
}

#[test]
fn duplicate_ids_are_refused_on_insert() {
    let mut store = Store::new();
    let t = Toner { id: T1.to_string(), name: "Black".to_string(), stock: None, price: None };
    assert_eq!(store.add_toner(t), Ok(()));
    let again = Toner { id: T1.to_string(), name: "Other".to_string(), stock: None, price: None };
    assert_eq!(store.add_toner(again), Err(ApiError::AlreadyExists));
    assert_eq!(store.toners.len(), 1);
}

#[test]
fn existence_checks_answer_per_table() {
    let mut store = Store::new();
    store.add_brand(Brand { id: B1.to_string(), name: "Epson".to_string() }).unwrap();
    assert_eq!(store.brand_exists(&B1.to_string()), Ok(()));
    assert_eq!(store.toner_exists(&B1.to_string()), Err(ApiError::IdNotFound));
    assert_eq!(store.drum_exists(&B1.to_string()), Err(ApiError::IdNotFound));
    assert_eq!(store.printer_exists(&B1.to_string()), Err(ApiError::IdNotFound));
    assert_eq!(store.movement_exists(&B1.to_string()), Err(ApiError::IdNotFound));
}

#[test]
fn name_uniqueness_checks_answer_per_table() {
    let mut store = Store::new();
    store
        .add_toner(Toner { id: T1.to_string(), name: "Black".to_string(), stock: None, price: None })
        .unwrap();
    assert_eq!(store.is_toner_unique(&"Black".to_string()), Err(ApiError::AlreadyExists));
    assert_eq!(store.is_toner_unique(&"Cyan".to_string()), Ok(()));
    assert_eq!(store.is_drum_unique(&"Black".to_string()), Ok(()));
    assert_eq!(store.is_brand_unique(&"Black".to_string()), Ok(()));
    assert_eq!(store.is_printer_unique(&"Black".to_string()), Ok(()));
}

#[test]
fn status_report_carries_the_database_answers() {
    let status = Status::new("16.3".to_string(), 97, 1);
    assert_eq!(status.dependencies.database.version, "16.3");
    assert_eq!(status.dependencies.database.max_connections, 97);
    assert_eq!(status.dependencies.database.opened_connections, 1);
}
