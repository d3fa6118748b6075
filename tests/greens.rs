use coffee_api::error::ApiError;
use coffee_api::green_coffee::{merge_green, CreateGreenCoffeeRequest, GreenCoffee, UpdateGreenCoffeeRequest};
use coffee_api::greens::{
    create_green, delete_green, get_green, make_record_id, table_name, update_green,
    update_green_at, updated_green,
};
use coffee_api::model::{Quantity, RecordId, Timestamp};

fn qty(v: f64) -> Quantity {
    Quantity { bits: v.to_bits() }
}

fn strings(items: &[&str]) -> Vec<String> {
    items.iter().map(|s| s.to_string()).collect()
}

fn full_request() -> CreateGreenCoffeeRequest {
    CreateGreenCoffeeRequest {
        name: "Test Green Coffee".to_string(),
        origin_country: "Ethiopia".to_string(),
        region: Some("Sidama".to_string()),
        variety: Some("Heirloom".to_string()),
        processing_method: Some("Washed".to_string()),
        altitude_masl: Some(2000),
        harvest_year: Some(2023),
        stock_grams: qty(1000.0),
        price_per_kg: Some(qty(25.0)),
        price_currency: Some("USD".to_string()),
        supplier: Some("Test Supplier".to_string()),
        cupping_notes: Some(strings(&["Floral", "Citrus"])),
    }
}

/// What storage hands back for a record it stored under `key`.
fn stored(mut g: GreenCoffee, key: &str) -> GreenCoffee {
    g.id = Some(RecordId { table: table_name(), key: key.to_string() });
    g.created_at = Some(Timestamp { seconds: 1_700_000_000, nanos: 0 });
    g.updated_at = Some(Timestamp { seconds: 1_700_000_000, nanos: 0 });
    g
}

#[test]
fn create_green_coffee_test() {
    let record: GreenCoffee = full_request().into();
    let created = create_green(Some(stored(record, "lot1")));
    assert!(created.is_ok());
    let green_coffee = created.unwrap();
    assert_eq!(green_coffee.name, "Test Green Coffee");
    assert_eq!(green_coffee.origin_country, "Ethiopia");
}

#[test]
fn request_becomes_record_without_id_or_timestamps() {
    let g: GreenCoffee = full_request().into();
    assert_eq!(g.id, None);
    assert_eq!(g.created_at, None);
    assert_eq!(g.updated_at, None);
    assert_eq!(g.region.as_deref(), Some("Sidama"));
    assert_eq!(g.altitude_masl, Some(2000));
    assert_eq!(g.harvest_year, Some(2023));
    assert_eq!(g.stock_grams, qty(1000.0));
    assert_eq!(g.price_per_kg, Some(qty(25.0)));
    assert_eq!(g.cupping_notes, Some(strings(&["Floral", "Citrus"])));
}

#[test]
fn create_then_get_round_trip() {
    let req = full_request();
    let kept = stored(req.clone().into(), "lot2");
    let created = create_green(Some(kept.clone())).unwrap();
    let got = get_green(Some(kept)).unwrap();
    assert_eq!(created.id, got.id);
    assert_eq!(got.name, req.name);
    assert_eq!(got.origin_country, req.origin_country);
    assert_eq!(got.supplier, req.supplier);
    assert_eq!(got.cupping_notes, req.cupping_notes);
}

#[test]
fn create_without_returned_record_is_internal() {
    let r = create_green(None);
    assert_eq!(r, Err(ApiError::Internal { message: "Failed to create green coffee record".to_string() }));
    assert_eq!(r.unwrap_err().into_response().status, 500);
}

#[test]
fn get_missing_green_is_not_found() {
    let r = get_green(None);
    assert_eq!(r, Err(ApiError::NotFound { message: "Failed to get green coffee record".to_string() }));
    let envelope = r.unwrap_err().into_response();
    assert_eq!(envelope.status, 404);
    assert_eq!(envelope.error, "Failed to get green coffee record");
}

#[test]
fn green_table_and_record_id() {
    assert_eq!(table_name(), "green_coffee");
    assert_eq!(make_record_id("abc"), ("green_coffee".to_string(), "abc".to_string()));
}

#[test]
fn merge_overwrites_only_present_fields() {
    let before = stored(full_request().into(), "lot3");
    let now = Timestamp { seconds: 1_800_000_000, nanos: 5 };
    let update = UpdateGreenCoffeeRequest {
        name: Some("Renamed".to_string()),
        stock_grams: Some(qty(250.5)),
        cupping_notes: Some(strings(&["Jasmine"])),
        ..Default::default()
    };
    let after = merge_green(before.clone(), update, now);
    assert_eq!(after.name, "Renamed");
    assert_eq!(after.stock_grams, qty(250.5));
    assert_eq!(after.cupping_notes, Some(strings(&["Jasmine"])));
    assert_eq!(after.origin_country, before.origin_country);
    assert_eq!(after.region, before.region);
    assert_eq!(after.price_per_kg, before.price_per_kg);
    assert_eq!(after.id, before.id);
    assert_eq!(after.created_at, before.created_at);
    assert_eq!(after.updated_at, Some(now));
}

#[test]
fn empty_update_only_touches_updated_at() {
    let before = stored(full_request().into(), "lot4");
    let now = Timestamp { seconds: 1_800_000_001, nanos: 0 };
    let after = merge_green(before.clone(), UpdateGreenCoffeeRequest::default(), now);
    let mut expected = before;
    expected.updated_at = Some(now);
    assert_eq!(after, expected);
}

#[test]
fn update_fills_absent_optional_field() {
    let mut req = full_request();
    req.region = None;
    let before = stored(req.into(), "lot5");
    let update = UpdateGreenCoffeeRequest { region: Some("Guji".to_string()), ..Default::default() };
    let after = merge_green(before, update, Timestamp { seconds: 1, nanos: 0 });
    assert_eq!(after.region.as_deref(), Some("Guji"));
}

#[test]
fn update_missing_green_is_not_found() {
    let r = update_green_at("nope", None, UpdateGreenCoffeeRequest::default(), Timestamp { seconds: 1, nanos: 0 });
    assert_eq!(r, Err(ApiError::NotFound { message: "Green coffee with id 'nope' not found".to_string() }));
}

#[test]
fn update_stamps_current_time() {
    let before = stored(full_request().into(), "lot6");
    let update = UpdateGreenCoffeeRequest { harvest_year: Some(2024), ..Default::default() };
    let after = update_green("lot6", Some(before.clone()), update).unwrap();
    let stamp = after.updated_at.unwrap();
    assert!(stamp.seconds > 1_700_000_000);
    assert!(stamp.nanos < 1_000_000_000);
    assert_ne!(after.updated_at, before.updated_at);
    assert_eq!(after.harvest_year, Some(2024));
    assert_eq!(after.name, before.name);
}

#[test]
fn update_without_returned_record_is_internal() {
    let r = updated_green(None);
    assert_eq!(r, Err(ApiError::Internal { message: "Failed to update green coffee record".to_string() }));
}

#[test]
fn delete_green_confirms_or_reports_missing() {
    let kept = stored(full_request().into(), "lot7");
    assert_eq!(delete_green("lot7", Some(kept)), Ok("Green coffee deleted successfully".to_string()));
    let missing = delete_green("lot7", None);
    assert_eq!(missing, Err(ApiError::NotFound { message: "Green coffee with id 'lot7' not found".to_string() }));
    assert_eq!(missing.unwrap_err().into_response().status, 404);
}
