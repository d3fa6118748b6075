use coffee_api::error::ApiError;
use coffee_api::model::{Quantity, RecordId, Timestamp};
use coffee_api::product::{merge_product, CreateProductRequest, Product, UpdateProductRequest};
use coffee_api::products::{
    create_product, delete_product, get_product, make_record_id, table_name,
    update_product, update_product_at, updated_product,
};
use coffee_api::roasts;

fn qty(v: f64) -> Quantity {
    Quantity { bits: v.to_bits() }
}

fn product_request() -> CreateProductRequest {
    CreateProductRequest {
        roast: Some(RecordId { table: roasts::table_name(), key: "r1".to_string() }),
        name: "House Blend".to_string(),
        description: Some("Everyday coffee".to_string()),
        category: Some("Whole bean".to_string()),
        colours: Some(vec!["Brown".to_string()]),
        details: Some(vec!["Medium roast".to_string()]),
        package_size_grams: qty(250.0),
        price: qty(12.5),
        price_currency: Some("EUR".to_string()),
        stock_units: 40,
    }
}

#[test]
fn product_request_becomes_record() {
    let req = product_request();
    let p: Product = req.clone().into();
    assert_eq!(p.id, None);
    assert_eq!(p.roast, req.roast);
    assert_eq!(p.name, "House Blend");
    assert_eq!(p.colours, req.colours);
    assert_eq!(p.price, qty(12.5));
    assert_eq!(p.stock_units, 40);
    assert_eq!(p.created_at, None);
    assert_eq!(p.updated_at, None);
    let mut kept = p.clone();
    kept.id = Some(RecordId { table: table_name(), key: "p1".to_string() });
    assert_eq!(create_product(Some(kept.clone())), Ok(kept.clone()));
    assert_eq!(get_product(Some(kept.clone())), Ok(kept));
}

#[test]
fn product_table_and_record_id() {
    assert_eq!(table_name(), "product");
    assert_eq!(make_record_id("p2"), ("product".to_string(), "p2".to_string()));
}

#[test]
fn product_merge_applies_every_present_field() {
    let before: Product = product_request().into();
    let now = Timestamp { seconds: 1_800_000_000, nanos: 0 };
    let update = UpdateProductRequest {
        category: Some("Ground".to_string()),
        colours: Some(vec!["Black".to_string(), "Gold".to_string()]),
        details: Some(Vec::new()),
        stock_units: Some(-3),
        price: Some(qty(13.0)),
        ..Default::default()
    };
    let after = merge_product(before.clone(), update, now);
    assert_eq!(after.category.as_deref(), Some("Ground"));
    assert_eq!(after.colours, Some(vec!["Black".to_string(), "Gold".to_string()]));
    assert_eq!(after.details, Some(Vec::new()));
    assert_eq!(after.stock_units, -3);
    assert_eq!(after.price, qty(13.0));
    assert_eq!(after.name, before.name);
    assert_eq!(after.description, before.description);
    assert_eq!(after.package_size_grams, before.package_size_grams);
    assert_eq!(after.roast, before.roast);
    assert_eq!(after.price_currency, before.price_currency);
    assert_eq!(after.updated_at, Some(now));
}

#[test]
fn product_update_stamps_current_time() {
    let before: Product = product_request().into();
    let update = UpdateProductRequest { name: Some("Decaf".to_string()), ..Default::default() };
    let after = update_product("p3", Some(before), update).unwrap();
    assert_eq!(after.name, "Decaf");
    assert!(after.updated_at.unwrap().seconds > 1_700_000_000);
}

#[test]
fn product_failures() {
    assert_eq!(get_product(None), Err(ApiError::NotFound { message: "Failed to get product record".to_string() }));
    assert_eq!(create_product(None), Err(ApiError::Internal { message: "Failed to create product record".to_string() }));
    assert_eq!(updated_product(None), Err(ApiError::Internal { message: "Failed to update product record".to_string() }));
    assert_eq!(
        update_product_at("p4", None, UpdateProductRequest::default(), Timestamp { seconds: 0, nanos: 0 }),
        Err(ApiError::NotFound { message: "Product with id 'p4' not found".to_string() })
    );
    assert_eq!(update_product("p4", None, UpdateProductRequest::default()).unwrap_err().into_response().status, 404);
}

#[test]
fn delete_product_confirms_or_reports_missing() {
    let p: Product = product_request().into();
    assert_eq!(delete_product("p5", Some(p)), Ok("Product deleted successfully".to_string()));
    assert_eq!(
        delete_product("p5", None),
        Err(ApiError::NotFound { message: "Product with id 'p5' not found".to_string() })
    );
}
