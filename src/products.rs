use vstd::prelude::*;

use crate::clock::current_time;
use crate::error::{
    error_status, fetched, is_not_found, missing_message, missing_text, written, ApiError,
    STATUS_NOT_FOUND,
};
use crate::product::{
    product_from_request, product_matches_request, product_merged, merge_product, CreateProductRequest,
    Product, UpdateProductRequest,
};
use crate::model::Timestamp;

verus! {

/// The collection products are stored in.
pub open spec fn product_table() -> Seq<char> {
    "product"@
}

/// The outcome of deleting a product under `id`.
pub open spec fn product_removed(id: Seq<char>, deleted: Option<Product>, r: Result<String, ApiError>) -> bool {
    match deleted {
        Some(_) => r matches Ok(m) && m@ == "Product deleted successfully"@,
        None => is_not_found(r, missing_text("Product"@, id)),
    }
}

/// The outcome of updating the product under `id`, found as `existing`, at time `now`.
pub open spec fn product_update_outcome(
    id: Seq<char>,
    existing: Option<Product>,
    update: UpdateProductRequest,
    now: Timestamp,
    r: Result<Product, ApiError>,
) -> bool {
    match existing {
        Some(current) => r == Ok::<Product, ApiError>(product_merged(current, update, now)),
        None => is_not_found(r, missing_text("Product"@, id)),
    }
}

/// The name of the product collection.
pub fn table_name() -> (r: String)
    ensures
        r@ == product_table(),
{
    "product".to_owned()
}

/// The storage key of the product with identifier `id`.
pub fn make_record_id(id: &str) -> (r: (String, String))
    ensures
        r.0@ == product_table(),
        r.1@ == id@,
{
    (table_name(), id.to_owned())
}

/// The answer to a fetch, given what storage found.
pub fn get_product(found: Option<Product>) -> (r: Result<Product, ApiError>)
    ensures
        fetched(found, r, "Failed to get product record"@),
{
    match found {
        Some(product) => Ok(product),
        None => Err(ApiError::NotFound { message: "Failed to get product record".to_owned() }),
    }
}

/// The answer to a create, given what storage returned for the record
/// built from the request.
pub fn create_product(created: Option<Product>) -> (r: Result<Product, ApiError>)
    ensures
        written(created, r, "Failed to create product record"@),
{
    match created {
        Some(product) => Ok(product),
        None => Err(ApiError::Internal { message: "Failed to create product record".to_owned() }),
    }
}

/// The record to write back for an update of the product under `id` at time
/// `now`, or not-found when storage holds no such product.
pub fn update_product_at(
    id: &str,
    existing: Option<Product>,
    update: UpdateProductRequest,
    now: Timestamp,
) -> (r: Result<Product, ApiError>)
    ensures
        product_update_outcome(id@, existing, update, now, r),
{
    match existing {
        Some(product) => Ok(merge_product(product, update, now)),
        None => Err(ApiError::NotFound { message: missing_message("Product", id) }),
    }
}

/// The record to write back for an update of the product under `id`, stamped
/// with the current time (never before the Unix epoch), or not-found when
/// storage holds no such product.
pub fn update_product(id: &str, existing: Option<Product>, update: UpdateProductRequest) -> (r: Result<Product, ApiError>)
    ensures
        match existing {
            Some(current) => r matches Ok(m) && m.updated_at matches Some(now) && m == product_merged(current, update, now)
                && now.seconds >= 0 && now.nanos < 1_000_000_000,
            None => is_not_found(r, missing_text("Product"@, id@)),
        },
{
    let now = current_time();
    update_product_at(id, existing, update, now)
}

/// The answer to an update, given what storage returned for the merged record.
pub fn updated_product(updated: Option<Product>) -> (r: Result<Product, ApiError>)
    ensures
        written(updated, r, "Failed to update product record"@),
{
    match updated {
        Some(product) => Ok(product),
        None => Err(ApiError::Internal { message: "Failed to update product record".to_owned() }),
    }
}

/// The answer to a delete of the product under `id`, given what storage removed:
/// a confirmation, or not-found when nothing was there.
pub fn delete_product(id: &str, deleted: Option<Product>) -> (r: Result<String, ApiError>)
    ensures
        product_removed(id@, deleted, r),
{
    match deleted {
        Some(_) => Ok("Product deleted successfully".to_owned()),
        None => Err(ApiError::NotFound { message: missing_message("Product", id) }),
    }
}


/// Creating a product and then fetching it under the identifier storage
/// assigned yields a record equal to the create request on every field the
/// client supplied. `stored` is the record built from the request as storage
/// keeps it, stamped with an identifier and timestamps; `created` and `got`
/// are the answers to the create and to the fetch that found it.
pub proof fn create_then_get_product(
    req: CreateProductRequest,
    stored: Product,
    created: Result<Product, ApiError>,
    got: Result<Product, ApiError>,
)
    requires
        stored == (Product {
            id: stored.id,
            created_at: stored.created_at,
            updated_at: stored.updated_at,
            ..product_from_request(req)
        }),
        written(Some(stored), created, "Failed to create product record"@),
        fetched(Some(stored), got, "Failed to get product record"@),
    ensures
        created matches Ok(c) && got matches Ok(g) && c.id == g.id && product_matches_request(g, req),
{
}

/// A partial update changes exactly the fields present in it and leaves
/// every other field, the identifier and the creation time as they were. The
/// update time is always set, so it changes whenever the record did not
/// already carry that very time.
pub proof fn update_merge_product(current: Product, u: UpdateProductRequest, now: Timestamp)
    ensures
        ({
            let m = product_merged(current, u, now);
            &&& u.name matches Some(v) ==> m.name == v
            &&& u.name is None ==> m.name == current.name
            &&& u.package_size_grams matches Some(v) ==> m.package_size_grams == v
            &&& u.package_size_grams is None ==> m.package_size_grams == current.package_size_grams
            &&& u.price matches Some(v) ==> m.price == v
            &&& u.price is None ==> m.price == current.price
            &&& u.stock_units matches Some(v) ==> m.stock_units == v
            &&& u.stock_units is None ==> m.stock_units == current.stock_units
            &&& u.roast is Some ==> m.roast == u.roast
            &&& u.roast is None ==> m.roast == current.roast
            &&& u.description is Some ==> m.description == u.description
            &&& u.description is None ==> m.description == current.description
            &&& u.category is Some ==> m.category == u.category
            &&& u.category is None ==> m.category == current.category
            &&& u.colours is Some ==> m.colours == u.colours
            &&& u.colours is None ==> m.colours == current.colours
            &&& u.details is Some ==> m.details == u.details
            &&& u.details is None ==> m.details == current.details
            &&& u.price_currency is Some ==> m.price_currency == u.price_currency
            &&& u.price_currency is None ==> m.price_currency == current.price_currency
            &&& m.id == current.id
            &&& m.created_at == current.created_at
            &&& m.updated_at == Some(now)
            &&& current.updated_at != Some(now) ==> m.updated_at != current.updated_at
        }),
{
}

/// Deleting a product that does not exist always fails with not-found, never
/// another kind of error, and its envelope carries the not-found status.
pub proof fn delete_missing_product(id: Seq<char>, r: Result<String, ApiError>)
    requires
        product_removed(id, None, r),
    ensures
        r matches Err(e) && e is NotFound && error_status(e) == STATUS_NOT_FOUND,
{
}

} // verus!
