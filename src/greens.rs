use vstd::prelude::*;

use crate::clock::current_time;
use crate::error::{
    error_status, fetched, is_not_found, missing_message, missing_text, written, ApiError,
    STATUS_NOT_FOUND,
};
use crate::green_coffee::{
    green_from_request, green_matches_request, green_merged, merge_green, CreateGreenCoffeeRequest,
    GreenCoffee, UpdateGreenCoffeeRequest,
};
use crate::model::Timestamp;

verus! {

/// The collection green coffee lots are stored in.
pub open spec fn green_table() -> Seq<char> {
    "green_coffee"@
}

/// The outcome of deleting a green coffee lot under `id`.
pub open spec fn green_removed(id: Seq<char>, deleted: Option<GreenCoffee>, r: Result<String, ApiError>) -> bool {
    match deleted {
        Some(_) => r matches Ok(m) && m@ == "Green coffee deleted successfully"@,
        None => is_not_found(r, missing_text("Green coffee"@, id)),
    }
}

/// The outcome of updating the lot under `id`, found as `existing`, at time `now`.
pub open spec fn green_update_outcome(
    id: Seq<char>,
    existing: Option<GreenCoffee>,
    update: UpdateGreenCoffeeRequest,
    now: Timestamp,
    r: Result<GreenCoffee, ApiError>,
) -> bool {
    match existing {
        Some(current) => r == Ok::<GreenCoffee, ApiError>(green_merged(current, update, now)),
        None => is_not_found(r, missing_text("Green coffee"@, id)),
    }
}

/// The name of the green coffee collection.
pub fn table_name() -> (r: String)
    ensures
        r@ == green_table(),
{
    "green_coffee".to_owned()
}

/// The storage key of the green coffee lot with identifier `id`.
pub fn make_record_id(id: &str) -> (r: (String, String))
    ensures
        r.0@ == green_table(),
        r.1@ == id@,
{
    (table_name(), id.to_owned())
}

/// The answer to a fetch, given what storage found.
pub fn get_green(found: Option<GreenCoffee>) -> (r: Result<GreenCoffee, ApiError>)
    ensures
        fetched(found, r, "Failed to get green coffee record"@),
{
    match found {
        Some(green) => Ok(green),
        None => Err(ApiError::NotFound { message: "Failed to get green coffee record".to_owned() }),
    }
}

/// The answer to a create, given what storage returned for the record
/// built from the request.
pub fn create_green(created: Option<GreenCoffee>) -> (r: Result<GreenCoffee, ApiError>)
    ensures
        written(created, r, "Failed to create green coffee record"@),
{
    match created {
        Some(green) => Ok(green),
        None => Err(ApiError::Internal { message: "Failed to create green coffee record".to_owned() }),
    }
}

/// The record to write back for an update of the lot under `id` at time
/// `now`, or not-found when storage holds no such lot.
pub fn update_green_at(
    id: &str,
    existing: Option<GreenCoffee>,
    update: UpdateGreenCoffeeRequest,
    now: Timestamp,
) -> (r: Result<GreenCoffee, ApiError>)
    ensures
        green_update_outcome(id@, existing, update, now, r),
{
    match existing {
        Some(green) => Ok(merge_green(green, update, now)),
        None => Err(ApiError::NotFound { message: missing_message("Green coffee", id) }),
    }
}

/// The record to write back for an update of the lot under `id`, stamped
/// with the current time (never before the Unix epoch), or not-found when
/// storage holds no such lot.
pub fn update_green(id: &str, existing: Option<GreenCoffee>, update: UpdateGreenCoffeeRequest) -> (r: Result<GreenCoffee, ApiError>)
    ensures
        match existing {
            Some(current) => r matches Ok(m) && m.updated_at matches Some(now) && m == green_merged(current, update, now)
                && now.seconds >= 0 && now.nanos < 1_000_000_000,
            None => is_not_found(r, missing_text("Green coffee"@, id@)),
        },
{
    let now = current_time();
    update_green_at(id, existing, update, now)
}

/// The answer to an update, given what storage returned for the merged record.
pub fn updated_green(updated: Option<GreenCoffee>) -> (r: Result<GreenCoffee, ApiError>)
    ensures
        written(updated, r, "Failed to update green coffee record"@),
{
    match updated {
        Some(green) => Ok(green),
        None => Err(ApiError::Internal { message: "Failed to update green coffee record".to_owned() }),
    }
}

/// The answer to a delete of the lot under `id`, given what storage removed:
/// a confirmation, or not-found when nothing was there.
pub fn delete_green(id: &str, deleted: Option<GreenCoffee>) -> (r: Result<String, ApiError>)
    ensures
        green_removed(id@, deleted, r),
{
    match deleted {
        Some(_) => Ok("Green coffee deleted successfully".to_owned()),
        None => Err(ApiError::NotFound { message: missing_message("Green coffee", id) }),
    }
}

/// Creating a green coffee lot and then fetching it under the identifier
/// storage assigned yields a record equal to the create request on every
/// field the client supplied. `stored` is the record built from the request
/// as storage keeps it, stamped with an identifier and timestamps; `created`
/// and `got` are the answers to the create and to the fetch that found it.
pub proof fn create_then_get_green(
    req: CreateGreenCoffeeRequest,
    stored: GreenCoffee,
    created: Result<GreenCoffee, ApiError>,
    got: Result<GreenCoffee, ApiError>,
)
    requires
        stored == (GreenCoffee {
            id: stored.id,
            created_at: stored.created_at,
            updated_at: stored.updated_at,
            ..green_from_request(req)
        }),
        written(Some(stored), created, "Failed to create green coffee record"@),
        fetched(Some(stored), got, "Failed to get green coffee record"@),
    ensures
        created matches Ok(c) && got matches Ok(g) && c.id == g.id && green_matches_request(g, req),
{
}

/// A partial update changes exactly the fields present in it and leaves
/// every other field, the identifier and the creation time as they were. The
/// update time is always set, so it changes whenever the record did not
/// already carry that very time.
pub proof fn update_merge_green(current: GreenCoffee, u: UpdateGreenCoffeeRequest, now: Timestamp)
    ensures
        ({
            let m = green_merged(current, u, now);
            &&& u.name matches Some(v) ==> m.name == v
            &&& u.name is None ==> m.name == current.name
            &&& u.origin_country matches Some(v) ==> m.origin_country == v
            &&& u.origin_country is None ==> m.origin_country == current.origin_country
            &&& u.region is Some ==> m.region == u.region
            &&& u.region is None ==> m.region == current.region
            &&& u.variety is Some ==> m.variety == u.variety
            &&& u.variety is None ==> m.variety == current.variety
            &&& u.processing_method is Some ==> m.processing_method == u.processing_method
            &&& u.processing_method is None ==> m.processing_method == current.processing_method
            &&& u.altitude_masl is Some ==> m.altitude_masl == u.altitude_masl
            &&& u.altitude_masl is None ==> m.altitude_masl == current.altitude_masl
            &&& u.harvest_year is Some ==> m.harvest_year == u.harvest_year
            &&& u.harvest_year is None ==> m.harvest_year == current.harvest_year
            &&& u.stock_grams matches Some(v) ==> m.stock_grams == v
            &&& u.stock_grams is None ==> m.stock_grams == current.stock_grams
            &&& u.price_per_kg is Some ==> m.price_per_kg == u.price_per_kg
            &&& u.price_per_kg is None ==> m.price_per_kg == current.price_per_kg
            &&& u.price_currency is Some ==> m.price_currency == u.price_currency
            &&& u.price_currency is None ==> m.price_currency == current.price_currency
            &&& u.supplier is Some ==> m.supplier == u.supplier
            &&& u.supplier is None ==> m.supplier == current.supplier
            &&& u.cupping_notes is Some ==> m.cupping_notes == u.cupping_notes
            &&& u.cupping_notes is None ==> m.cupping_notes == current.cupping_notes
            &&& m.id == current.id
            &&& m.created_at == current.created_at
            &&& m.updated_at == Some(now)
            &&& current.updated_at != Some(now) ==> m.updated_at != current.updated_at
        }),
{
}

/// Deleting a green coffee lot that does not exist always fails with
/// not-found, never another kind of error, and its envelope carries the
/// not-found status.
pub proof fn delete_missing_green(id: Seq<char>, r: Result<String, ApiError>)
    requires
        green_removed(id, None, r),
    ensures
        r matches Err(e) && e is NotFound && error_status(e) == STATUS_NOT_FOUND,
{
}

} // verus!
