use vstd::prelude::*;

use crate::clock::current_time;
use crate::error::{
    error_status, fetched, is_not_found, missing_message, missing_text, written, ApiError,
    STATUS_NOT_FOUND,
};
use crate::roast::{
    roast_from_request, roast_matches_request, roast_merged, merge_roast, CreateRoastRequest,
    Roast, UpdateRoastRequest,
};
use crate::model::Timestamp;

verus! {

/// The collection roasts are stored in.
pub open spec fn roast_table() -> Seq<char> {
    "roast"@
}

/// The outcome of deleting a roast under `id`.
pub open spec fn roast_removed(id: Seq<char>, deleted: Option<Roast>, r: Result<String, ApiError>) -> bool {
    match deleted {
        Some(_) => r matches Ok(m) && m@ == "Roast deleted successfully"@,
        None => is_not_found(r, missing_text("Roast"@, id)),
    }
}

/// The outcome of updating the roast under `id`, found as `existing`, at time `now`.
pub open spec fn roast_update_outcome(
    id: Seq<char>,
    existing: Option<Roast>,
    update: UpdateRoastRequest,
    now: Timestamp,
    r: Result<Roast, ApiError>,
) -> bool {
    match existing {
        Some(current) => r == Ok::<Roast, ApiError>(roast_merged(current, update, now)),
        None => is_not_found(r, missing_text("Roast"@, id)),
    }
}

/// The name of the roast collection.
pub fn table_name() -> (r: String)
    ensures
        r@ == roast_table(),
{
    "roast".to_owned()
}

/// The storage key of the roast with identifier `id`.
pub fn make_record_id(id: &str) -> (r: (String, String))
    ensures
        r.0@ == roast_table(),
        r.1@ == id@,
{
    (table_name(), id.to_owned())
}

/// The answer to a fetch, given what storage found.
pub fn get_roast(found: Option<Roast>) -> (r: Result<Roast, ApiError>)
    ensures
        fetched(found, r, "Failed to get roast record"@),
{
    match found {
        Some(roast) => Ok(roast),
        None => Err(ApiError::NotFound { message: "Failed to get roast record".to_owned() }),
    }
}

/// The answer to a create, given what storage returned for the record
/// built from the request.
pub fn create_roast(created: Option<Roast>) -> (r: Result<Roast, ApiError>)
    ensures
        written(created, r, "Failed to create roast record"@),
{
    match created {
        Some(roast) => Ok(roast),
        None => Err(ApiError::Internal { message: "Failed to create roast record".to_owned() }),
    }
}

/// The record to write back for an update of the roast under `id` at time
/// `now`, or not-found when storage holds no such roast.
pub fn update_roast_at(
    id: &str,
    existing: Option<Roast>,
    update: UpdateRoastRequest,
    now: Timestamp,
) -> (r: Result<Roast, ApiError>)
    ensures
        roast_update_outcome(id@, existing, update, now, r),
{
    match existing {
        Some(roast) => Ok(merge_roast(roast, update, now)),
        None => Err(ApiError::NotFound { message: missing_message("Roast", id) }),
    }
}

/// The record to write back for an update of the roast under `id`, stamped
/// with the current time (never before the Unix epoch), or not-found when
/// storage holds no such roast.
pub fn update_roast(id: &str, existing: Option<Roast>, update: UpdateRoastRequest) -> (r: Result<Roast, ApiError>)
    ensures
        match existing {
            Some(current) => r matches Ok(m) && m.updated_at matches Some(now) && m == roast_merged(current, update, now)
                && now.seconds >= 0 && now.nanos < 1_000_000_000,
            None => is_not_found(r, missing_text("Roast"@, id@)),
        },
{
    let now = current_time();
    update_roast_at(id, existing, update, now)
}

/// The answer to an update, given what storage returned for the merged record.
pub fn updated_roast(updated: Option<Roast>) -> (r: Result<Roast, ApiError>)
    ensures
        written(updated, r, "Failed to update roast record"@),
{
    match updated {
        Some(roast) => Ok(roast),
        None => Err(ApiError::Internal { message: "Failed to update roast record".to_owned() }),
    }
}

/// The answer to a delete of the roast under `id`, given what storage removed:
/// a confirmation, or not-found when nothing was there.
pub fn delete_roast(id: &str, deleted: Option<Roast>) -> (r: Result<String, ApiError>)
    ensures
        roast_removed(id@, deleted, r),
{
    match deleted {
        Some(_) => Ok("Roast deleted successfully".to_owned()),
        None => Err(ApiError::NotFound { message: missing_message("Roast", id) }),
    }
}


/// Creating a roast and then fetching it under the identifier storage
/// assigned yields a record equal to the create request on every field the
/// client supplied. `stored` is the record built from the request as storage
/// keeps it, stamped with an identifier and timestamps; `created` and `got`
/// are the answers to the create and to the fetch that found it.
pub proof fn create_then_get_roast(
    req: CreateRoastRequest,
    stored: Roast,
    created: Result<Roast, ApiError>,
    got: Result<Roast, ApiError>,
)
    requires
        stored == (Roast {
            id: stored.id,
            created_at: stored.created_at,
            updated_at: stored.updated_at,
            ..roast_from_request(req)
        }),
        written(Some(stored), created, "Failed to create roast record"@),
        fetched(Some(stored), got, "Failed to get roast record"@),
    ensures
        created matches Ok(c) && got matches Ok(g) && c.id == g.id && roast_matches_request(g, req),
{
}

/// A partial update changes exactly the fields present in it and leaves
/// every other field, the identifier and the creation time as they were. The
/// update time is always set, so it changes whenever the record did not
/// already carry that very time.
pub proof fn update_merge_roast(current: Roast, u: UpdateRoastRequest, now: Timestamp)
    ensures
        ({
            let m = roast_merged(current, u, now);
            &&& u.name matches Some(v) ==> m.name == v
            &&& u.name is None ==> m.name == current.name
            &&& u.roast_level matches Some(v) ==> m.roast_level == v
            &&& u.roast_level is None ==> m.roast_level == current.roast_level
            &&& u.batch_size_grams matches Some(v) ==> m.batch_size_grams == v
            &&& u.batch_size_grams is None ==> m.batch_size_grams == current.batch_size_grams
            &&& u.yield_grams matches Some(v) ==> m.yield_grams == v
            &&& u.yield_grams is None ==> m.yield_grams == current.yield_grams
            &&& u.green_coffee is Some ==> m.green_coffee == u.green_coffee
            &&& u.green_coffee is None ==> m.green_coffee == current.green_coffee
            &&& u.date_roasted is Some ==> m.date_roasted == u.date_roasted
            &&& u.date_roasted is None ==> m.date_roasted == current.date_roasted
            &&& u.notes is Some ==> m.notes == u.notes
            &&& u.notes is None ==> m.notes == current.notes
            &&& m.id == current.id
            &&& m.created_at == current.created_at
            &&& m.updated_at == Some(now)
            &&& current.updated_at != Some(now) ==> m.updated_at != current.updated_at
        }),
{
}

/// Deleting a roast that does not exist always fails with not-found, never
/// another kind of error, and its envelope carries the not-found status.
pub proof fn delete_missing_roast(id: Seq<char>, r: Result<String, ApiError>)
    requires
        roast_removed(id, None, r),
    ensures
        r matches Err(e) && e is NotFound && error_status(e) == STATUS_NOT_FOUND,
{
}

/// A roast naming any green coffee lot, one that exists or not, is accepted:
/// the record handed to storage carries the reference unchanged, and the
/// create succeeds whenever storage returns the record it stored.
pub proof fn dangling_green_coffee_accepted(
    req: CreateRoastRequest,
    stored: Roast,
    created: Result<Roast, ApiError>,
)
    requires
        stored == (Roast {
            id: stored.id,
            created_at: stored.created_at,
            updated_at: stored.updated_at,
            ..roast_from_request(req)
        }),
        written(Some(stored), created, "Failed to create roast record"@),
    ensures
        roast_from_request(req).green_coffee == req.green_coffee,
        created matches Ok(c) && c.green_coffee == req.green_coffee,
{
}

} // verus!
