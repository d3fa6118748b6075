use vstd::prelude::*;

use crate::model::{overlay, overlay_optional, Quantity, RecordId, Timestamp};

verus! {

/// One roasting batch, optionally made from a green coffee lot.
#[derive(Clone, Debug, PartialEq)]
pub struct Roast {
    pub id: Option<RecordId>,
    pub name: String,
    /// The green coffee lot roasted; never checked to exist.
    pub green_coffee: Option<RecordId>,
    pub date_roasted: Option<Timestamp>,
    pub roast_level: String,
    pub batch_size_grams: Quantity,
    pub yield_grams: Quantity,
    pub notes: Option<Vec<String>>,
    pub created_at: Option<Timestamp>,
    pub updated_at: Option<Timestamp>,
}

/// The fields a client supplies to record a roast.
#[derive(Clone, Debug, PartialEq)]
pub struct CreateRoastRequest {
    pub name: String,
    pub green_coffee: Option<RecordId>,
    pub date_roasted: Option<Timestamp>,
    pub roast_level: String,
    pub batch_size_grams: Quantity,
    pub yield_grams: Quantity,
    pub notes: Option<Vec<String>>,
}

/// A partial update of a roast: every field present replaces the stored
/// value, every absent field leaves it as it is.
#[derive(Clone, Debug, PartialEq, Default)]
pub struct UpdateRoastRequest {
    pub name: Option<String>,
    pub green_coffee: Option<RecordId>,
    pub date_roasted: Option<Timestamp>,
    pub roast_level: Option<String>,
    pub batch_size_grams: Option<Quantity>,
    pub yield_grams: Option<Quantity>,
    pub notes: Option<Vec<String>>,
}

/// The record a create request describes: every client field copied, with
/// no identifier and no timestamps, which storage assigns.
pub open spec fn roast_from_request(req: CreateRoastRequest) -> Roast {
    Roast {
        id: None,
        name: req.name,
        green_coffee: req.green_coffee,
        date_roasted: req.date_roasted,
        roast_level: req.roast_level,
        batch_size_grams: req.batch_size_grams,
        yield_grams: req.yield_grams,
        notes: req.notes,
        created_at: None,
        updated_at: None,
    }
}

/// Whether a record holds, on every field a client supplies, what the
/// create request held.
pub open spec fn roast_matches_request(r: Roast, req: CreateRoastRequest) -> bool {
    &&& r.name == req.name
    &&& r.green_coffee == req.green_coffee
    &&& r.date_roasted == req.date_roasted
    &&& r.roast_level == req.roast_level
    &&& r.batch_size_grams == req.batch_size_grams
    &&& r.yield_grams == req.yield_grams
    &&& r.notes == req.notes
}

/// The record after a partial update at time `now`.
pub open spec fn roast_merged(r: Roast, u: UpdateRoastRequest, now: Timestamp) -> Roast {
    Roast {
        id: r.id,
        name: overlay(u.name, r.name),
        green_coffee: overlay_optional(u.green_coffee, r.green_coffee),
        date_roasted: overlay_optional(u.date_roasted, r.date_roasted),
        roast_level: overlay(u.roast_level, r.roast_level),
        batch_size_grams: overlay(u.batch_size_grams, r.batch_size_grams),
        yield_grams: overlay(u.yield_grams, r.yield_grams),
        notes: overlay_optional(u.notes, r.notes),
        created_at: r.created_at,
        updated_at: Some(now),
    }
}

impl From<CreateRoastRequest> for Roast {
    fn from(req: CreateRoastRequest) -> (r: Roast)
        ensures
            r == roast_from_request(req),
    {
        Roast {
            id: None,
            name: req.name,
            green_coffee: req.green_coffee,
            date_roasted: req.date_roasted,
            roast_level: req.roast_level,
            batch_size_grams: req.batch_size_grams,
            yield_grams: req.yield_grams,
            notes: req.notes,
            created_at: None,
            updated_at: None,
        }
    }
}

impl vstd::std_specs::convert::FromSpecImpl<CreateRoastRequest> for Roast {
    open spec fn obeys_from_spec() -> bool {
        true
    }

    open spec fn from_spec(req: CreateRoastRequest) -> Roast {
        roast_from_request(req)
    }
}

/// Applies a partial update to a stored roast: each field present in
/// `update` overwrites the record's field, all others stay, and the record
/// is stamped as updated at `now`.
pub fn merge_roast(roast: Roast, update: UpdateRoastRequest, now: Timestamp) -> (r: Roast)
    ensures
        r == roast_merged(roast, update, now),
{
    let mut roast = roast;
    let UpdateRoastRequest {
        name,
        green_coffee,
        date_roasted,
        roast_level,
        batch_size_grams,
        yield_grams,
        notes,
    } = update;
    if let Some(v) = name {
        roast.name = v;
    }
    if let Some(v) = green_coffee {
        roast.green_coffee = Some(v);
    }
    if let Some(v) = date_roasted {
        roast.date_roasted = Some(v);
    }
    if let Some(v) = roast_level {
        roast.roast_level = v;
    }
    if let Some(v) = batch_size_grams {
        roast.batch_size_grams = v;
    }
    if let Some(v) = yield_grams {
        roast.yield_grams = v;
    }
    if let Some(v) = notes {
        roast.notes = Some(v);
    }
    roast.updated_at = Some(now);
    roast
}

} // verus!
