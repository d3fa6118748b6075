use vstd::prelude::*;

use crate::model::{overlay, overlay_optional, Quantity, RecordId, Timestamp};

verus! {

/// A lot of unroasted coffee beans held in stock.
#[derive(Clone, Debug, PartialEq)]
pub struct GreenCoffee {
    pub id: Option<RecordId>,
    pub name: String,
    pub origin_country: String,
    pub region: Option<String>,
    pub variety: Option<String>,
    pub processing_method: Option<String>,
    pub altitude_masl: Option<i32>,
    pub harvest_year: Option<i32>,
    pub stock_grams: Quantity,
    pub price_per_kg: Option<Quantity>,
    pub price_currency: Option<String>,
    pub supplier: Option<String>,
    pub cupping_notes: Option<Vec<String>>,
    pub created_at: Option<Timestamp>,
    pub updated_at: Option<Timestamp>,
}

/// The fields a client supplies to create a green coffee lot.
#[derive(Clone, Debug, PartialEq)]
pub struct CreateGreenCoffeeRequest {
    pub name: String,
    pub origin_country: String,
    pub region: Option<String>,
    pub variety: Option<String>,
    pub processing_method: Option<String>,
    pub altitude_masl: Option<i32>,
    pub harvest_year: Option<i32>,
    pub stock_grams: Quantity,
    pub price_per_kg: Option<Quantity>,
    pub price_currency: Option<String>,
    pub supplier: Option<String>,
    pub cupping_notes: Option<Vec<String>>,
}

/// A partial update of a green coffee lot: every field present replaces the
/// stored value, every absent field leaves it as it is.
#[derive(Clone, Debug, PartialEq, Default)]
pub struct UpdateGreenCoffeeRequest {
    pub name: Option<String>,
    pub origin_country: Option<String>,
    pub region: Option<String>,
    pub variety: Option<String>,
    pub processing_method: Option<String>,
    pub altitude_masl: Option<i32>,
    pub harvest_year: Option<i32>,
    pub stock_grams: Option<Quantity>,
    pub price_per_kg: Option<Quantity>,
    pub price_currency: Option<String>,
    pub supplier: Option<String>,
    pub cupping_notes: Option<Vec<String>>,
}

/// The record a create request describes: every client field copied, with
/// no identifier and no timestamps, which storage assigns.
pub open spec fn green_from_request(req: CreateGreenCoffeeRequest) -> GreenCoffee {
    GreenCoffee {
        id: None,
        name: req.name,
        origin_country: req.origin_country,
        region: req.region,
        variety: req.variety,
        processing_method: req.processing_method,
        altitude_masl: req.altitude_masl,
        harvest_year: req.harvest_year,
        stock_grams: req.stock_grams,
        price_per_kg: req.price_per_kg,
        price_currency: req.price_currency,
        supplier: req.supplier,
        cupping_notes: req.cupping_notes,
        created_at: None,
        updated_at: None,
    }
}

/// Whether a record holds, on every field a client supplies, what the
/// create request held.
pub open spec fn green_matches_request(g: GreenCoffee, req: CreateGreenCoffeeRequest) -> bool {
    &&& g.name == req.name
    &&& g.origin_country == req.origin_country
    &&& g.region == req.region
    &&& g.variety == req.variety
    &&& g.processing_method == req.processing_method
    &&& g.altitude_masl == req.altitude_masl
    &&& g.harvest_year == req.harvest_year
    &&& g.stock_grams == req.stock_grams
    &&& g.price_per_kg == req.price_per_kg
    &&& g.price_currency == req.price_currency
    &&& g.supplier == req.supplier
    &&& g.cupping_notes == req.cupping_notes
}

/// The record after a partial update at time `now`.
pub open spec fn green_merged(g: GreenCoffee, u: UpdateGreenCoffeeRequest, now: Timestamp) -> GreenCoffee {
    GreenCoffee {
        id: g.id,
        name: overlay(u.name, g.name),
        origin_country: overlay(u.origin_country, g.origin_country),
        region: overlay_optional(u.region, g.region),
        variety: overlay_optional(u.variety, g.variety),
        processing_method: overlay_optional(u.processing_method, g.processing_method),
        altitude_masl: overlay_optional(u.altitude_masl, g.altitude_masl),
        harvest_year: overlay_optional(u.harvest_year, g.harvest_year),
        stock_grams: overlay(u.stock_grams, g.stock_grams),
        price_per_kg: overlay_optional(u.price_per_kg, g.price_per_kg),
        price_currency: overlay_optional(u.price_currency, g.price_currency),
        supplier: overlay_optional(u.supplier, g.supplier),
        cupping_notes: overlay_optional(u.cupping_notes, g.cupping_notes),
        created_at: g.created_at,
        updated_at: Some(now),
    }
}

impl From<CreateGreenCoffeeRequest> for GreenCoffee {
    fn from(req: CreateGreenCoffeeRequest) -> (r: GreenCoffee)
        ensures
            r == green_from_request(req),
    {
        GreenCoffee {
            id: None,
            name: req.name,
            origin_country: req.origin_country,
            region: req.region,
            variety: req.variety,
            processing_method: req.processing_method,
            altitude_masl: req.altitude_masl,
            harvest_year: req.harvest_year,
            stock_grams: req.stock_grams,
            price_per_kg: req.price_per_kg,
            price_currency: req.price_currency,
            supplier: req.supplier,
            cupping_notes: req.cupping_notes,
            created_at: None,
            updated_at: None,
        }
    }
}

impl vstd::std_specs::convert::FromSpecImpl<CreateGreenCoffeeRequest> for GreenCoffee {
    open spec fn obeys_from_spec() -> bool {
        true
    }

    open spec fn from_spec(req: CreateGreenCoffeeRequest) -> GreenCoffee {
        green_from_request(req)
    }
}

/// Applies a partial update to a stored record: each field present in
/// `update` overwrites the record's field, all others stay, and the record
/// is stamped as updated at `now`.
pub fn merge_green(green: GreenCoffee, update: UpdateGreenCoffeeRequest, now: Timestamp) -> (r: GreenCoffee)
    ensures
        r == green_merged(green, update, now),
{
    let mut green = green;
    let UpdateGreenCoffeeRequest {
        name,
        origin_country,
        region,
        variety,
        processing_method,
        altitude_masl,
        harvest_year,
        stock_grams,
        price_per_kg,
        price_currency,
        supplier,
        cupping_notes,
    } = update;
    if let Some(v) = name {
        green.name = v;
    }
    if let Some(v) = origin_country {
        green.origin_country = v;
    }
    if let Some(v) = region {
        green.region = Some(v);
    }
    if let Some(v) = variety {
        green.variety = Some(v);
    }
    if let Some(v) = processing_method {
        green.processing_method = Some(v);
    }
    if let Some(v) = altitude_masl {
        green.altitude_masl = Some(v);
    }
    if let Some(v) = harvest_year {
        green.harvest_year = Some(v);
    }
    if let Some(v) = stock_grams {
        green.stock_grams = v;
    }
    if let Some(v) = price_per_kg {
        green.price_per_kg = Some(v);
    }
    if let Some(v) = price_currency {
        green.price_currency = Some(v);
    }
    if let Some(v) = supplier {
        green.supplier = Some(v);
    }
    if let Some(v) = cupping_notes {
        green.cupping_notes = Some(v);
    }
    green.updated_at = Some(now);
    green
}

} // verus!
