use vstd::prelude::*;

use crate::model::{overlay, overlay_optional, Quantity, RecordId, Timestamp};

verus! {

/// A finished product offered for sale, optionally made from a roast.
#[derive(Clone, Debug, PartialEq)]
pub struct Product {
    pub id: Option<RecordId>,
    /// The roast the product is packed from; never checked to exist.
    pub roast: Option<RecordId>,
    pub name: String,
    pub description: Option<String>,
    pub category: Option<String>,
    pub colours: Option<Vec<String>>,
    pub details: Option<Vec<String>>,
    pub package_size_grams: Quantity,
    pub price: Quantity,
    pub price_currency: Option<String>,
    pub stock_units: i32,
    pub created_at: Option<Timestamp>,
    pub updated_at: Option<Timestamp>,
}

/// The fields a client supplies to create a product.
#[derive(Clone, Debug, PartialEq)]
pub struct CreateProductRequest {
    pub roast: Option<RecordId>,
    pub name: String,
    pub description: Option<String>,
    pub category: Option<String>,
    pub colours: Option<Vec<String>>,
    pub details: Option<Vec<String>>,
    pub package_size_grams: Quantity,
    pub price: Quantity,
    pub price_currency: Option<String>,
    pub stock_units: i32,
}

/// A partial update of a product: every field present replaces the stored
/// value, every absent field leaves it as it is.
#[derive(Clone, Debug, PartialEq, Default)]
pub struct UpdateProductRequest {
    pub roast: Option<RecordId>,
    pub name: Option<String>,
    pub description: Option<String>,
    pub category: Option<String>,
    pub colours: Option<Vec<String>>,
    pub details: Option<Vec<String>>,
    pub package_size_grams: Option<Quantity>,
    pub price: Option<Quantity>,
    pub price_currency: Option<String>,
    pub stock_units: Option<i32>,
}

/// The record a create request describes: every client field copied, with
/// no identifier and no timestamps, which storage assigns.
pub open spec fn product_from_request(req: CreateProductRequest) -> Product {
    Product {
        id: None,
        roast: req.roast,
        name: req.name,
        description: req.description,
        category: req.category,
        colours: req.colours,
        details: req.details,
        package_size_grams: req.package_size_grams,
        price: req.price,
        price_currency: req.price_currency,
        stock_units: req.stock_units,
        created_at: None,
        updated_at: None,
    }
}

/// Whether a record holds, on every field a client supplies, what the
/// create request held.
pub open spec fn product_matches_request(p: Product, req: CreateProductRequest) -> bool {
    &&& p.roast == req.roast
    &&& p.name == req.name
    &&& p.description == req.description
    &&& p.category == req.category
    &&& p.colours == req.colours
    &&& p.details == req.details
    &&& p.package_size_grams == req.package_size_grams
    &&& p.price == req.price
    &&& p.price_currency == req.price_currency
    &&& p.stock_units == req.stock_units
}

/// The record after a partial update at time `now`.
pub open spec fn product_merged(p: Product, u: UpdateProductRequest, now: Timestamp) -> Product {
    Product {
        id: p.id,
        roast: overlay_optional(u.roast, p.roast),
        name: overlay(u.name, p.name),
        description: overlay_optional(u.description, p.description),
        category: overlay_optional(u.category, p.category),
        colours: overlay_optional(u.colours, p.colours),
        details: overlay_optional(u.details, p.details),
        package_size_grams: overlay(u.package_size_grams, p.package_size_grams),
        price: overlay(u.price, p.price),
        price_currency: overlay_optional(u.price_currency, p.price_currency),
        stock_units: overlay(u.stock_units, p.stock_units),
        created_at: p.created_at,
        updated_at: Some(now),
    }
}

impl From<CreateProductRequest> for Product {
    fn from(req: CreateProductRequest) -> (r: Product)
        ensures
            r == product_from_request(req),
    {
        Product {
            id: None,
            roast: req.roast,
            name: req.name,
            description: req.description,
            category: req.category,
            colours: req.colours,
            details: req.details,
            package_size_grams: req.package_size_grams,
            price: req.price,
            price_currency: req.price_currency,
            stock_units: req.stock_units,
            created_at: None,
            updated_at: None,
        }
    }
}

impl vstd::std_specs::convert::FromSpecImpl<CreateProductRequest> for Product {
    open spec fn obeys_from_spec() -> bool {
        true
    }

    open spec fn from_spec(req: CreateProductRequest) -> Product {
        product_from_request(req)
    }
}

/// Applies a partial update to a stored product: each field present in
/// `update` overwrites the record's field, all others stay, and the record
/// is stamped as updated at `now`.
pub fn merge_product(product: Product, update: UpdateProductRequest, now: Timestamp) -> (r: Product)
    ensures
        r == product_merged(product, update, now),
{
    let mut product = product;
    let UpdateProductRequest {
        roast,
        name,
        description,
        category,
        colours,
        details,
        package_size_grams,
        price,
        price_currency,
        stock_units,
    } = update;
    if let Some(v) = roast {
        product.roast = Some(v);
    }
    if let Some(v) = name {
        product.name = v;
    }
    if let Some(v) = description {
        product.description = Some(v);
    }
    if let Some(v) = category {
        product.category = Some(v);
    }
    if let Some(v) = colours {
        product.colours = Some(v);
    }
    if let Some(v) = details {
        product.details = Some(v);
    }
    if let Some(v) = package_size_grams {
        product.package_size_grams = v;
    }
    if let Some(v) = price {
        product.price = v;
    }
    if let Some(v) = price_currency {
        product.price_currency = Some(v);
    }
    if let Some(v) = stock_units {
        product.stock_units = v;
    }
    product.updated_at = Some(now);
    product
}

} // verus!
