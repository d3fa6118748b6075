//! Record management for a coffee roastery: green coffee lots, roasts and
//! finished products. Each entity module holds the record, its create and
//! update requests, and the partial-update merge; each handler module holds
//! the decisions of the five operations (list, get, create, update, delete)
//! around one storage call, and the error mapper turns failures into the
//! client's error envelope.

mod clock;
pub mod error;
pub mod model;
pub mod green_coffee;
pub mod greens;
pub mod roast;
pub mod roasts;
pub mod product;
pub mod products;
