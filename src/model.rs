use vstd::prelude::*;

verus! {

/// A measured or monetary quantity, carried as the IEEE-754 binary64 bit
/// pattern that the client supplied. The library never does arithmetic on it.
#[derive(Clone, Copy, Debug, PartialEq, Eq, Structural)]
pub struct Quantity {
    pub bits: u64,
}

/// A point in time as seconds and nanoseconds since the Unix epoch (UTC).
#[derive(Clone, Copy, Debug, PartialEq, Eq, Structural)]
pub struct Timestamp {
    pub seconds: i64,
    pub nanos: u32,
}

/// A record identifier: the collection it lives in and its key there.
#[derive(Clone, Debug, PartialEq, Eq)]
pub struct RecordId {
    pub table: String,
    pub key: String,
}

/// The value a field takes after a partial update of a required field.
pub open spec fn overlay<T>(update: Option<T>, current: T) -> T {
    match update {
        Some(v) => v,
        None => current,
    }
}

/// The value a field takes after a partial update of an optional field:
/// a supplied value replaces it, an absent one never clears it.
pub open spec fn overlay_optional<T>(update: Option<T>, current: Option<T>) -> Option<T> {
    match update {
        Some(v) => Some(v),
        None => current,
    }
}

} // verus!
