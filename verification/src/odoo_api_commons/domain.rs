//! Search domains: conditions on the fields of records.

pub mod operators;

use vstd::prelude::*;

verus! {

/// One condition of a search domain: field, operator and value.
#[derive(Debug, Clone)]
pub struct Domain(pub String, pub String, pub serde_json::Value);

impl Domain {
    /// The condition `field operator value`.
    pub fn new(field: String, operator: String, value: serde_json::Value) -> (res: Domain)
        ensures
            res.0 == field,
            res.1 == operator,
            res.2 == value,
    {
        Domain(field, operator, value)
    }
}

} // verus!
