//! Shapes of the values that the Odoo external APIs exchange.

pub mod command;
pub mod domain;
pub mod maybe_vec;
pub mod pagination;

use vstd::prelude::*;

verus! {

/// A field value as Odoo sends it: Odoo writes `false` for a field that
/// holds nothing, whatever the field's type.
#[derive(Debug, Clone)]
pub enum BoolOr<T> {
    Bool(bool),
    Value(T),
}

/// The value to keep for a field that Odoo may send as a boolean: any
/// boolean stands for "nothing" and gives `default`.
pub fn value_or_default<T>(value: BoolOr<T>, default: T) -> (res: T)
    ensures
        res == (match value {
            BoolOr::Bool(_) => default,
            BoolOr::Value(t) => t,
        }),
{
    match value {
        BoolOr::Bool(_) => default,
        BoolOr::Value(t) => t,
    }
}

} // verus!
