//! Product variants (`product.product`).

use vstd::prelude::*;

verus! {

/// The Odoo model of product variants.
pub const PRODUCT_PRODUCT_MODEL_NAME: &'static str = "product.product";

} // verus!
