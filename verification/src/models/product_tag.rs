//! Product tags (`product.tag`).

use vstd::prelude::*;


verus! {

/// The Odoo model of product tags.
pub const PRODUCT_TAG_MODEL_NAME: &'static str = "product.tag";

/// A product tag as it is read from Odoo 18.
#[derive(Debug, Clone)]
pub struct ProductTag {
    pub id: u64,
    pub name: String,
    pub sequence: Option<u16>,
    pub color: Option<String>,
}

/// A product tag as it is created in Odoo 19.
#[derive(Debug, Clone)]
pub struct ProductTagToOdoo19 {
    pub name: String,
    pub sequence: Option<u16>,
    pub color: Option<String>,
    pub visible_to_customers: bool,
}

impl ProductTagToOdoo19 {
    /// The Odoo 19 tag created for an Odoo 18 tag: the same name, sequence
    /// and color, not shown to customers.
    pub fn from_odoo_18(tag: ProductTag) -> (res: ProductTagToOdoo19)
        ensures
            res.name == tag.name,
            res.sequence == tag.sequence,
            res.color == tag.color,
            !res.visible_to_customers,
    {
        ProductTagToOdoo19 {
            name: tag.name,
            sequence: tag.sequence,
            color: tag.color,
            visible_to_customers: false,
        }
    }
}

} // verus!
