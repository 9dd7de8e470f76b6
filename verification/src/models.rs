//! The records that are read from Odoo 18 and written to Odoo 19.

pub mod account_account;
pub mod account_journal;
pub mod account_move;
pub mod account_move_line;
pub mod account_tax;
pub mod crm_lead;
pub mod crm_stage;
pub mod hr_employee;
pub mod product_product;
pub mod product_tag;
pub mod product_template;
pub mod resource_resource;
pub mod sales_order;
pub mod sales_order_line;

use vstd::prelude::*;

verus! {

/// A reference to a record as Odoo sends it: the pair `[id, display name]`.
#[derive(Debug, Clone)]
pub struct Many2OneRepr {
    pub id: u64,
    pub name: String,
}

impl Many2OneRepr {
    /// The reference that the pair `[id, name]` stands for.
    pub fn from_pair(pair: (u64, String)) -> (res: Many2OneRepr)
        ensures
            res.id == pair.0,
            res.name == pair.1,
    {
        Many2OneRepr { id: pair.0, name: pair.1 }
    }

    /// The pair `[id, name]` that stands for the reference.
    pub fn as_pair(&self) -> (res: (u64, &String))
        ensures
            res.0 == self.id,
            res.1 == self.name,
    {
        (self.id, &self.name)
    }
}

/// A record read for its identifier and name only.
#[derive(Debug, Clone)]
pub struct IdNameRepr {
    pub id: u64,
    pub name: String,
}

} // verus!
