//! Odoo 18 product tags (`product.tag`) mapped to Odoo 19 tags.

use vstd::prelude::*;

use crate::utils::id_mapping::{map_lookup, map_record, IdMapping};

verus! {

/// Odoo 18 product tags (`product.tag`) mapped to Odoo 19 tags.
///
/// An identifier is resolved once; later requests for it are answered from
/// here.
#[derive(Debug)]
pub struct ProductTagCache(IdMapping);

impl View for ProductTagCache {
    type V = Map<u64, u64>;

    closed spec fn view(&self) -> Map<u64, u64> {
        self.0@
    }
}

impl ProductTagCache {
    /// The empty cache.
    pub fn new() -> (res: ProductTagCache)
        ensures
            res@ == Map::<u64, u64>::empty(),
    {
        ProductTagCache(IdMapping::new())
    }

    /// The Odoo 19 identifier already found for `id_from_18`, if any.
    pub fn lookup(&self, id_from_18: u64) -> (res: Option<u64>)
        ensures
            res == map_lookup(self@, id_from_18),
    {
        self.0.lookup(id_from_18)
    }

    /// Remembers that `id_from_18` stands for `id_in_19` (unless it is
    /// already known) and returns the identifier it stands for.
    pub fn record(&mut self, id_from_18: u64, id_in_19: u64) -> (res: u64)
        ensures
            final(self)@ == map_record(old(self)@, id_from_18, id_in_19),
            res == map_record(old(self)@, id_from_18, id_in_19)[id_from_18],
    {
        self.0.record(id_from_18, id_in_19)
    }
}

impl Default for ProductTagCache {
    fn default() -> (res: ProductTagCache)
        ensures
            res@ == Map::<u64, u64>::empty(),
    {
        ProductTagCache::new()
    }
}

} // verus!
