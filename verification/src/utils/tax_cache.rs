//! Odoo 18 taxes (`account.tax`) mapped to Odoo 19 taxes.

use vstd::prelude::*;

use crate::utils::id_mapping::{map_lookup, map_record, IdMapping};

verus! {

/// Odoo 18 taxes (`account.tax`) mapped to Odoo 19 taxes.
///
/// An identifier is resolved once; later requests for it are answered from
/// here.
#[derive(Debug)]
pub struct TaxMappingCache(IdMapping);

impl View for TaxMappingCache {
    type V = Map<u64, u64>;

    closed spec fn view(&self) -> Map<u64, u64> {
        self.0@
    }
}

impl TaxMappingCache {
    /// The empty cache.
    pub fn new() -> (res: TaxMappingCache)
        ensures
            res@ == Map::<u64, u64>::empty(),
    {
        TaxMappingCache(IdMapping::new())
    }

    /// The Odoo 19 identifier already found for `id_from_18`, if any.
    pub fn lookup(&self, id_from_18: u64) -> (res: Option<u64>)
        ensures
            res == map_lookup(self@, id_from_18),
    {
        self.0.lookup(id_from_18)
    }

    /// Remembers that `id_from_18` stands for `id_in_19` (unless it is
    /// already known) and returns the identifier it stands for.
    pub fn record(&mut self, id_from_18: u64, id_in_19: u64) -> (res: u64)
        ensures
            final(self)@ == map_record(old(self)@, id_from_18, id_in_19),
            res == map_record(old(self)@, id_from_18, id_in_19)[id_from_18],
    {
        self.0.record(id_from_18, id_in_19)
    }
}

impl Default for TaxMappingCache {
    fn default() -> (res: TaxMappingCache)
        ensures
            res@ == Map::<u64, u64>::empty(),
    {
        TaxMappingCache::new()
    }
}

} // verus!
