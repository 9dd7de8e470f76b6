//! Odoo 18 contacts (`res.partner`) mapped to Odoo 19 contacts.

use vstd::prelude::*;

use crate::utils::id_mapping::{map_lookup, map_record, mapping_step_spec, IdMapping, MappingStep};

verus! {

/// Odoo 18 contacts (`res.partner`) mapped to Odoo 19 contacts.
///
/// An identifier is resolved once; later requests for it are answered from
/// here.
#[derive(Debug)]
pub struct PartnerMappingCache(IdMapping);

impl View for PartnerMappingCache {
    type V = Map<u64, u64>;

    closed spec fn view(&self) -> Map<u64, u64> {
        self.0@
    }
}

impl PartnerMappingCache {
    /// The empty cache.
    pub fn new() -> (res: PartnerMappingCache)
        ensures
            res@ == Map::<u64, u64>::empty(),
    {
        PartnerMappingCache(IdMapping::new())
    }

    /// The Odoo 19 identifier already found for `id_from_18`, if any.
    pub fn lookup(&self, id_from_18: u64) -> (res: Option<u64>)
        ensures
            res == map_lookup(self@, id_from_18),
    {
        self.0.lookup(id_from_18)
    }

    /// What resolving `id_from_18` takes, given the name that came with
    /// it, if any.
    pub fn begin_mapping(&self, id_from_18: u64, name_from_18: Option<String>) -> (res: MappingStep)
        ensures
            res == mapping_step_spec(self@, id_from_18, name_from_18),
    {
        self.0.begin_mapping(id_from_18, name_from_18)
    }

    /// Remembers that `id_from_18` stands for `id_in_19` (unless it is
    /// already known) and returns the identifier it stands for.
    pub fn record(&mut self, id_from_18: u64, id_in_19: u64) -> (res: u64)
        ensures
            final(self)@ == map_record(old(self)@, id_from_18, id_in_19),
            res == map_record(old(self)@, id_from_18, id_in_19)[id_from_18],
    {
        self.0.record(id_from_18, id_in_19)
    }
}

impl Default for PartnerMappingCache {
    fn default() -> (res: PartnerMappingCache)
        ensures
            res@ == Map::<u64, u64>::empty(),
    {
        PartnerMappingCache::new()
    }
}

} // verus!
