//! Memoised correspondence between Odoo 18 and Odoo 19 record identifiers.

use vstd::prelude::*;

verus! {

broadcast use vstd::std_specs::btree::group_btree_axioms;

/// The mapping after `record(id_from_18, id_in_19)`: an identifier that is
/// already mapped keeps its target, any other gets the new one.
pub open spec fn map_record(m: Map<u64, u64>, id_from_18: u64, id_in_19: u64) -> Map<u64, u64> {
    if m.contains_key(id_from_18) {
        m
    } else {
        m.insert(id_from_18, id_in_19)
    }
}

/// The target recorded for `id_from_18`, if any.
pub open spec fn map_lookup(m: Map<u64, u64>, id_from_18: u64) -> Option<u64> {
    if m.contains_key(id_from_18) {
        Some(m[id_from_18])
    } else {
        None
    }
}

/// Where the name of an Odoo 18 record comes from.
#[derive(Debug, Clone, PartialEq, Eq)]
pub enum NameSource {
    /// The name came with the reference to the record.
    Given(String),
    /// The name has to be read from the Odoo 18 record with this identifier.
    ReadFromOdoo18(u64),
}

/// What resolving an Odoo 18 identifier takes.
#[derive(Debug, Clone, PartialEq, Eq)]
pub enum MappingStep {
    /// It is already known to stand for this Odoo 19 identifier.
    Known(u64),
    /// The Odoo 19 record of that name has to be found or created, and
    /// recorded.
    FindOrCreateByName(NameSource),
}

/// What resolving `id_from_18`, whose name may have come with it, takes.
pub open spec fn mapping_step_spec(
    m: Map<u64, u64>,
    id_from_18: u64,
    name_from_18: Option<String>,
) -> MappingStep {
    match map_lookup(m, id_from_18) {
        Some(t) => MappingStep::Known(t),
        None => match name_from_18 {
            Some(n) => MappingStep::FindOrCreateByName(NameSource::Given(n)),
            None => MappingStep::FindOrCreateByName(NameSource::ReadFromOdoo18(id_from_18)),
        },
    }
}

/// Identifiers of Odoo 18 records mapped to the identifiers of the Odoo 19
/// records that stand for them.
#[derive(Debug)]
pub struct IdMapping {
    entries: std::collections::BTreeMap<u64, u64>,
}

impl View for IdMapping {
    type V = Map<u64, u64>;

    closed spec fn view(&self) -> Map<u64, u64> {
        self.entries@
    }
}

impl IdMapping {
    /// The empty mapping.
    pub fn new() -> (res: IdMapping)
        ensures
            res@ == Map::<u64, u64>::empty(),
    {
        IdMapping { entries: std::collections::BTreeMap::new() }
    }

    /// The target recorded for `id_from_18`, if any.
    pub fn lookup(&self, id_from_18: u64) -> (res: Option<u64>)
        ensures
            res == map_lookup(self@, id_from_18),
    {
        match self.entries.get(&id_from_18) {
            Some(v) => Some(*v),
            None => None,
        }
    }

    /// What resolving `id_from_18` takes: nothing when it is known, else
    /// finding or creating the Odoo 19 record of its name, which is the one
    /// given or else has to be read from Odoo 18.
    pub fn begin_mapping(&self, id_from_18: u64, name_from_18: Option<String>) -> (res: MappingStep)
        ensures
            res == mapping_step_spec(self@, id_from_18, name_from_18),
    {
        match self.lookup(id_from_18) {
            Some(t) => MappingStep::Known(t),
            None => match name_from_18 {
                Some(n) => MappingStep::FindOrCreateByName(NameSource::Given(n)),
                None => MappingStep::FindOrCreateByName(NameSource::ReadFromOdoo18(id_from_18)),
            },
        }
    }

    /// Records that `id_from_18` stands for `id_in_19`, replacing what it
    /// stood for before.
    pub fn insert(&mut self, id_from_18: u64, id_in_19: u64)
        ensures
            final(self)@ == old(self)@.insert(id_from_18, id_in_19),
    {
        self.entries.insert(id_from_18, id_in_19);
    }

    /// Records that `id_from_18` stands for `id_in_19`, unless it already
    /// stands for something, and returns what it stands for afterwards.
    pub fn record(&mut self, id_from_18: u64, id_in_19: u64) -> (res: u64)
        ensures
            final(self)@ == map_record(old(self)@, id_from_18, id_in_19),
            res == map_record(old(self)@, id_from_18, id_in_19)[id_from_18],
    {
        match self.entries.get(&id_from_18) {
            Some(v) => *v,
            None => {
                self.entries.insert(id_from_18, id_in_19);
                id_in_19
            },
        }
    }
}

/// Law: after recording a target for an identifier, looking it up gives the
/// recorded target (or the one it already had).
pub proof fn lemma_lookup_after_record(m: Map<u64, u64>, id_from_18: u64, id_in_19: u64)
    ensures
        map_lookup(map_record(m, id_from_18, id_in_19), id_from_18) == Some(
            if m.contains_key(id_from_18) {
                m[id_from_18]
            } else {
                id_in_19
            },
        ),
{
}

/// Law: an identifier that is mapped keeps its target whatever is recorded
/// later, so asking twice for the same identifier gives the same answer.
pub proof fn lemma_mapping_is_stable(
    m: Map<u64, u64>,
    id_from_18: u64,
    other_from_18: u64,
    other_in_19: u64,
)
    requires
        m.contains_key(id_from_18),
    ensures
        map_lookup(map_record(m, other_from_18, other_in_19), id_from_18) == map_lookup(
            m,
            id_from_18,
        ),
{
}

/// The mapping after recording each `(id_from_18, id_in_19)` of `steps`, in
/// order.
pub open spec fn map_record_all(m: Map<u64, u64>, steps: Seq<(u64, u64)>) -> Map<u64, u64>
    decreases steps.len(),
{
    if steps.len() == 0 {
        m
    } else {
        map_record(map_record_all(m, steps.drop_last()), steps.last().0, steps.last().1)
    }
}

/// Law: a mapped identifier keeps its target through any number of later
/// records.
pub proof fn lemma_mapping_is_stable_over_records(m: Map<u64, u64>, steps: Seq<(u64, u64)>, id_from_18: u64)
    requires
        m.contains_key(id_from_18),
    ensures
        map_lookup(map_record_all(m, steps), id_from_18) == map_lookup(m, id_from_18),
    decreases steps.len(),
{
    if steps.len() > 0 {
        lemma_mapping_is_stable_over_records(m, steps.drop_last(), id_from_18);
    }
}

/// Law: once an identifier was resolved and its target recorded, resolving
/// it again, after any number of other records, takes nothing more and gives
/// the same target.
pub proof fn lemma_resolution_is_remembered(
    m: Map<u64, u64>,
    id_from_18: u64,
    id_in_19: u64,
    steps: Seq<(u64, u64)>,
    name_from_18: Option<String>,
)
    ensures
        mapping_step_spec(
            map_record_all(map_record(m, id_from_18, id_in_19), steps),
            id_from_18,
            name_from_18,
        ) == MappingStep::Known(map_record(m, id_from_18, id_in_19)[id_from_18]),
{
    lemma_mapping_is_stable_over_records(map_record(m, id_from_18, id_in_19), steps, id_from_18);
}

/// Law: recording a target for one identifier leaves every other identifier
/// as it was.
pub proof fn lemma_record_leaves_others(
    m: Map<u64, u64>,
    id_from_18: u64,
    id_in_19: u64,
    other_from_18: u64,
)
    requires
        other_from_18 != id_from_18,
    ensures
        map_lookup(map_record(m, id_from_18, id_in_19), other_from_18) == map_lookup(
            m,
            other_from_18,
        ),
{
}

} // verus!
