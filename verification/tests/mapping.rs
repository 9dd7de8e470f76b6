use odoo_18_quotations_to_19::utils::account_journal_cache::AccountJournalMappingCache;
use odoo_18_quotations_to_19::utils::crm_stage_cache::CrmStageMappingCache;
use odoo_18_quotations_to_19::utils::id_mapping::{IdMapping, MappingStep, NameSource};
use odoo_18_quotations_to_19::utils::partner_cache::PartnerMappingCache;
use odoo_18_quotations_to_19::utils::tax_cache::TaxMappingCache;

#[test]
fn lookup_after_record() {
    let mut cache = PartnerMappingCache::default();
    assert_eq!(cache.lookup(4), None);
    assert_eq!(cache.record(4, 40), 40);
    assert_eq!(cache.lookup(4), Some(40));
}

#[test]
fn mapping_is_stable() {
    let mut cache = TaxMappingCache::new();
    cache.record(1, 10);
    assert_eq!(cache.record(1, 99), 10);
    cache.record(2, 20);
    assert_eq!(cache.lookup(1), Some(10));
    assert_eq!(cache.lookup(2), Some(20));
    assert_eq!(cache.lookup(3), None);
}

#[test]
fn journal_cache_records() {
    let mut cache = AccountJournalMappingCache::default();
    assert_eq!(cache.record(7, 70), 70);
    assert_eq!(cache.lookup(7), Some(70));
}

#[test]
fn id_mapping_insert_replaces() {
    let mut m = IdMapping::new();
    m.insert(1, 2);
    m.insert(1, 3);
    assert_eq!(m.lookup(1), Some(3));
    assert_eq!(m.record(1, 4), 3);
}

#[test]
fn mapping_steps() {
    let mut cache = PartnerMappingCache::new();
    assert_eq!(
        cache.begin_mapping(5, Some("Bob".into())),
        MappingStep::FindOrCreateByName(NameSource::Given("Bob".into()))
    );
    assert_eq!(
        cache.begin_mapping(5, None),
        MappingStep::FindOrCreateByName(NameSource::ReadFromOdoo18(5))
    );
    cache.record(5, 50);
    assert_eq!(cache.begin_mapping(5, Some("Bob".into())), MappingStep::Known(50));

    let mut stages = CrmStageMappingCache::default();
    stages.record(1, 2);
    assert_eq!(stages.begin_mapping(1, None), MappingStep::Known(2));
    assert_eq!(
        stages.begin_mapping(3, None),
        MappingStep::FindOrCreateByName(NameSource::ReadFromOdoo18(3))
    );
}

#[test]
fn resolution_is_remembered() {
    let mut m = IdMapping::new();
    assert_eq!(m.record(5, 50), 50);
    for (a, b) in [(6, 60), (5, 99), (7, 70), (8, 50)] {
        m.record(a, b);
    }
    assert_eq!(m.begin_mapping(5, Some("Bank".into())), MappingStep::Known(50));
    assert_eq!(m.begin_mapping(5, None), MappingStep::Known(50));
}
