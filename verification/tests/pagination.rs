use odoo_18_quotations_to_19::odoo_api_commons::pagination::PaginationParam;
use odoo_18_quotations_to_19::utils::iterate_chunks::{next_batch_offset, IterateModelFromOdoo18};

fn offsets(per: u32, start: u32, count: u64) -> Vec<u32> {
    let mut it = IterateModelFromOdoo18::new(
        "res.partner".to_string(),
        vec!["name".to_string()],
        vec![],
        per,
        start,
        count,
    );
    let mut seen = vec![];
    while let Some(p) = it.next_pagination() {
        assert_eq!(p.limit, Some(per));
        seen.push(p.offset.unwrap());
        assert!(it.can_advance());
        it.advance();
    }
    seen
}

#[test]
fn chunks_cover_count() {
    assert_eq!(offsets(30, 0, 65), vec![0, 30, 60]);
    assert_eq!(offsets(30, 0, 60), vec![0, 30, 60]);
    assert_eq!(offsets(10, 5, 25), vec![5, 15, 25]);
    assert_eq!(offsets(10, 0, 0), vec![0]);
    assert_eq!(offsets(10, 11, 10), Vec::<u32>::new());
}

#[test]
fn cursor_accessors() {
    let it = IterateModelFromOdoo18::new("m".into(), vec![], vec![], 3, 6, 9);
    assert_eq!(it.count(), 9);
    assert_eq!(it.model_name(), "m");
    assert!(it.field_names().is_empty());
    assert!(it.domains().is_empty());
    assert_eq!(
        it.get_current_pagination(),
        PaginationParam { offset: Some(6), limit: Some(3) }
    );
}

#[test]
fn cursor_cannot_advance_past_u32() {
    let it = IterateModelFromOdoo18::new("m".into(), vec![], vec![], 10, u32::MAX - 5, 1 << 40);
    assert!(!it.can_advance());
}

#[test]
fn next_batch_offsets() {
    assert_eq!(next_batch_offset(0, 30, 65), Some(30));
    assert_eq!(next_batch_offset(30, 30, 65), Some(60));
    assert_eq!(next_batch_offset(60, 30, 65), None);
    assert_eq!(next_batch_offset(30, 30, 60), Some(60));
}

#[test]
fn pagination_default_is_unbounded() {
    let p = PaginationParam::default();
    assert_eq!(p.offset, None);
    assert_eq!(p.limit, None);
}
