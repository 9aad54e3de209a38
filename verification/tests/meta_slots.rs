use leto::{success_with_meta, Pagination, RateLimit};

#[test]
fn pagination_counts_the_last_partial_page() {
    let page = Pagination::new(2, 20, 137);
    let resp = success_with_meta(vec![1, 2, 3], page);
    assert_eq!(resp.meta.expect("meta").total_pages, 7);
}

#[test]
fn pagination_edge_cases() {
    assert_eq!(Pagination::new(1, 0, 10).total_pages, 0);
    assert_eq!(Pagination::new(1, 10, 0).total_pages, 0);
    assert_eq!(Pagination::new(1, 10, 10).total_pages, 1);
    assert_eq!(Pagination::new(1, 10, 11).total_pages, 2);
    assert_eq!(Pagination::new(1, 1, u64::MAX).total_pages, u64::MAX);
    assert_eq!(Pagination::new(1, u64::MAX, u64::MAX).total_pages, 1);
    assert_eq!(Pagination::new(1, 2, u64::MAX).total_pages, u64::MAX / 2 + 1);
    let p = Pagination::new(3, 25, 60);
    assert_eq!((p.page, p.per_page, p.total, p.total_pages), (3, 25, 60, 3));
}

#[test]
fn rate_limit_keeps_its_values() {
    let r = RateLimit::new(100, 42, 1_700_000_000);
    assert_eq!(r, RateLimit { limit: 100, remaining: 42, reset: 1_700_000_000 });
}
