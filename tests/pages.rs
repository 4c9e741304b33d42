use github_backup::paging::{PageCollector, PageCursor, START_PAGE};

#[test]
fn collector_keeps_every_item_in_order() {
    let all: Vec<u64> = (0..250).collect();
    let mut c: PageCollector<u64> = PageCollector::new();
    let mut requested = Vec::new();
    let mut offset = 0usize;
    while let Some(p) = c.next_page() {
        requested.push(p);
        let end = std::cmp::min(offset + 100, all.len());
        let page = all[offset..end].to_vec();
        offset = end;
        c.accept(page, offset < all.len());
    }
    assert_eq!(requested, vec![1, 2, 3]);
    assert_eq!(c.into_items(), all);
}

#[test]
fn collector_of_one_empty_page_is_empty() {
    let mut c: PageCollector<u64> = PageCollector::new();
    assert_eq!(c.next_page(), Some(START_PAGE));
    c.accept(Vec::new(), false);
    assert_eq!(c.next_page(), None);
    assert!(c.into_items().is_empty());
}

#[test]
fn cursor_stops_when_no_page_follows() {
    let mut cur = PageCursor::new();
    assert_eq!(cur.current(), Some(1));
    cur.advance(true);
    assert_eq!(cur.current(), Some(2));
    cur.advance(false);
    assert_eq!(cur.current(), None);
}
