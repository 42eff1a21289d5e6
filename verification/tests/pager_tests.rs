use stellar_client::{
    CursorIterator, EndpointDescriptor, Error, Page, PageFetch, Pager, Transactions,
};

/// A fetch collaborator over an in-memory dataset of numbered records. The
/// cursor is the decimal index of the next record; a missing cursor starts
/// at the beginning.
struct MemoryFetch {
    total: u32,
    fetches: u32,
    fail_on_fetch: Option<u32>,
}

impl PageFetch<u32> for MemoryFetch {
    fn fetch(&mut self, descriptor: &EndpointDescriptor) -> Result<Page<u32>, Error> {
        self.fetches += 1;
        if self.fail_on_fetch == Some(self.fetches) {
            return Err(Error::Transport);
        }
        let start: u32 = match &descriptor.query.cursor {
            Some(c) => c.parse().unwrap(),
            None => 0,
        };
        let limit: u32 = descriptor.query.limit.unwrap_or(10);
        let end = (start + limit).min(self.total);
        let records: Vec<u32> = (start..end).collect();
        let next_cursor = if end - start < limit {
            None
        } else {
            Some(end.to_string())
        };
        Ok(Page { records, next_cursor })
    }
}

fn descriptor_with_limit(limit: u32) -> EndpointDescriptor {
    Transactions::new("abc123").with_limit(limit).to_descriptor()
}

// Pagination termination: 25 records at a page limit of 10 take exactly
// three fetches (10, 10, 5), and the short third page ends the walk without
// a further empty-page round trip.
#[test]
fn pager_stops_after_short_page() {
    let mut fetcher = MemoryFetch { total: 25, fetches: 0, fail_on_fetch: None };
    let pager = Pager::new(200);
    let mut iter = CursorIterator::new(descriptor_with_limit(10));
    let out = pager.paginate(&mut iter, &mut fetcher);
    assert_eq!(fetcher.fetches, 3);
    assert_eq!(out.items, (0..25).collect::<Vec<u32>>());
    assert!(out.error.is_none());
    assert!(iter.is_exhausted());
    assert!(!iter.is_failed());
}

// Empty dataset: the iterator yields nothing and is exhausted at once,
// with no error.
#[test]
fn pager_empty_dataset() {
    let mut fetcher = MemoryFetch { total: 0, fetches: 0, fail_on_fetch: None };
    let pager = Pager::new(200);
    let mut iter = CursorIterator::new(descriptor_with_limit(10));
    let out = pager.paginate(&mut iter, &mut fetcher);
    assert_eq!(fetcher.fetches, 1);
    assert!(out.items.is_empty());
    assert!(out.error.is_none());
    assert!(iter.is_exhausted());
}

// Error short-circuit: when the fetch of page two fails, everything of page
// one has been delivered, the error is surfaced once, and nothing more is
// delivered or fetched.
#[test]
fn pager_surfaces_error_and_stops() {
    let mut fetcher = MemoryFetch { total: 25, fetches: 0, fail_on_fetch: Some(2) };
    let pager = Pager::new(200);
    let mut iter = CursorIterator::new(descriptor_with_limit(10));
    let out = pager.paginate(&mut iter, &mut fetcher);
    assert_eq!(fetcher.fetches, 2);
    assert_eq!(out.items, (0..10).collect::<Vec<u32>>());
    assert_eq!(out.error, Some(Error::Transport));
    assert!(iter.is_failed());

    // The failure is terminal: a further walk yields nothing more.
    let again = pager.paginate(&mut iter, &mut fetcher);
    assert_eq!(fetcher.fetches, 2);
    assert!(again.items.is_empty());
    assert!(again.error.is_none());
    assert!(iter.is_failed());
}

// A page that fills the limit exactly costs one more round trip, which
// comes back empty.
#[test]
fn pager_full_last_page_fetches_once_more() {
    let mut fetcher = MemoryFetch { total: 20, fetches: 0, fail_on_fetch: None };
    let pager = Pager::new(200);
    let mut iter = CursorIterator::new(descriptor_with_limit(10));
    let out = pager.paginate(&mut iter, &mut fetcher);
    assert_eq!(fetcher.fetches, 3);
    assert_eq!(out.items, (0..20).collect::<Vec<u32>>());
    assert!(out.error.is_none());
    assert!(iter.is_exhausted());
}

// The pager's ceiling bounds the per-request page size independent of the
// caller's limit; a missing limit becomes the ceiling itself.
#[test]
fn prepare_clamps_the_limit() {
    let pager = Pager::new(200);
    assert_eq!(pager.horizon_page_limit(), 200);

    let d = pager.prepare(descriptor_with_limit(500));
    assert_eq!(d.query.limit, Some(200));

    let d = pager.prepare(descriptor_with_limit(50));
    assert_eq!(d.query.limit, Some(50));

    let d = pager.prepare(Transactions::new("abc123").to_descriptor());
    assert_eq!(d.query.limit, Some(200));
}

// The iterator hands records out one at a time, in server order, and asks
// for a fetch only when its buffer is drained.
#[test]
fn iterator_pulls_in_order() {
    let mut fetcher = MemoryFetch { total: 3, fetches: 0, fail_on_fetch: None };
    let mut iter: CursorIterator<u32> = CursorIterator::new(descriptor_with_limit(10));
    assert!(iter.next_buffered().is_none());
    let d = iter.needs_fetch().unwrap().duplicate();
    let page = fetcher.fetch(&d).unwrap();
    iter.on_page(page);
    assert_eq!(iter.next_buffered(), Some(0));
    assert_eq!(iter.next_buffered(), Some(1));
    assert_eq!(iter.next_buffered(), Some(2));
    assert!(iter.is_exhausted());
    assert!(iter.next_buffered().is_none());
}
