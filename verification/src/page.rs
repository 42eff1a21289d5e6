//! The cursor-pagination engine: a pull-based, finite, non-restartable walk
//! over a multi-page result set.
//!
//! A [`CursorIterator`] is an explicit state machine. It starts `Ready` with
//! a descriptor; each fetched page either buffers records to hand out one at
//! a time, ends the walk (a short or empty page means the data is
//! exhausted), or — on a fetch failure — moves it to the terminal `Failed`
//! state. A [`Pager`] drives the machine against a fetch collaborator,
//! bounding the per-request page size, and surfaces the first error.

use vstd::prelude::*;

use crate::endpoint::{EndpointDescriptor, EndpointDescriptorV};
use crate::query::QuerySpecV;
use crate::text::opt_view;
use crate::Error;

verus! {

/// One fetched page: the decoded records in server order, and the cursor
/// for the page after it — absent when this page was short, which signals
/// the end of the data.
#[derive(Debug)]
pub struct Page<T> {
    /// The decoded records, in the order the server returned them.
    pub records: Vec<T>,
    /// The cursor the next page starts at, from the last record's paging
    /// token; absent on a short page.
    pub next_cursor: Option<String>,
}

/// The mathematical content of a [`Page`].
pub ghost struct PageV<T> {
    pub records: Seq<T>,
    pub next_cursor: Option<Seq<char>>,
}

impl<T> View for Page<T> {
    type V = PageV<T>;

    open spec fn view(&self) -> PageV<T> {
        PageV { records: self.records@, next_cursor: opt_view(self.next_cursor) }
    }
}

/// What follows once a buffered page is drained: fetch the next page with
/// an updated descriptor, or end the walk.
pub enum AfterQueue {
    /// Fetch again with this descriptor.
    Continue(EndpointDescriptor),
    /// The drained page was the last one.
    End,
}

/// The mathematical content of an [`AfterQueue`].
pub ghost enum AfterV {
    Continue(EndpointDescriptorV),
    End,
}

impl View for AfterQueue {
    type V = AfterV;

    open spec fn view(&self) -> AfterV {
        match self {
            AfterQueue::Continue(d) => AfterV::Continue(d@),
            AfterQueue::End => AfterV::End,
        }
    }
}

/// The state of a [`CursorIterator`].
pub enum IterState<T> {
    /// No page buffered yet: the next pull needs a fetch of this descriptor.
    Ready(EndpointDescriptor),
    /// A fetched page is handed out record by record; `queue` is nonempty.
    Buffered {
        /// The records not yet handed out, in order.
        queue: Vec<T>,
        /// What follows once the queue is drained.
        next: AfterQueue,
    },
    /// Terminal: the data ended; further pulls yield nothing.
    Exhausted,
    /// Terminal: a fetch failed; the error was already yielded once.
    Failed,
}

/// The mathematical content of an [`IterState`].
pub ghost enum IterStateV<T> {
    Ready(EndpointDescriptorV),
    Buffered { queue: Seq<T>, next: AfterV },
    Exhausted,
    Failed,
}

impl<T> View for IterState<T> {
    type V = IterStateV<T>;

    open spec fn view(&self) -> IterStateV<T> {
        match self {
            IterState::Ready(d) => IterStateV::Ready(d@),
            IterState::Buffered { queue, next } => IterStateV::Buffered {
                queue: queue@,
                next: next@,
            },
            IterState::Exhausted => IterStateV::Exhausted,
            IterState::Failed => IterStateV::Failed,
        }
    }
}

/// The state a drained buffer advances to.
pub open spec fn advance<T>(next: AfterV) -> IterStateV<T> {
    match next {
        AfterV::Continue(d) => IterStateV::Ready(d),
        AfterV::End => IterStateV::Exhausted,
    }
}

/// Whether the page falls short of what the descriptor asked for: fewer
/// records than the requested limit, or no next cursor to go on with.
pub open spec fn short_page<T>(d: EndpointDescriptorV, p: PageV<T>) -> bool {
    p.next_cursor is None || (d.query.limit matches Some(l) && p.records.len() < l)
}

/// The state after a successful fetch of `p` while ready with `d`: an empty
/// page exhausts the walk at once; a short page is handed out and then the
/// walk ends; a full page is handed out and the walk resumes at the page's
/// next cursor.
pub open spec fn after_page<T>(d: EndpointDescriptorV, p: PageV<T>) -> IterStateV<T> {
    if p.records.len() == 0 {
        IterStateV::Exhausted
    } else if short_page(d, p) {
        IterStateV::Buffered { queue: p.records, next: AfterV::End }
    } else {
        IterStateV::Buffered {
            queue: p.records,
            next: AfterV::Continue(
                EndpointDescriptorV {
                    segments: d.segments,
                    query: QuerySpecV { cursor: Some(p.next_cursor.unwrap()), ..d.query },
                },
            ),
        }
    }
}

/// A stateful, lazy, pull-based walk over the records of one collection.
/// Finite — it ends on the first short or empty page — and not restartable:
/// the cursor only moves forward. To re-read from the start, build a new
/// iterator from the original descriptor.
pub struct CursorIterator<T> {
    /// The current state of the walk.
    pub state: IterState<T>,
}

impl<T> View for CursorIterator<T> {
    type V = IterStateV<T>;

    open spec fn view(&self) -> IterStateV<T> {
        self.state@
    }
}

impl<T> CursorIterator<T> {
    /// The one structural fact the machine keeps: a buffered queue is
    /// never empty.
    pub open spec fn wf(&self) -> bool {
        match self@ {
            IterStateV::Buffered { queue, next } => queue.len() > 0,
            _ => true,
        }
    }

    /// A fresh walk over the collection the descriptor names.
    pub fn new(descriptor: EndpointDescriptor) -> (r: Self)
        ensures
            r@ == IterStateV::<T>::Ready(descriptor@),
            r.wf(),
    {
        CursorIterator { state: IterState::Ready(descriptor) }
    }

    /// The descriptor the next fetch must use, when one is needed.
    pub fn needs_fetch(&self) -> (r: Option<&EndpointDescriptor>)
        ensures
            match self@ {
                IterStateV::Ready(d) => r matches Some(x) && x@ == d,
                _ => r is None,
            },
    {
        match &self.state {
            IterState::Ready(d) => Some(d),
            _ => None,
        }
    }

    /// Whether the walk has ended with the data exhausted.
    pub fn is_exhausted(&self) -> (r: bool)
        ensures
            r == (self@ is Exhausted),
    {
        match &self.state {
            IterState::Exhausted => true,
            _ => false,
        }
    }

    /// Whether the walk has ended on a failed fetch.
    pub fn is_failed(&self) -> (r: bool)
        ensures
            r == (self@ is Failed),
    {
        match &self.state {
            IterState::Failed => true,
            _ => false,
        }
    }

    /// Feeds the page a fetch returned. Exactly the transition
    /// [`after_page`] describes.
    pub fn on_page(&mut self, page: Page<T>)
        requires
            old(self)@ is Ready,
        ensures
            final(self).wf(),
            old(self)@ matches IterStateV::Ready(d) ==> final(self)@ == after_page(d, page@),
    {
        let mut st = IterState::Exhausted;
        core::mem::swap(&mut st, &mut self.state);
        match st {
            IterState::Ready(d) => {
                let Page { records, next_cursor } = page;
                if records.len() == 0 {
                    // already Exhausted
                } else {
                    let short_by_count = match d.requested_limit() {
                        Some(l) => records.len() < l as usize,
                        None => false,
                    };
                    match next_cursor {
                        None => {
                            self.state = IterState::Buffered {
                                queue: records,
                                next: AfterQueue::End,
                            };
                        },
                        Some(c) => {
                            if short_by_count {
                                self.state = IterState::Buffered {
                                    queue: records,
                                    next: AfterQueue::End,
                                };
                            } else {
                                let nd = d.with_cursor(c.as_str());
                                self.state = IterState::Buffered {
                                    queue: records,
                                    next: AfterQueue::Continue(nd),
                                };
                            }
                        },
                    }
                }
            },
            _ => {
                proof {
                    assert(false);
                }
            },
        }
    }

    /// Notes that the fetch failed. The caller yields the error itself,
    /// once; the walk is terminal from here on.
    pub fn on_error(&mut self)
        requires
            old(self)@ is Ready,
        ensures
            final(self).wf(),
            final(self)@ == IterStateV::<T>::Failed,
    {
        self.state = IterState::Failed;
    }

    /// Hands out the next buffered record, advancing the walk when the
    /// buffer drains. Yields nothing when a fetch is needed first or the
    /// walk has ended.
    pub fn next_buffered(&mut self) -> (r: Option<T>)
        requires
            old(self).wf(),
        ensures
            final(self).wf(),
            match old(self)@ {
                IterStateV::Buffered { queue, next } => {
                    &&& r matches Some(t) && t == queue[0]
                    &&& final(self)@ == if queue.len() > 1 {
                        IterStateV::Buffered { queue: queue.drop_first(), next }
                    } else {
                        advance::<T>(next)
                    }
                },
                _ => r is None && final(self)@ == old(self)@,
            },
    {
        let mut st = IterState::Exhausted;
        core::mem::swap(&mut st, &mut self.state);
        match st {
            IterState::Buffered { mut queue, next } => {
                let ghost q0 = queue@;
                let item = queue.remove(0);
                proof {
                    assert(queue@ =~= q0.drop_first());
                }
                if queue.len() > 0 {
                    self.state = IterState::Buffered { queue, next };
                } else {
                    match next {
                        AfterQueue::Continue(d) => {
                            self.state = IterState::Ready(d);
                        },
                        AfterQueue::End => {
                            // already Exhausted
                        },
                    }
                }
                Some(item)
            },
            other => {
                self.state = other;
                None
            },
        }
    }
}

/// One answer a fetch gave during a walk: a page, or a failure.
pub ghost enum FetchEventV<T> {
    Got(PageV<T>),
    Lost(Error),
}

/// How far a state is from needing a fetch; drives the termination of
/// [`walk`].
pub open spec fn state_rank<T>(st: IterStateV<T>) -> int {
    match st {
        IterStateV::Buffered { .. } => 2,
        IterStateV::Ready(_) => 1,
        _ => 0,
    }
}

/// The complete run of the state machine: the items delivered, the error
/// surfaced and the final state of a walk that starts at `st` and whose
/// fetches are answered by `evs`, in order. A failure ends the walk at
/// once; a walk that needs a fetch after the answers run out stops where
/// it stands.
pub open spec fn walk<T>(st: IterStateV<T>, evs: Seq<FetchEventV<T>>) -> (
    Seq<T>,
    Option<Error>,
    IterStateV<T>,
)
    decreases evs.len(), state_rank(st),
{
    match st {
        IterStateV::Exhausted => (Seq::empty(), None, st),
        IterStateV::Failed => (Seq::empty(), None, st),
        IterStateV::Buffered { queue, next } => {
            let w = walk(advance::<T>(next), evs);
            (queue + w.0, w.1, w.2)
        },
        IterStateV::Ready(d) => {
            if evs.len() == 0 {
                (Seq::empty(), None, st)
            } else {
                match evs[0] {
                    FetchEventV::Got(p) => walk(after_page(d, p), evs.drop_first()),
                    FetchEventV::Lost(e) => (Seq::empty(), Some(e), IterStateV::Failed),
                }
            }
        },
    }
}

/// A run with the given items already delivered before it.
pub open spec fn delivered_before<T>(
    items: Seq<T>,
    w: (Seq<T>, Option<Error>, IterStateV<T>),
) -> (Seq<T>, Option<Error>, IterStateV<T>) {
    (items + w.0, w.1, w.2)
}

/// The fetch collaborator a [`Pager`] drives: one call fetches and decodes
/// one page for a descriptor. Supplied from outside the engine — typically
/// a transport plus a body decoder.
pub trait PageFetch<T> {
    /// Fetches one page of the collection the descriptor names.
    fn fetch(&mut self, descriptor: &EndpointDescriptor) -> Result<Page<T>, Error>;
}

/// What one paginated walk delivered: the records handed to the consumer in
/// order, and the error that stopped the walk, if one did. An absent error
/// means the data was exhausted normally.
pub struct Paginated<T> {
    /// The records delivered, in order.
    pub items: Vec<T>,
    /// The error the walk stopped on, if any.
    pub error: Option<Error>,
}

/// The page size a pager's ceiling leaves of a requested limit.
pub open spec fn clamp_limit(requested: Option<u32>, ceiling: u32) -> u32 {
    match requested {
        Some(l) => if l < ceiling {
            l
        } else {
            ceiling
        },
        None => ceiling,
    }
}

/// Drives a [`CursorIterator`] to completion, bounding every request's page
/// size by its own ceiling, independent of any caller-requested limit.
pub struct Pager {
    limit: u32,
}

impl Pager {
    /// The mathematical content of the pager: its page-size ceiling.
    pub closed spec fn spec_limit(&self) -> u32 {
        self.limit
    }

    /// A pager with the given per-request page-size ceiling.
    pub fn new(horizon_page_limit: u32) -> (r: Self)
        ensures
            r.spec_limit() == horizon_page_limit,
    {
        Pager { limit: horizon_page_limit }
    }

    /// The per-request page-size ceiling.
    pub fn horizon_page_limit(&self) -> (r: u32)
        ensures
            r == self.spec_limit(),
    {
        self.limit
    }

    /// The descriptor with its limit forced under the ceiling: a missing or
    /// too-large limit becomes the ceiling itself.
    pub fn prepare(&self, descriptor: EndpointDescriptor) -> (r: EndpointDescriptor)
        ensures
            r@.segments == descriptor@.segments,
            r@.query == (QuerySpecV {
                limit: Some(clamp_limit(descriptor@.query.limit, self.spec_limit())),
                ..descriptor@.query
            }),
    {
        let clamped = match descriptor.requested_limit() {
            Some(l) => if l < self.limit {
                l
            } else {
                self.limit
            },
            None => self.limit,
        };
        descriptor.with_limit(clamped)
    }

    /// Drives the walk to its end, collecting every record in order until
    /// the data is exhausted or a fetch fails. A fetch error stops the walk
    /// at once — records of earlier pages are kept, nothing after the error
    /// is delivered, and the error is surfaced, never swallowed. Bound the
    /// page size by building the descriptor through [`Pager::prepare`].
    ///
    /// What comes back is exactly a run of the state machine: there is a
    /// sequence of fetch answers under which [`walk`] delivers these items,
    /// surfaces this error and ends in the iterator's final state. The walk
    /// gives up after 2^64 - 1 fetch rounds, leaving the iterator `Ready`;
    /// every real dataset is exhausted far earlier.
    pub fn paginate<T, F: PageFetch<T>>(
        &self,
        iter: &mut CursorIterator<T>,
        fetcher: &mut F,
    ) -> (r: Paginated<T>)
        requires
            old(iter).wf(),
        ensures
            final(iter).wf(),
            exists|evs: Seq<FetchEventV<T>>|
                #[trigger] walk(old(iter)@, evs) == (r.items@, r.error, final(iter)@),
            r.error is Some ==> final(iter)@ is Failed,
            r.error is None && !(old(iter)@ is Failed) ==> final(iter)@ is Exhausted
                || final(iter)@ is Ready,
            old(iter)@ is Failed ==> final(iter)@ is Failed && r.error is None && r.items@
                == Seq::<T>::empty(),
    {
        let mut items: Vec<T> = Vec::new();
        let mut budget: u64 = u64::MAX;
        let ghost start = old(iter)@;
        let ghost mut events: Seq<FetchEventV<T>> = Seq::empty();
        proof {
            assert forall|rest: Seq<FetchEventV<T>>| #[trigger] walk(start, events + rest)
                == delivered_before(items@, walk(iter@, rest)) by {
                assert(events + rest =~= rest);
                assert(items@ + walk(iter@, rest).0 =~= walk(iter@, rest).0);
            }
        }
        loop
            invariant
                iter.wf(),
                start == old(iter)@,
                iter@ is Failed ==> old(iter)@ is Failed,
                old(iter)@ is Failed ==> iter@ is Failed && items@ == Seq::<T>::empty(),
                forall|rest: Seq<FetchEventV<T>>| #[trigger] walk(start, events + rest)
                    == delivered_before(items@, walk(iter@, rest)),
            decreases
                budget,
                (match iter@ {
                    IterStateV::Buffered { queue, next } => queue.len() + 1,
                    _ => 1,
                }),
        {
            let ghost pre = iter@;
            let ghost pre_items = items@;
            match iter.next_buffered() {
                Some(item) => {
                    items.push(item);
                    proof {
                        let queue = pre->Buffered_queue;
                        let next = pre->Buffered_next;
                        assert forall|rest: Seq<FetchEventV<T>>| #[trigger] walk(
                            start,
                            events + rest,
                        ) == delivered_before(items@, walk(iter@, rest)) by {
                            let w = walk(advance::<T>(next), rest);
                            assert(walk(start, events + rest) == delivered_before(
                                pre_items,
                                walk(pre, rest),
                            ));
                            assert(walk(pre, rest) == (queue + w.0, w.1, w.2));
                            if queue.len() > 1 {
                                assert(walk(iter@, rest) == (queue.drop_first() + w.0, w.1, w.2));
                                assert(pre_items + (queue + w.0) =~= items@ + (queue.drop_first()
                                    + w.0));
                            } else {
                                assert(queue =~= seq![queue[0]]);
                                assert(pre_items + (queue + w.0) =~= items@ + w.0);
                            }
                        }
                    }
                },
                None => {
                    let fetch_now = match iter.needs_fetch() {
                        Some(d) => Some(d.duplicate()),
                        None => None,
                    };
                    match fetch_now {
                        Some(d) => {
                            if budget == 0 {
                                proof {
                                    assert(walk(start, events + Seq::<FetchEventV<T>>::empty())
                                        == delivered_before(
                                        items@,
                                        walk(iter@, Seq::<FetchEventV<T>>::empty()),
                                    ));
                                    assert(events + Seq::<FetchEventV<T>>::empty() =~= events);
                                    assert(items@ + Seq::<T>::empty() =~= items@);
                                }
                                return Paginated { items, error: None };
                            }
                            budget = budget - 1;
                            match fetcher.fetch(&d) {
                                Ok(page) => {
                                    let ghost ev = FetchEventV::Got(page@);
                                    iter.on_page(page);
                                    proof {
                                        let old_events = events;
                                        events = events.push(ev);
                                        assert forall|rest: Seq<FetchEventV<T>>| #[trigger] walk(
                                            start,
                                            events + rest,
                                        ) == delivered_before(items@, walk(iter@, rest)) by {
                                            assert(events + rest =~= old_events + (seq![ev]
                                                + rest));
                                            assert(walk(start, old_events + (seq![ev] + rest))
                                                == delivered_before(
                                                items@,
                                                walk(pre, seq![ev] + rest),
                                            ));
                                            assert((seq![ev] + rest)[0] == ev);
                                            assert((seq![ev] + rest).drop_first() =~= rest);
                                            assert(walk(pre, seq![ev] + rest) == walk(
                                                iter@,
                                                rest,
                                            ));
                                        }
                                    }
                                },
                                Err(e) => {
                                    iter.on_error();
                                    proof {
                                        let ghost ev = FetchEventV::Lost::<T>(e);
                                        let rest = seq![ev];
                                        assert(walk(start, events + rest) == delivered_before(
                                            items@,
                                            walk(pre, rest),
                                        ));
                                        assert(rest[0] == ev);
                                        assert(walk(pre, rest) == (
                                            Seq::<T>::empty(),
                                            Some(e),
                                            IterStateV::<T>::Failed,
                                        ));
                                        assert(items@ + Seq::<T>::empty() =~= items@);
                                        assert(walk(start, events + rest) == (
                                            items@,
                                            Some(e),
                                            IterStateV::<T>::Failed,
                                        ));
                                    }
                                    return Paginated { items, error: Some(e) };
                                },
                            }
                        },
                        None => {
                            proof {
                                assert(walk(start, events + Seq::<FetchEventV<T>>::empty())
                                    == delivered_before(
                                    items@,
                                    walk(iter@, Seq::<FetchEventV<T>>::empty()),
                                ));
                                assert(events + Seq::<FetchEventV<T>>::empty() =~= events);
                                assert(items@ + Seq::<T>::empty() =~= items@);
                            }
                            return Paginated { items, error: None };
                        },
                    }
                },
            }
        }
    }
}

} // verus!
