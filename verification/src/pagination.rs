//! Walking a paginated endpoint page by page.
//!
//! The driver decides; its caller performs the requests. The caller asks for
//! the next request, sends it, and hands the outcome back, upon which the
//! driver says what to emit and whether another page is due. Nothing is
//! requested unless the caller asks, so a caller that stops asking has
//! stopped the walk.

use crate::errors::Error;
use crate::model::filter::ChannelVideoFilter;
use crate::model::filter::VideoFilter;
use crate::model::PaginatedResult;
use vstd::prelude::*;

verus! {

/// How many items the driver asks for per page.
pub const CHUNK_SIZE: u32 = 50;

/// Where a walk stands.
#[derive(Debug, Clone, Copy, PartialEq, Eq, Structural)]
pub enum DriverState {
    /// The page at `offset` is to be fetched next.
    Fetching {
        /// How many items the next page skips.
        offset: i32,
    },
    /// As many items as the server counted have been emitted.
    Exhausted,
    /// A page could not be had; the error has been emitted.
    Failed,
    /// The server answered without a page, or no further offset exists.
    Stopped,
}

/// What a page request came back with, as far as the walk depends on it.
pub enum PageEvent {
    /// The request failed, in transport or in validation.
    Failed,
    /// The answer was a bare list, not a page.
    Unpaged,
    /// The answer was a page.
    Page {
        /// The total that the server reported.
        total: u32,
        /// How many items the page held.
        len: nat,
    },
}

/// The page request that the driver asks its caller to send.
#[derive(Debug, Clone, Copy, PartialEq, Eq, Structural)]
pub struct PageRequest {
    /// Always set: the driver asks for pages.
    pub paginated: bool,
    /// How many items to return at most.
    pub limit: u32,
    /// How many items to skip.
    pub offset: i32,
}

/// Walks a paginated endpoint: which page to fetch next, and how many items
/// have been emitted so far.
#[derive(Debug, Clone, Copy, PartialEq, Eq, Structural)]
pub struct PaginationDriver {
    /// Where the walk stands.
    pub state: DriverState,
    /// How many items have been emitted over all pages; it stops counting at
    /// the largest `u64`.
    pub counter: u64,
}

/// The event that the outcome of a page request amounts to.
pub open spec fn event_of<T>(outcome: Result<PaginatedResult<T>, Error>) -> PageEvent {
    match outcome {
        Err(_) => PageEvent::Failed,
        Ok(PaginatedResult::Items(_)) => PageEvent::Unpaged,
        Ok(PaginatedResult::Page { total, items }) => PageEvent::Page {
            total: total.spec_value(),
            len: items@.len(),
        },
    }
}

/// `counter` raised by `len`, held at the largest `u64`.
pub open spec fn counted(counter: u64, len: nat) -> u64 {
    if counter + len > u64::MAX {
        u64::MAX
    } else {
        (counter + len) as u64
    }
}

impl PaginationDriver {
    /// Whether a page is due.
    pub open spec fn is_fetching(self) -> bool {
        self.state is Fetching
    }

    /// The driver after its pending request came back with `event`.
    ///
    /// A driver that is not fetching stays as it is. A failure ends the walk,
    /// and so does an answer that is no page. A page raises the counter by its
    /// length; the walk is exhausted once the counter has reached the page's
    /// total, and else goes on one chunk further, or stops where no such
    /// offset exists.
    pub open spec fn step(self, event: PageEvent) -> PaginationDriver {
        match self.state {
            DriverState::Fetching { offset } => match event {
                PageEvent::Failed => PaginationDriver { state: DriverState::Failed, ..self },
                PageEvent::Unpaged => PaginationDriver { state: DriverState::Stopped, ..self },
                PageEvent::Page { total, len } => {
                    let counter = counted(self.counter, len);
                    if counter >= total {
                        PaginationDriver { state: DriverState::Exhausted, counter }
                    } else if offset + CHUNK_SIZE > i32::MAX {
                        PaginationDriver { state: DriverState::Stopped, counter }
                    } else {
                        PaginationDriver {
                            state: DriverState::Fetching { offset: (offset + CHUNK_SIZE) as i32 },
                            counter,
                        }
                    }
                },
            },
            _ => self,
        }
    }

    /// What the driver emits when its pending request comes back with
    /// `outcome`: the error, or the page's items in the order received; and
    /// nothing for an answer that is no page, or when no request was pending.
    pub open spec fn emits<T>(self, outcome: Result<PaginatedResult<T>, Error>) -> Seq<
        Result<T, Error>,
    > {
        if !self.is_fetching() {
            Seq::empty()
        } else {
            match outcome {
                Err(e) => seq![Err(e)],
                Ok(PaginatedResult::Items(_)) => Seq::empty(),
                Ok(PaginatedResult::Page { items, .. }) => items@.map_values(
                    |item: T| Ok::<T, Error>(item),
                ),
            }
        }
    }

    /// The driver after the events `events`, taken in order.
    pub open spec fn run(self, events: Seq<PageEvent>) -> PaginationDriver
        decreases events.len(),
    {
        if events.len() == 0 {
            self
        } else {
            self.step(events[0]).run(events.drop_first())
        }
    }

    /// The offsets of the requests that the events `events` answer, in order:
    /// one for each event that finds the driver fetching.
    pub open spec fn requests(self, events: Seq<PageEvent>) -> Seq<i32>
        decreases events.len(),
    {
        if events.len() == 0 {
            Seq::empty()
        } else {
            match self.state {
                DriverState::Fetching { offset } => seq![offset] + self.step(events[0]).requests(
                    events.drop_first(),
                ),
                _ => Seq::empty(),
            }
        }
    }

    /// A driver that starts at `offset` and has emitted nothing.
    pub fn new(offset: i32) -> (driver: PaginationDriver)
        ensures
            driver == (PaginationDriver { state: DriverState::Fetching { offset }, counter: 0 }),
    {
        PaginationDriver { state: DriverState::Fetching { offset }, counter: 0 }
    }

    /// Whether the walk has ended.
    pub fn is_terminated(&self) -> (r: bool)
        ensures
            r == !self.is_fetching(),
    {
        match self.state {
            DriverState::Fetching { .. } => false,
            _ => true,
        }
    }

    /// The request to send next: a page of `CHUNK_SIZE` items at the driver's
    /// offset; `None` once the walk has ended.
    pub fn next_request(&self) -> (r: Option<PageRequest>)
        ensures
            r == match self.state {
                DriverState::Fetching { offset } => Some(
                    PageRequest { paginated: true, limit: CHUNK_SIZE, offset },
                ),
                _ => None,
            },
    {
        match self.state {
            DriverState::Fetching { offset } => Some(
                PageRequest { paginated: true, limit: CHUNK_SIZE, offset },
            ),
            _ => None,
        }
    }

    /// The filter for the page to fetch next: the caller's criteria, asked
    /// for in a page of `CHUNK_SIZE` items at the driver's offset; `None` once
    /// the walk has ended.
    ///
    /// The caller's filter is read and never written: what it says of pages
    /// stays as it is, and does not matter to the walk.
    pub fn page_filter(&self, caller: &VideoFilter) -> (r: Option<VideoFilter>)
        ensures
            match self.state {
                DriverState::Fetching { offset } => {
                    &&& r matches Some(page)
                    &&& page.same_criteria(*caller)
                    &&& page.paginated
                    &&& page.limit == CHUNK_SIZE
                    &&& page.offset == offset
                },
                _ => r is None,
            },
    {
        match self.state {
            DriverState::Fetching { offset } => {
                let mut page = caller.clone();
                page.paginated = true;
                page.limit = CHUNK_SIZE;
                page.offset = offset;
                Some(page)
            },
            _ => None,
        }
    }

    /// The filter for the page to fetch next of the videos of a channel: the
    /// caller's criteria, asked for in a page of `CHUNK_SIZE` items at the
    /// driver's offset; `None` once the walk has ended.
    ///
    /// The caller's filter is read and never written.
    pub fn channel_page_filter(&self, caller: &ChannelVideoFilter) -> (r: Option<
        ChannelVideoFilter,
    >)
        ensures
            match self.state {
                DriverState::Fetching { offset } => {
                    &&& r matches Some(page)
                    &&& page.same_criteria(*caller)
                    &&& page.paginated
                    &&& page.limit == CHUNK_SIZE
                    &&& page.offset == offset
                },
                _ => r is None,
            },
    {
        match self.state {
            DriverState::Fetching { offset } => {
                let mut page = caller.clone();
                page.paginated = true;
                page.limit = CHUNK_SIZE;
                page.offset = offset;
                Some(page)
            },
            _ => None,
        }
    }

    /// Takes the outcome of the pending request: moves the driver on, and
    /// returns what is to be emitted, in order.
    pub fn receive<T>(&mut self, outcome: Result<PaginatedResult<T>, Error>) -> (emitted: Vec<
        Result<T, Error>,
    >)
        ensures
            *final(self) == old(self).step(event_of(outcome)),
            emitted@ == old(self).emits(outcome),
    {
        let mut emitted: Vec<Result<T, Error>> = Vec::new();
        let offset: i32 = match self.state {
            DriverState::Fetching { offset } => offset,
            _ => {
                return emitted;
            },
        };
        match outcome {
            Err(e) => {
                emitted.push(Err(e));
                self.state = DriverState::Failed;
                assert(emitted@ =~= seq![Err::<T, Error>(e)]);
            },
            Ok(PaginatedResult::Items(_)) => {
                self.state = DriverState::Stopped;
            },
            Ok(PaginatedResult::Page { total, items }) => {
                let len: usize = items.len();
                let ghost held = items@;
                let counter: u64 = match self.counter.checked_add(len as u64) {
                    Some(sum) => sum,
                    None => u64::MAX,
                };
                for item in it: items
                    invariant
                        it.seq() == held,
                        emitted@ == held.take(it.index()).map_values(
                            |item: T| Ok::<T, Error>(item),
                        ),
                {
                    let ghost before = emitted@;
                    emitted.push(Ok(item));
                    assert(emitted@ =~= held.take(it.index() + 1).map_values(
                        |item: T| Ok::<T, Error>(item),
                    ));
                }
                assert(held.take(held.len() as int) =~= held);
                self.counter = counter;
                if counter >= total.value() as u64 {
                    self.state = DriverState::Exhausted;
                } else if offset > i32::MAX - CHUNK_SIZE as i32 {
                    self.state = DriverState::Stopped;
                } else {
                    self.state = DriverState::Fetching { offset: offset + CHUNK_SIZE as i32 };
                }
            },
        }
        emitted
    }
}

/// `count` pages in a row, each of `CHUNK_SIZE` items under the total `total`.
pub open spec fn full_pages(total: u32, count: nat) -> Seq<PageEvent> {
    Seq::new(count, |i: int| PageEvent::Page { total, len: CHUNK_SIZE as nat })
}

/// A walk that has ended stays ended: whatever comes in, the driver stays as
/// it is and no request is made.
pub proof fn lemma_ended_stays_ended(driver: PaginationDriver, events: Seq<PageEvent>)
    requires
        !driver.is_fetching(),
    ensures
        driver.run(events) == driver,
        driver.requests(events) == Seq::<i32>::empty(),
        forall|event: PageEvent| #[trigger] driver.step(event) == driver,
    decreases events.len(),
{
    if events.len() > 0 {
        lemma_ended_stays_ended(driver, events.drop_first());
    }
}

/// A walk that has ended emits nothing, whatever it is handed.
pub proof fn lemma_ended_emits_nothing<T>(
    driver: PaginationDriver,
    outcome: Result<PaginatedResult<T>, Error>,
)
    requires
        !driver.is_fetching(),
    ensures
        driver.emits(outcome) == Seq::<Result<T, Error>>::empty(),
{
}

/// A failed page request ends the walk: the error is the one thing emitted
/// for it, and whatever comes later, no further request is made.
pub proof fn lemma_failure_ends_walk<T>(
    driver: PaginationDriver,
    error: Error,
    later: Seq<PageEvent>,
)
    requires
        driver.is_fetching(),
    ensures
        driver.emits(Err::<PaginatedResult<T>, Error>(error)) == seq![Err::<T, Error>(error)],
        driver.step(PageEvent::Failed).state == DriverState::Failed,
        driver.step(PageEvent::Failed).requests(later) == Seq::<i32>::empty(),
        driver.step(PageEvent::Failed).run(later) == driver.step(PageEvent::Failed),
{
    lemma_ended_stays_ended(driver.step(PageEvent::Failed), later);
}

/// A page that brings the counter up to its total ends the walk: whatever
/// comes later, no further request is made.
pub proof fn lemma_exhaustion_ends_walk(
    driver: PaginationDriver,
    total: u32,
    len: nat,
    later: Seq<PageEvent>,
)
    requires
        driver.is_fetching(),
        driver.counter + len >= total,
    ensures
        driver.step(PageEvent::Page { total, len }).state == DriverState::Exhausted,
        driver.step(PageEvent::Page { total, len }).requests(later) == Seq::<i32>::empty(),
{
    lemma_ended_stays_ended(driver.step(PageEvent::Page { total, len }), later);
}

/// An answer that is no page ends the walk without an error and without an
/// item.
pub proof fn lemma_unpaged_ends_walk<T>(
    driver: PaginationDriver,
    items: Vec<T>,
    later: Seq<PageEvent>,
)
    requires
        driver.is_fetching(),
    ensures
        driver.emits(Ok::<PaginatedResult<T>, Error>(PaginatedResult::Items(items))) == Seq::<
            Result<T, Error>,
        >::empty(),
        driver.step(PageEvent::Unpaged).state == DriverState::Stopped,
        driver.step(PageEvent::Unpaged).requests(later) == Seq::<i32>::empty(),
{
    lemma_ended_stays_ended(driver.step(PageEvent::Unpaged), later);
}

/// No request is made but in answer to the caller: a walk makes at most one
/// request for each outcome that it is handed.
pub proof fn lemma_one_request_per_outcome(driver: PaginationDriver, events: Seq<PageEvent>)
    ensures
        driver.requests(events).len() <= events.len(),
    decreases events.len(),
{
    if events.len() > 0 && driver.is_fetching() {
        lemma_one_request_per_outcome(driver.step(events[0]), events.drop_first());
    }
}

/// The requests of a walk are one chunk apart: the request number `i`,
/// counted from zero, is at the first offset plus `i` chunks.
pub proof fn lemma_requests_one_chunk_apart(
    driver: PaginationDriver,
    events: Seq<PageEvent>,
    i: int,
)
    requires
        0 <= i < driver.requests(events).len(),
    ensures
        driver.state is Fetching,
        driver.requests(events)[i] == driver.state->offset + i * CHUNK_SIZE,
    decreases events.len(),
{
    if i > 0 {
        let next = driver.step(events[0]);
        let rest = events.drop_first();
        assert(driver.requests(events) == seq![driver.state->offset] + next.requests(rest));
        lemma_requests_one_chunk_apart(next, rest, i - 1);
        assert(next.state->offset == driver.state->offset + CHUNK_SIZE);
    }
}

/// While the counter stays under the total, every full page is followed by
/// another request: after `count` full pages that leave the counter under
/// `total`, the walk has made `count` requests, has counted every item, and
/// is about to fetch `count` chunks further on.
pub proof fn lemma_full_pages_go_on(
    driver: PaginationDriver,
    total: u32,
    count: nat,
)
    requires
        driver.is_fetching(),
        driver.counter + count * CHUNK_SIZE < total,
        driver.state->offset + count * CHUNK_SIZE <= i32::MAX,
    ensures
        driver.run(full_pages(total, count)) == (PaginationDriver {
            state: DriverState::Fetching {
                offset: (driver.state->offset + count * CHUNK_SIZE) as i32,
            },
            counter: (driver.counter + count * CHUNK_SIZE) as u64,
        }),
        driver.requests(full_pages(total, count)).len() == count,
    decreases count,
{
    let events = full_pages(total, count);
    if count > 0 {
        let next = driver.step(events[0]);
        assert(events.drop_first() =~= full_pages(total, (count - 1) as nat));
        assert(count * CHUNK_SIZE == (count - 1) * CHUNK_SIZE + CHUNK_SIZE) by (nonlinear_arith);
        lemma_full_pages_go_on(next, total, (count - 1) as nat);
    }
}

/// A walk over `first` and then `then` is the walk over `first` followed by
/// the walk over `then`, in what becomes of the driver and in the requests
/// made.
pub proof fn lemma_walk_in_two_parts(
    driver: PaginationDriver,
    first: Seq<PageEvent>,
    then: Seq<PageEvent>,
)
    ensures
        driver.run(first + then) == driver.run(first).run(then),
        driver.requests(first + then) == driver.requests(first) + driver.run(first).requests(then),
    decreases first.len(),
{
    if first.len() == 0 {
        assert(first + then =~= then);
        assert(driver.requests(first) + driver.requests(then) =~= driver.requests(then));
    } else {
        let next = driver.step(first[0]);
        assert((first + then).drop_first() =~= first.drop_first() + then);
        assert((first + then)[0] == first[0]);
        lemma_walk_in_two_parts(next, first.drop_first(), then);
        if driver.is_fetching() {
            assert(seq![driver.state->offset] + (next.requests(first.drop_first()) + next.run(
                first.drop_first(),
            ).requests(then)) =~= (seq![driver.state->offset] + next.requests(
                first.drop_first(),
            )) + next.run(first.drop_first()).requests(then));
        } else {
            lemma_ended_stays_ended(driver, first);
            lemma_ended_stays_ended(driver, then);
            lemma_ended_stays_ended(driver, first + then);
            assert(Seq::<i32>::empty() + Seq::<i32>::empty() =~= Seq::<i32>::empty());
        }
    }
}

/// A walk from the start over pages that are full but for the last one makes
/// one request for each page, each one chunk after the one before, and none
/// more: where `count` full pages leave the counter under `total` and a
/// page of `last` items then brings it up to `total`, the walk has made
/// `count + 1` requests, has counted `count` chunks and `last` items, and is
/// exhausted, whatever comes later.
pub proof fn lemma_walk_of_full_pages(total: u32, count: nat, last: nat, later: Seq<PageEvent>)
    requires
        count * CHUNK_SIZE < total,
        total <= count * CHUNK_SIZE + last,
        count * CHUNK_SIZE <= i32::MAX,
        count * CHUNK_SIZE + last <= u64::MAX,
    ensures
        ({
            let driver = PaginationDriver { state: DriverState::Fetching { offset: 0 }, counter: 0 };
            let events = full_pages(total, count) + seq![PageEvent::Page { total, len: last }]
                + later;
            &&& driver.run(events) == PaginationDriver {
                state: DriverState::Exhausted,
                counter: (count * CHUNK_SIZE + last) as u64,
            }
            &&& driver.requests(events).len() == count + 1
            &&& forall|i: int|
                0 <= i <= count ==> #[trigger] driver.requests(events)[i] == i * CHUNK_SIZE
        }),
{
    let driver = PaginationDriver { state: DriverState::Fetching { offset: 0 }, counter: 0 };
    let full = full_pages(total, count);
    let end = seq![PageEvent::Page { total, len: last }];
    let events = full + end + later;
    lemma_full_pages_go_on(driver, total, count);
    let before_last = driver.run(full);
    let after_last = before_last.step(end[0]);
    lemma_ended_stays_ended(after_last, end.drop_first());
    lemma_ended_stays_ended(after_last, later);
    assert(before_last.run(end) == after_last);
    assert(before_last.requests(end) =~= seq![before_last.state->offset]);
    lemma_walk_in_two_parts(driver, full, end);
    lemma_walk_in_two_parts(driver, full + end, later);
    assert(driver.requests(events) =~= driver.requests(full) + seq![before_last.state->offset]);
    assert forall|i: int| 0 <= i <= count implies #[trigger] driver.requests(events)[i] == i
        * CHUNK_SIZE by {
        lemma_requests_one_chunk_apart(driver, events, i);
    }
}

} // verus!
