//! Gathering match records from many sources under one time budget.
//!
//! The caller drives an `Aggregator`: before each source it asks
//! `begin_source` whether work may start, fetches the source when it may, and
//! hands the outcome to `accept`. The budget is checked before each source and
//! before each item of a feed; once it has run out, no further work is done.
use vstd::prelude::*;
use std::time::Instant;
use core::time::Duration;
use crate::feed::{
    FeedItem, ItemView, MatchRecord, ParseError, RecordView, feed_of, item_views, parse_feed,
    record_views,
};
use crate::matcher::{
    lemma_empty_term_keeps_every_item, lower_of, normalize_term, record_of, records_of, to_record,
};

verus! {

#[verifier::external_type_specification]
#[verifier::external_body]
pub struct ExInstant(std::time::Instant);

/// Relies on Instant::now: a reading of the monotonic clock.
pub assume_specification[ std::time::Instant::now ]() -> Instant;

/// Relies on Instant::elapsed: the time passed since the reading.
pub assume_specification[ std::time::Instant::elapsed ](i: &Instant) -> Duration;

/// Relies on Duration::as_secs: the whole seconds of a span of time.
pub assume_specification[ core::time::Duration::as_secs ](d: &Duration) -> u64;

/// Why a source could not be fetched.
#[derive(PartialEq, Eq, Structural, Debug, Clone, Copy)]
pub enum FetchError {
    Unreachable,
    Timeout,
    BadStatus,
}

/// The items that a source contributes: those of its feed, or none where it
/// could not be fetched (`None`) or its document is malformed.
pub open spec fn items_of(response: Option<Seq<char>>) -> Seq<ItemView> {
    match response {
        Some(body) => match feed_of(body) {
            Some(items) => items,
            None => seq![],
        },
        None => seq![],
    }
}

/// The records that a sequence of sources yields when each is scanned whole.
pub open spec fn total(responses: Seq<Option<Seq<char>>>, term: Seq<char>) -> Seq<RecordView>
    decreases responses.len(),
{
    if responses.len() == 0 {
        seq![]
    } else {
        total(responses.drop_last(), term) + records_of(items_of(responses.last()), term)
    }
}

/// The records gathered when every source but the last was scanned whole and
/// the first `scanned` items of the last one were examined.
pub open spec fn gathered(responses: Seq<Option<Seq<char>>>, scanned: nat, term: Seq<char>) -> Seq<
    RecordView,
> {
    if responses.len() == 0 {
        seq![]
    } else {
        total(responses.drop_last(), term) + records_of(
            items_of(responses.last()).take(scanned as int),
            term,
        )
    }
}

/// Whether a budget of `timeout_secs` seconds has run out once
/// `elapsed_secs` whole seconds have passed.
pub fn budget_spent_after(elapsed_secs: u64, timeout_secs: u64) -> (r: bool)
    ensures
        r == (elapsed_secs >= timeout_secs),
{
    elapsed_secs >= timeout_secs
}

/// The whole seconds left of a budget of `timeout_secs` seconds once
/// `elapsed_secs` whole seconds have passed.
pub fn remaining_after(elapsed_secs: u64, timeout_secs: u64) -> (r: u64)
    ensures
        r == if elapsed_secs >= timeout_secs {
            0
        } else {
            (timeout_secs - elapsed_secs) as u64
        },
{
    if budget_spent_after(elapsed_secs, timeout_secs) {
        0
    } else {
        timeout_secs - elapsed_secs
    }
}

/// The state of one query: its lowercase term, its budget, what it has
/// gathered, and whether the budget has run out.
pub struct Aggregator {
    term: String,
    timeout_secs: u64,
    start: Instant,
    results: Vec<MatchRecord>,
    stopped: bool,
    responses: Ghost<Seq<Option<Seq<char>>>>,
    scanned: Ghost<nat>,
}

impl Aggregator {
    /// The lowercase term that items are tested against.
    pub closed spec fn term_view(&self) -> Seq<char> {
        self.term@
    }

    /// The budget, in seconds.
    pub closed spec fn timeout(&self) -> u64 {
        self.timeout_secs
    }

    /// The records gathered so far, in order of discovery.
    pub closed spec fn results_view(&self) -> Seq<RecordView> {
        record_views(self.results@)
    }

    /// The outcomes handed in so far, one per source: the document, or `None`
    /// where the source could not be fetched.
    pub closed spec fn responses(&self) -> Seq<Option<Seq<char>>> {
        self.responses@
    }

    /// How many items of the last source's feed were examined.
    pub closed spec fn scanned(&self) -> nat {
        self.scanned@
    }

    /// Whether the budget has run out.
    pub closed spec fn is_stopped(&self) -> bool {
        self.stopped
    }

    /// The gathered records are those of the sources handed in, each scanned
    /// whole but possibly the last, which was examined up to `scanned`; it
    /// was scanned whole unless the budget ran out.
    pub closed spec fn wf(&self) -> bool {
        &&& self.results_view() == gathered(self.responses@, self.scanned@, self.term@)
        &&& self.responses@.len() > 0 ==> self.scanned@ <= items_of(self.responses@.last()).len()
        &&& self.responses@.len() == 0 ==> self.scanned@ == 0
        &&& !self.stopped && self.responses@.len() > 0 ==> self.scanned@ == items_of(
            self.responses@.last(),
        ).len()
    }

    /// Starts a query for `term` with a budget of `timeout_secs` seconds,
    /// counted from now.
    pub fn new(term: &str, timeout_secs: u64) -> (r: Aggregator)
        ensures
            r.wf(),
            r.term_view() == lower_of(term@),
            term@.len() == 0 ==> r.term_view().len() == 0,
            r.timeout() == timeout_secs,
            r.responses() == Seq::<Option<Seq<char>>>::empty(),
            r.results_view() == Seq::<RecordView>::empty(),
            !r.is_stopped(),
    {
        let r = Aggregator {
            term: normalize_term(term),
            timeout_secs,
            start: Instant::now(),
            results: Vec::new(),
            stopped: false,
            responses: Ghost(Seq::empty()),
            scanned: Ghost(0),
        };
        assert(r.results_view() =~= seq![]);
        r
    }

    /// Whether the budget has run out, by the clock.
    fn budget_spent(&self) -> (r: bool)
        ensures
            self.timeout_secs == 0 ==> r,
    {
        let elapsed = self.start.elapsed();
        budget_spent_after(elapsed.as_secs(), self.timeout_secs)
    }

    /// Whole seconds left of the budget; a bound for fetching the next source.
    pub fn remaining_secs(&self) -> (r: u64)
        ensures
            r <= self.timeout(),
            self.timeout() == 0 ==> r == 0,
    {
        let elapsed = self.start.elapsed();
        remaining_after(elapsed.as_secs(), self.timeout_secs)
    }

    /// Decides whether the next source may be fetched: not once the budget
    /// has run out, which it has from the start under a budget of zero.
    pub fn begin_source(&mut self) -> (r: bool)
        requires
            old(self).wf(),
        ensures
            final(self).wf(),
            final(self).term_view() == old(self).term_view(),
            final(self).timeout() == old(self).timeout(),
            final(self).responses() == old(self).responses(),
            final(self).scanned() == old(self).scanned(),
            final(self).results_view() == old(self).results_view(),
            r == !final(self).is_stopped(),
            old(self).is_stopped() ==> !r,
            old(self).timeout() == 0 ==> !r,
    {
        if self.stopped {
            return false;
        }
        if self.budget_spent() {
            self.stopped = true;
            return false;
        }
        true
    }

    /// Takes in what fetching one source gave. Unless the budget has run out
    /// already, the source is recorded; a failed fetch or a malformed
    /// document adds nothing, and the items of a feed are examined in order
    /// until the budget runs out.
    pub fn accept(&mut self, fetched: Result<String, FetchError>)
        requires
            old(self).wf(),
        ensures
            final(self).wf(),
            final(self).term_view() == old(self).term_view(),
            final(self).timeout() == old(self).timeout(),
            old(self).is_stopped() ==> *final(self) == *old(self),
            !old(self).is_stopped() ==> final(self).responses() == old(self).responses().push(
                match fetched {
                    Ok(body) => Some(body@),
                    Err(_) => None,
                },
            ),
            !old(self).is_stopped() ==> final(self).results_view() == old(self).results_view()
                + records_of(
                items_of(final(self).responses().last()).take(final(self).scanned() as int),
                final(self).term_view(),
            ),
            !old(self).is_stopped() ==> final(self).scanned() <= items_of(
                final(self).responses().last(),
            ).len(),
            !old(self).is_stopped() && (fetched is Err || feed_of(fetched->Ok_0@) is None
                || items_of(final(self).responses().last()).len() == 0)
                ==> !final(self).is_stopped(),
            !old(self).is_stopped() && !final(self).is_stopped() ==> final(self).results_view()
                == old(self).results_view() + records_of(
                items_of(final(self).responses().last()),
                final(self).term_view(),
            ),
    {
        if self.stopped {
            return;
        }
        proof {
            self.lemma_whole();
        }
        match fetched {
            Ok(body) => {
                self.responses = Ghost(self.responses@.push(Some(body@)));
                self.scanned = Ghost(0);
                proof {
                    assert(self.responses@.drop_last() =~= old(self).responses@);
                    assert(self.results_view() =~= gathered(self.responses@, 0, self.term@));
                }
                match parse_feed(body.as_str()) {
                    Ok(items) => {
                        self.scan(&items);
                    },
                    Err(_) => {
                        proof {
                            assert(self.results_view() =~= old(self).results_view() + records_of(
                                items_of(self.responses@.last()),
                                self.term@,
                            ));
                        }
                    },
                }
            },
            Err(_) => {
                self.responses = Ghost(self.responses@.push(None));
                self.scanned = Ghost(0);
                proof {
                    assert(self.responses@.drop_last() =~= old(self).responses@);
                    assert(self.results_view() =~= gathered(self.responses@, 0, self.term@));
                    assert(self.results_view() =~= old(self).results_view() + records_of(
                        items_of(self.responses@.last()),
                        self.term@,
                    ));
                }
            },
        }
    }

    /// Examines the items of the last source's feed in order, checking the
    /// budget before each.
    fn scan(&mut self, items: &Vec<FeedItem>)
        requires
            old(self).results_view() == gathered(old(self).responses@, 0, old(self).term@),
            !old(self).stopped,
            old(self).responses@.len() > 0,
            old(self).scanned@ == 0,
            item_views(items@) == items_of(old(self).responses@.last()),
        ensures
            final(self).wf(),
            final(self).term@ == old(self).term@,
            final(self).timeout_secs == old(self).timeout_secs,
            final(self).responses@ == old(self).responses@,
            !final(self).stopped ==> final(self).results_view() == old(self).results_view()
                + records_of(item_views(items@), old(self).term@),
            items@.len() == 0 ==> !final(self).stopped,
    {
        let ghost base = self.results_view();
        proof {
            assert(items_of(self.responses@.last()).take(0) =~= seq![]);
            assert(base =~= total(self.responses@.drop_last(), self.term@));
        }
        let mut i: usize = 0;
        while i < items.len()
            invariant
                i <= items.len(),
                !self.stopped,
                self.responses@ == old(self).responses@,
                self.term@ == old(self).term@,
                self.timeout_secs == old(self).timeout_secs,
                self.scanned@ == i,
                item_views(items@) == items_of(self.responses@.last()),
                self.results_view() == base + records_of(
                    item_views(items@).take(i as int),
                    self.term@,
                ),
                base == total(self.responses@.drop_last(), self.term@),
                self.responses@.len() > 0,
            decreases items.len() - i,
        {
            if self.budget_spent() {
                self.stopped = true;
                return;
            }
            let ghost prev = self.results@;
            if crate::matcher::matches(&items[i], self.term.as_str()) {
                let rec = to_record(&items[i]);
                self.results.push(rec);
                proof {
                    assert(record_views(self.results@) =~= record_views(prev).push(rec@));
                }
            } else {
                assert(record_views(self.results@) =~= record_views(prev));
            }
            proof {
                let vs = item_views(items@);
                assert(vs.take(i + 1).drop_last() =~= vs.take(i as int));
                assert(vs.take(i + 1).last() == items@[i as int]@);
                assert(self.results_view() =~= base + records_of(vs.take(i + 1), self.term@));
            }
            i = i + 1;
            self.scanned = Ghost(i as nat);
        }
        proof {
            assert(item_views(items@).take(i as int) =~= item_views(items@));
        }
    }

    /// When the budget has not run out, every source handed in was scanned
    /// whole.
    proof fn lemma_whole(&self)
        requires
            self.wf(),
            !self.stopped,
        ensures
            self.results_view() == total(self.responses@, self.term@),
    {
        if self.responses@.len() > 0 {
            assert(items_of(self.responses@.last()).take(self.scanned@ as int) =~= items_of(
                self.responses@.last(),
            ));
        }
    }

    /// Ends the query and hands out the records gathered, in order of
    /// discovery.
    pub fn finish(self) -> (r: Vec<MatchRecord>)
        ensures
            record_views(r@) == self.results_view(),
            r@.len() == self.results_view().len(),
    {
        self.results
    }
}

/// Every item of a sequence of sources, source after source, each in
/// document order.
pub open spec fn all_items(responses: Seq<Option<Seq<char>>>) -> Seq<ItemView>
    decreases responses.len(),
{
    if responses.len() == 0 {
        seq![]
    } else {
        all_items(responses.drop_last()) + items_of(responses.last())
    }
}

/// Under the empty term, the sources yield a record for each of their items.
pub proof fn lemma_total_under_empty_term(responses: Seq<Option<Seq<char>>>)
    ensures
        total(responses, seq![]) == all_items(responses).map_values(|i: ItemView| record_of(i)),
    decreases responses.len(),
{
    if responses.len() > 0 {
        let front = all_items(responses.drop_last());
        let back = items_of(responses.last());
        lemma_total_under_empty_term(responses.drop_last());
        lemma_empty_term_keeps_every_item(back);
        assert((front + back).map_values(|i: ItemView| record_of(i)) =~= front.map_values(
            |i: ItemView| record_of(i),
        ) + back.map_values(|i: ItemView| record_of(i)));
    }
}

/// A source that could not be fetched contributes nothing: the records are
/// those of the other sources.
pub proof fn lemma_total_without_failed(
    responses: Seq<Option<Seq<char>>>,
    i: int,
    term: Seq<char>,
)
    requires
        0 <= i < responses.len(),
        responses[i] is None,
    ensures
        total(responses, term) == total(responses.remove(i), term),
    decreases responses.len(),
{
    let e: Seq<ItemView> = seq![];
    assert(records_of(e, term) =~= seq![]);
    if i == responses.len() - 1 {
        assert(responses.remove(i) =~= responses.drop_last());
        assert(total(responses, term) =~= total(responses.drop_last(), term));
    } else {
        lemma_total_without_failed(responses.drop_last(), i, term);
        assert(responses.remove(i).drop_last() =~= responses.drop_last().remove(i));
        assert(responses.remove(i).last() == responses.last());
    }
}

impl Aggregator {
    /// While the budget holds, the records are exactly those of the sources
    /// handed in, each scanned whole.
    pub proof fn lemma_results_are_total(&self)
        requires
            self.wf(),
            !self.is_stopped(),
        ensures
            self.results_view() == total(self.responses(), self.term_view()),
    {
        self.lemma_whole();
    }

    /// With the empty term, every item of every source that was fetched and
    /// read gives a record, in order, unless the budget ran out.
    pub proof fn lemma_empty_term_keeps_all(&self)
        requires
            self.wf(),
            !self.is_stopped(),
            self.term_view().len() == 0,
        ensures
            self.results_view() == all_items(self.responses()).map_values(
                |i: ItemView| record_of(i),
            ),
    {
        self.lemma_whole();
        assert(self.term_view() =~= seq![]);
        lemma_total_under_empty_term(self.responses());
    }

    /// Two queries with the same term that were handed the same source
    /// outcomes, and whose budgets held, gather the same records.
    pub proof fn lemma_same_outcomes_same_results(&self, other: &Aggregator)
        requires
            self.wf(),
            other.wf(),
            !self.is_stopped(),
            !other.is_stopped(),
            self.term_view() == other.term_view(),
            self.responses() == other.responses(),
        ensures
            self.results_view() == other.results_view(),
    {
        self.lemma_whole();
        other.lemma_whole();
    }

    /// A source whose fetch failed adds nothing: while the budget holds, the
    /// records are those of the other sources.
    pub proof fn lemma_failed_source_adds_nothing(&self, i: int)
        requires
            self.wf(),
            !self.is_stopped(),
            0 <= i < self.responses().len(),
            self.responses()[i] is None,
        ensures
            self.results_view() == total(self.responses().remove(i), self.term_view()),
    {
        self.lemma_whole();
        lemma_total_without_failed(self.responses(), i, self.term_view());
    }
}

} // verus!
