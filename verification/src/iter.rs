//! Reading a table over many query ranges at once.
//!
//! A reader gives a table and a list of query ranges. Each range is queried in
//! turn; every `(stored range, data)` pair that the query finds is handed out
//! as the triple `(query range, stored range, data)`. A query that finds no
//! table to look in at all makes the next call report an end, once; the
//! calls after that go on with the ranges left.
//!
//! Querying the store is outside work, so [`ManyRangeIter`] is a state
//! machine: [`ManyRangeIter::next`] either hands out the next triple, asks for
//! a range to be queried, or reports that the reading is over, and
//! [`ManyRangeIter::answer_query`] takes what the asked-for query found.

use crate::error::{DBInterfaceError, DBResult};
use crate::range::Range;
use std::collections::VecDeque;
use vstd::prelude::*;

verus! {

/// What a query over one range found: `None` when there was nothing to
/// look in, else the `(stored range, data)` pairs in the order found.
pub open spec fn answer_view<T>(found: Option<Vec<(Range, T)>>) -> Option<Seq<(Range, T)>> {
    match found {
        Some(v) => Some(v@),
        None => None,
    }
}

/// The pairs that a query over `q` found, each tagged with `q` in front.
pub open spec fn tag_with<T>(q: Range, found: Seq<(Range, T)>) -> Seq<(Range, Range, T)> {
    found.map_values(|p: (Range, T)| (q, p.0, p.1))
}

/// The pairs that a query over `q` answered with: tagged with `q` when the
/// query found pairs, none when it found nothing to look in.
pub open spec fn found_tagged<T>(q: Range, answer: Option<Seq<(Range, T)>>) -> Seq<
    (Range, Range, T),
> {
    match answer {
        Some(found) => tag_with(q, found),
        None => Seq::empty(),
    }
}

/// The triples that reading `ranges` hands out when the query over
/// `ranges[i]` answered `answers[i]`: range by range, the tagged pairs of
/// each query; a query that found nothing to look in adds none.
pub open spec fn expected_items<T>(
    ranges: Seq<Range>,
    answers: Seq<Option<Seq<(Range, T)>>>,
) -> Seq<(Range, Range, T)>
    decreases answers.len(),
{
    if answers.len() == 0 || ranges.len() == 0 {
        Seq::empty()
    } else {
        found_tagged(ranges[0], answers[0]) + expected_items(
            ranges.drop_first(),
            answers.drop_first(),
        )
    }
}

/// Answering one more query adds that query's tagged pairs at the end.
pub(crate) proof fn lemma_expected_items_push<T>(
    ranges: Seq<Range>,
    answers: Seq<Option<Seq<(Range, T)>>>,
    next: Option<Seq<(Range, T)>>,
)
    requires
        answers.len() < ranges.len(),
    ensures
        expected_items(ranges, answers.push(next)) == expected_items(ranges, answers)
            + found_tagged(ranges[answers.len() as int], next),
    decreases answers.len(),
{
    let pushed = answers.push(next);
    if answers.len() == 0 {
        assert(pushed.drop_first() =~= Seq::<Option<Seq<(Range, T)>>>::empty());
        assert(expected_items(ranges.drop_first(), pushed.drop_first()) == Seq::<
            (Range, Range, T),
        >::empty());
        assert(found_tagged(ranges[0], next) + Seq::<(Range, Range, T)>::empty() =~= found_tagged(
            ranges[0],
            next,
        ));
        assert(Seq::<(Range, Range, T)>::empty() + found_tagged(ranges[0], next) =~= found_tagged(
            ranges[0],
            next,
        ));
    } else {
        assert(pushed[0] == answers[0]);
        assert(pushed.drop_first() =~= answers.drop_first().push(next));
        let rest = answers.drop_first();
        lemma_expected_items_push(ranges.drop_first(), rest, next);
        assert(ranges.drop_first()[rest.len() as int] == ranges[answers.len() as int]);
        let head = found_tagged(ranges[0], answers[0]);
        let tail = found_tagged(ranges[answers.len() as int], next);
        assert(head + (expected_items(ranges.drop_first(), rest) + tail) =~= (head
            + expected_items(ranges.drop_first(), rest)) + tail);
    }
}

/// Ranges beyond those already answered play no part in what was handed out.
pub(crate) proof fn lemma_expected_items_extra_range<T>(
    ranges: Seq<Range>,
    answers: Seq<Option<Seq<(Range, T)>>>,
    extra: Range,
)
    requires
        answers.len() <= ranges.len(),
    ensures
        expected_items(ranges.push(extra), answers) == expected_items(ranges, answers),
    decreases answers.len(),
{
    if answers.len() > 0 {
        assert(ranges.push(extra)[0] == ranges[0]);
        assert(ranges.push(extra).drop_first() =~= ranges.drop_first().push(extra));
        lemma_expected_items_extra_range(ranges.drop_first(), answers.drop_first(), extra);
    }
}

/// How many pairs the queries found in all, counting a query that found
/// nothing to look in as none.
pub open spec fn total_found<T>(answers: Seq<Option<Seq<(Range, T)>>>) -> nat
    decreases answers.len(),
{
    if answers.len() == 0 {
        0
    } else {
        (match answers[0] {
            Some(found) => found.len(),
            None => 0,
        }) + total_found(answers.drop_first())
    }
}

/// A reading hands out no more triples than its queries found.
pub proof fn lemma_expected_items_len<T>(
    ranges: Seq<Range>,
    answers: Seq<Option<Seq<(Range, T)>>>,
)
    ensures
        expected_items(ranges, answers).len() <= total_found(answers),
    decreases answers.len(),
{
    if answers.len() > 0 && ranges.len() > 0 {
        lemma_expected_items_len(ranges.drop_first(), answers.drop_first());
    }
}

/// A reading hands out exactly as many triples as its queries found: no
/// found pair is left out.
pub proof fn lemma_expected_items_count<T>(
    ranges: Seq<Range>,
    answers: Seq<Option<Seq<(Range, T)>>>,
)
    requires
        answers.len() <= ranges.len(),
    ensures
        expected_items(ranges, answers).len() == total_found(answers),
    decreases answers.len(),
{
    if answers.len() > 0 {
        lemma_expected_items_count(ranges.drop_first(), answers.drop_first());
    }
}

/// Where each triple that a reading hands out comes from: the `j`-th triple
/// is the `k`-th pair that the query over `ranges[i]` found, tagged with that
/// range, and it comes after all pairs of the earlier queries
/// (`j == total_found(answers.take(i)) + k`). So each found pair is handed
/// out once, query by query, in the order found.
pub proof fn lemma_expected_items_source<T>(
    ranges: Seq<Range>,
    answers: Seq<Option<Seq<(Range, T)>>>,
    j: int,
) -> (source: (int, int))
    requires
        0 <= j < expected_items(ranges, answers).len(),
    ensures
        0 <= source.0 < answers.len(),
        source.0 < ranges.len(),
        answers[source.0] is Some,
        0 <= source.1 < answers[source.0].unwrap().len(),
        expected_items(ranges, answers)[j] == ({
            let p = answers[source.0].unwrap()[source.1];
            (ranges[source.0], p.0, p.1)
        }),
        j == total_found(answers.take(source.0)) + source.1,
    decreases answers.len(),
{
    let n0: int = match answers[0] {
        Some(found) => found.len() as int,
        None => 0,
    };
    assert(answers.take(0) =~= Seq::<Option<Seq<(Range, T)>>>::empty());
    if answers[0] is Some && j < n0 {
        (0, j)
    } else {
        let (i, k) = lemma_expected_items_source(
            ranges.drop_first(),
            answers.drop_first(),
            j - n0,
        );
        assert(answers.take(i + 1).drop_first() =~= answers.drop_first().take(i));
        assert(answers.take(i + 1)[0] == answers[0]);
        (i + 1, k)
    }
}

/// One move of a reading over many ranges.
pub enum IterStep<T> {
    /// Query the table over this range and hand what was found to
    /// [`ManyRangeIter::answer_query`].
    Query(Range),
    /// The next triple: query range, stored range, data.
    Item(Range, Range, T),
    /// The reading is over.
    Finished,
}

/// A reading of one table over a list of query ranges.
#[verifier::reject_recursive_types(T)]
pub struct ManyRangeIter<T> {
    table: String,
    ranges: Vec<Range>,
    next_range: usize,
    pending: VecDeque<(Range, Range, T)>,
    awaiting: bool,
    end_due: bool,
    answers: Ghost<Seq<Option<Seq<(Range, T)>>>>,
    produced: Ghost<Seq<(Range, Range, T)>>,
    calls: Ghost<nat>,
}

impl<T> ManyRangeIter<T> {
    /// The table being read.
    pub closed spec fn table_name(&self) -> Seq<char> {
        self.table@
    }

    /// The query ranges, in the order they are queried.
    pub closed spec fn query_ranges(&self) -> Seq<Range> {
        self.ranges@
    }

    /// What each query answered so far: `answers()[i]` is what the query over
    /// `query_ranges()[i]` found.
    pub closed spec fn answers(&self) -> Seq<Option<Seq<(Range, T)>>> {
        self.answers@
    }

    /// The triples handed out so far, in order.
    pub closed spec fn produced(&self) -> Seq<(Range, Range, T)> {
        self.produced@
    }

    /// The triples found but not handed out yet, in the order they will be.
    pub closed spec fn pending(&self) -> Seq<(Range, Range, T)> {
        self.pending@
    }

    /// A query was asked for and its answer is awaited.
    pub closed spec fn is_awaiting(&self) -> bool {
        self.awaiting
    }

    /// The last query found nothing to look in: the next call of `next`
    /// reports an end, once, and the reading then goes on with the ranges
    /// left.
    pub closed spec fn is_end_due(&self) -> bool {
        self.end_due
    }

    /// How many calls of `next` so far did not report the end.
    pub closed spec fn calls_made(&self) -> nat {
        self.calls@
    }

    /// The internal consistency of a reading.
    pub closed spec fn wf(&self) -> bool {
        &&& self.next_range <= self.ranges@.len()
        &&& self.answers@.len() + (if self.awaiting {
            1int
        } else {
            0int
        }) == self.next_range
        &&& self.awaiting ==> self.pending@.len() == 0 && !self.end_due
        &&& self.end_due ==> {
            &&& self.answers@.len() > 0
            &&& self.answers@.last() is None
            &&& self.pending@.len() == 0
        }
        &&& self.produced@ + self.pending@ == expected_items(self.ranges@, self.answers@)
        &&& self.calls@ == self.produced@.len() + self.next_range
    }

    /// What holds of every well-formed reading: the answers so far belong to
    /// the first query ranges; an end is due only right after an answer that
    /// found nothing to look in, and nothing is pending then or while an
    /// answer is awaited; what was
    /// handed out followed by what is pending is `expected_items` of the
    /// answers so far; and the calls of `next` that did not report the end
    /// number the triples handed out plus the queries asked, which is at most
    /// the number of query ranges plus the number of pairs found.
    pub proof fn lemma_wf(&self)
        requires
            self.wf(),
        ensures
            self.answers().len() <= self.query_ranges().len(),
            self.is_awaiting() ==> {
                &&& self.pending().len() == 0
                &&& !self.is_end_due()
                &&& self.answers().len() < self.query_ranges().len()
            },
            self.is_end_due() ==> {
                &&& self.answers().len() > 0
                &&& self.answers().last() is None
                &&& self.pending().len() == 0
            },
            self.produced() + self.pending() == expected_items(
                self.query_ranges(),
                self.answers(),
            ),
            self.calls_made() == self.produced().len() + self.answers().len() + (if self.is_awaiting() {
                1int
            } else {
                0int
            }),
            self.calls_made() <= self.query_ranges().len() + total_found(self.answers()),
    {
        lemma_expected_items_len(self.ranges@, self.answers@);
        assert((self.produced@ + self.pending@).len() == self.produced@.len() + self.pending@.len());
    }

    /// Starts a reading of table `tbl` over the ranges `rngs`.
    pub fn new(tbl: String, rngs: Vec<Range>) -> (it: Self)
        ensures
            it.wf(),
            it.table_name() == tbl@,
            it.query_ranges() == rngs@,
            it.answers() == Seq::<Option<Seq<(Range, T)>>>::empty(),
            it.produced() == Seq::<(Range, Range, T)>::empty(),
            it.pending() == Seq::<(Range, Range, T)>::empty(),
            it.calls_made() == 0,
            !it.is_awaiting(),
            !it.is_end_due(),
    {
        let it = ManyRangeIter {
            table: tbl,
            ranges: rngs,
            next_range: 0,
            pending: VecDeque::new(),
            awaiting: false,
            end_due: false,
            answers: Ghost(Seq::empty()),
            produced: Ghost(Seq::empty()),
            calls: Ghost(0),
        };
        assert(it.produced@ + it.pending@ =~= Seq::<(Range, Range, T)>::empty());
        it
    }

    /// The table being read.
    pub fn table(&self) -> (t: &String)
        ensures
            t@ == self.table_name(),
    {
        &self.table
    }

    /// The next move of the reading: hand out the next pending triple; else
    /// report an end, once, right after a query that found nothing to look
    /// in; else ask for the next range left to be queried; else report the
    /// end. Whenever an end is reported, the triples handed out are exactly
    /// `expected_items(query_ranges(), answers())`, and the next call asks
    /// for the next range unless every range has been queried. Every call that does not
    /// report the end counts in `calls_made()`, which `lemma_wf` bounds by the
    /// number of query ranges plus the number of pairs found.
    pub fn next(&mut self) -> (step: IterStep<T>)
        requires
            old(self).wf(),
            !old(self).is_awaiting(),
        ensures
            final(self).wf(),
            final(self).table_name() == old(self).table_name(),
            final(self).query_ranges() == old(self).query_ranges(),
            final(self).answers() == old(self).answers(),
            !final(self).is_end_due(),
            final(self).calls_made() == old(self).calls_made() + if step is Finished {
                0int
            } else {
                1int
            },
            match step {
                IterStep::Item(q, f, d) => {
                    &&& old(self).pending().len() > 0
                    &&& (q, f, d) == old(self).pending()[0]
                    &&& final(self).pending() == old(self).pending().drop_first()
                    &&& final(self).produced() == old(self).produced().push((q, f, d))
                    &&& !final(self).is_awaiting()
                },
                IterStep::Query(q) => {
                    &&& old(self).pending().len() == 0
                    &&& !old(self).is_end_due()
                    &&& old(self).answers().len() < old(self).query_ranges().len()
                    &&& q == old(self).query_ranges()[old(self).answers().len() as int]
                    &&& final(self).pending() == old(self).pending()
                    &&& final(self).produced() == old(self).produced()
                    &&& final(self).is_awaiting()
                },
                IterStep::Finished => {
                    &&& old(self).pending().len() == 0
                    &&& (old(self).is_end_due() || old(self).answers().len()
                        == old(self).query_ranges().len())
                    &&& final(self).pending() == old(self).pending()
                    &&& final(self).produced() == old(self).produced()
                    &&& !final(self).is_awaiting()
                    &&& final(self).produced() == expected_items(
                        final(self).query_ranges(),
                        final(self).answers(),
                    )
                },
            },
    {
        match self.pending.pop_front() {
            Some(item) => {
                proof {
                    let old_pending = old(self).pending@;
                    assert(old_pending =~= seq![item] + self.pending@);
                    self.produced@ = self.produced@.push(item);
                    self.calls@ = self.calls@ + 1;
                    assert(self.produced@ + self.pending@ =~= old(self).produced@ + old_pending);
                }
                let (q, f, d) = item;
                IterStep::Item(q, f, d)
            },
            None => {
                if self.end_due || self.next_range >= self.ranges.len() {
                    self.end_due = false;
                    proof {
                        assert(self.produced@ + self.pending@ =~= self.produced@);
                    }
                    IterStep::Finished
                } else {
                    let q = self.ranges[self.next_range];
                    self.next_range = self.next_range + 1;
                    self.awaiting = true;
                    proof {
                        self.calls@ = self.calls@ + 1;
                    }
                    IterStep::Query(q)
                }
            },
        }
    }

    /// Takes what the query over the asked-for range found: `None` makes the
    /// next call report an end; found pairs become pending triples tagged
    /// with that range.
    pub fn answer_query(&mut self, found: Option<Vec<(Range, T)>>)
        requires
            old(self).wf(),
            old(self).is_awaiting(),
        ensures
            final(self).wf(),
            final(self).table_name() == old(self).table_name(),
            final(self).query_ranges() == old(self).query_ranges(),
            final(self).answers() == old(self).answers().push(answer_view(found)),
            final(self).produced() == old(self).produced(),
            final(self).calls_made() == old(self).calls_made(),
            !final(self).is_awaiting(),
            match found {
                None => {
                    &&& final(self).is_end_due()
                    &&& final(self).pending() == Seq::<(Range, Range, T)>::empty()
                },
                Some(v) => {
                    &&& !final(self).is_end_due()
                    &&& final(self).pending() == tag_with(
                        old(self).query_ranges()[old(self).answers().len() as int],
                        v@,
                    )
                    &&& final(self).pending().len() == v@.len()
                    &&& forall|i: int|
                        0 <= i < v@.len() ==> #[trigger] final(self).pending()[i] == (
                            old(self).query_ranges()[old(self).answers().len() as int],
                            v@[i].0,
                            v@[i].1,
                        )
                },
            },
    {
        let ghost old_answers = self.answers@;
        let ghost idx = old_answers.len() as int;
        proof {
            lemma_expected_items_push(self.ranges@, old_answers, answer_view(found));
            self.answers@ = old_answers.push(answer_view(found));
        }
        self.awaiting = false;
        let q = self.ranges[self.next_range - 1];
        assert(q == self.ranges@[idx]);
        match found {
            None => {
                self.end_due = true;
                proof {
                    assert(self.pending@ =~= Seq::<(Range, Range, T)>::empty());
                    assert(self.produced@ + self.pending@ =~= self.produced@ + Seq::<
                        (Range, Range, T),
                    >::empty());
                }
            },
            Some(v) => {
                let ghost orig = v@;
                let mut rest = v;
                let mut tagged: VecDeque<(Range, Range, T)> = VecDeque::new();
                while rest.len() > 0
                    invariant
                        orig.len() >= rest@.len(),
                        rest@ == orig.subrange(0, rest@.len() as int),
                        tagged@ == tag_with(q, orig.subrange(rest@.len() as int, orig.len() as int)),
                    decreases rest@.len(),
                {
                    let ghost before = rest@.len() as int;
                    let (f, d) = rest.pop().unwrap();
                    tagged.push_front((q, f, d));
                    proof {
                        assert(orig.subrange(before - 1, orig.len() as int) =~= seq![orig[before - 1]]
                            + orig.subrange(before, orig.len() as int));
                        assert(rest@ =~= orig.subrange(0, rest@.len() as int));
                        assert(tagged@ =~= tag_with(
                            q,
                            orig.subrange(rest@.len() as int, orig.len() as int),
                        ));
                    }
                }
                proof {
                    assert(orig.subrange(0, orig.len() as int) =~= orig);
                }
                self.pending = tagged;
                proof {
                    assert(self.produced@ + self.pending@ =~= self.produced@ + Seq::<
                        (Range, Range, T),
                    >::empty() + tag_with(q, orig));
                    assert(self.produced@ + Seq::<(Range, Range, T)>::empty() =~= self.produced@);
                }
            },
        }
    }
}

/// Opens a reading of table `tbl` over `ranges`: refused with
/// `TableNotFound` naming the table when the table does not exist.
pub fn open_query<T>(tbl: &String, table_exists: bool, ranges: Vec<Range>) -> (r: DBResult<
    ManyRangeIter<T>,
>)
    ensures
        r is Err <==> !table_exists,
        match r {
            Ok(it) => {
                &&& it.wf()
                &&& it.table_name() == tbl@
                &&& it.query_ranges() == ranges@
                &&& it.answers() == Seq::<Option<Seq<(Range, T)>>>::empty()
                &&& it.produced() == Seq::<(Range, Range, T)>::empty()
                &&& it.pending() == Seq::<(Range, Range, T)>::empty()
                &&& it.calls_made() == 0
                &&& !it.is_awaiting()
                &&& !it.is_end_due()
            },
            Err(e) => e == DBInterfaceError::TableNotFound(*tbl),
        },
{
    if !table_exists {
        return Err(DBInterfaceError::TableNotFound(tbl.clone()));
    }
    Ok(ManyRangeIter::new(tbl.clone(), ranges))
}

} // verus!
