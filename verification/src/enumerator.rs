//! Enumeration of every key of the controller, by position.
//!
//! The number of keys is asked for once; the positions below it are then
//! looked up one after the other.  [`ValIter`] is the lazy form: it hands out
//! one lookup per position and leaves each result to the caller.
//! [`ListAllValues`] is the eager form: it runs every lookup itself and keeps
//! the values of those that succeed.
use vstd::prelude::*;
use crate::io::{
    count_result, index_calls, index_outcome, key_info_outcome, lemma_index_read_runs,
    lemma_keys_count_runs, Call, IndexRead, KeysCount, Progress, Reply, ValError,
};
use crate::structs::SMCVal;

verus! {

/// Cursor over the positions of the controller's key table.
///
/// It is made for a fixed number of keys and hands out, one by one and in
/// order, the lookups of the positions below that number.  It moves on by
/// one with every lookup handed out, whatever becomes of the lookup, and it
/// cannot be moved back or copied: an enumeration is made once.
#[derive(Debug, PartialEq, Eq)]
pub struct ValIter {
    total_count: u32,
    current: u32,
}

impl ValIter {
    /// The number of keys, fixed when the cursor is made.
    pub closed spec fn total_count(self) -> u32 {
        self.total_count
    }

    /// The position of the next lookup.
    pub closed spec fn current(self) -> u32 {
        self.current
    }

    /// The cursor over `total_count` keys, at the first.
    pub closed spec fn spec_new(total_count: u32) -> Self {
        ValIter { total_count, current: 0 }
    }

    /// True when every position has had its lookup.
    pub open spec fn exhausted(self) -> bool {
        self.current() >= self.total_count()
    }

    /// The cursor once the next lookup has been asked of it: moved on by one
    /// position, or as it was where it is exhausted.
    pub closed spec fn stepped(self) -> Self {
        if self.exhausted() {
            self
        } else {
            ValIter { total_count: self.total_count, current: (self.current + 1) as u32 }
        }
    }

    /// The lookups still to be handed out, in order.
    pub open spec fn remaining(self) -> Seq<IndexRead> {
        if self.exhausted() {
            Seq::empty()
        } else {
            Seq::new(
                (self.total_count() - self.current()) as nat,
                |i: int| IndexRead::spec_start((self.current() + i) as u32),
            )
        }
    }

    /// The cursor once `pulls` lookups have been asked of it.
    pub open spec fn after(self, pulls: nat) -> Self
        decreases pulls,
    {
        if pulls == 0 {
            self
        } else {
            self.stepped().after((pulls - 1) as nat)
        }
    }

    /// A cursor over `total_count` keys, at the first.
    pub fn new(total_count: u32) -> (it: Self)
        ensures
            it == Self::spec_new(total_count),
            it.total_count() == total_count,
            it.current() == 0,
    {
        ValIter { total_count, current: 0 }
    }

    /// Hands out the next lookup, or `None` once every position has had its
    /// lookup.
    pub fn next(&mut self) -> (r: Option<IndexRead>)
        ensures
            *final(self) == old(self).stepped(),
            final(self).total_count() == old(self).total_count(),
            final(self).current() == (if old(self).exhausted() {
                old(self).current() as int
            } else {
                old(self).current() + 1
            }),
            r == (if old(self).exhausted() {
                None
            } else {
                Some(IndexRead::spec_start(old(self).current()))
            }),
    {
        if self.current < self.total_count {
            let current = self.current;
            self.current += 1;
            Some(IndexRead::start(current))
        } else {
            None
        }
    }

    /// A new cursor stands at the first position, and a step moves a cursor
    /// on by one position, unless it is exhausted, and leaves the number of
    /// keys as it is.
    pub proof fn lemma_stepped(self, total_count: u32)
        ensures
            Self::spec_new(total_count).total_count() == total_count,
            Self::spec_new(total_count).current() == 0,
            self.stepped().total_count() == self.total_count(),
            self.stepped().current() == (if self.exhausted() {
                self.current() as int
            } else {
                self.current() + 1
            }),
            self.exhausted() ==> self.stepped() == self,
    {
    }

    /// A cursor hands out the lookups of the positions from its own up to
    /// the number of keys, one each and in order; handing one out leaves the
    /// rest.
    pub proof fn lemma_remaining(self)
        ensures
            self.remaining().len() == (if self.exhausted() {
                0
            } else {
                self.total_count() - self.current()
            }),
            forall|i: int|
                0 <= i < self.remaining().len() ==> #[trigger] self.remaining()[i]
                    == IndexRead::spec_start((self.current() + i) as u32),
            !self.exhausted() ==> self.stepped().remaining() == self.remaining().drop_first(),
    {
        if !self.exhausted() {
            assert(self.stepped().remaining() =~= self.remaining().drop_first());
        }
    }

    /// Asking a cursor for `pulls` lookups moves it on by `pulls` positions,
    /// but not beyond the number of keys, which stays as it is.
    pub proof fn lemma_after(self, pulls: nat)
        ensures
            self.after(pulls).total_count() == self.total_count(),
            self.after(pulls).current() == (if self.exhausted() {
                self.current() as int
            } else if self.current() + pulls <= self.total_count() {
                self.current() + pulls
            } else {
                self.total_count() as int
            }),
        decreases pulls,
    {
        if pulls > 0 {
            self.stepped().lemma_after((pulls - 1) as nat);
        }
    }
}

/// Enumeration over `total` keys yields exactly `total` lookups, those of
/// the positions from 0 up to `total` in order, and then ends: the cursor
/// hands out a lookup at each of its first `total` pulls and none at any
/// later one.  What a lookup comes to has no part in this: the cursor never
/// sees it.
pub proof fn lemma_enumeration_is_total(total: u32, pulls: nat)
    ensures
        ValIter::spec_new(total).remaining().len() == total,
        forall|i: int|
            0 <= i < total ==> #[trigger] ValIter::spec_new(total).remaining()[i]
                == IndexRead::spec_start(i as u32),
        ValIter::spec_new(total).after(pulls).exhausted() <==> pulls >= total,
        pulls < total ==> ValIter::spec_new(total).after(pulls).current() == pulls,
{
    ValIter::spec_new(total).lemma_remaining();
    ValIter::spec_new(total).lemma_after(pulls);
}

/// Where the eager listing is.
#[derive(Debug, PartialEq, Eq)]
pub enum ListStage {
    /// The number of keys is being asked for.
    Count(KeysCount),
    /// A position is being looked up; the cursor stands behind it.
    Item { cursor: ValIter, read: IndexRead },
}

/// The eager listing of all keys: the values of the positions whose lookup
/// succeeds, in the order of the positions.  A lookup that fails, at
/// whichever of its calls, is passed over without a trace.
#[derive(Debug, PartialEq, Eq)]
pub struct ListAllValues {
    pub stage: ListStage,
    /// The values gathered so far.
    pub values: Vec<SMCVal>,
}

/// What a [`ListAllValues`] is, with the gathered values as a sequence.
pub struct ListAllValuesView {
    pub stage: ListStage,
    pub values: Seq<SMCVal>,
}

impl View for ListAllValues {
    type V = ListAllValuesView;

    open spec fn view(&self) -> ListAllValuesView {
        ListAllValuesView { stage: self.stage, values: self.values@ }
    }
}

/// The values gathered once a lookup has ended with `item`: one more where
/// the lookup succeeded, the same where it failed.
pub open spec fn gathered(values: Seq<SMCVal>, item: Result<SMCVal, ValError>) -> Seq<SMCVal> {
    match item {
        Ok(val) => values.push(val),
        Err(_) => values,
    }
}

/// Where a step of the listing leads, with the gathered values as a sequence.
pub open spec fn listing_view(p: Progress<ListAllValues, Result<Vec<SMCVal>, i32>>) -> Progress<
    ListAllValuesView,
    Result<Seq<SMCVal>, i32>,
> {
    match p {
        Progress::Pending(state) => Progress::Pending(state@),
        Progress::Finished(Ok(values)) => Progress::Finished(Ok(values@)),
        Progress::Finished(Err(code)) => Progress::Finished(Err(code)),
    }
}

impl ListAllValuesView {
    /// The listing before any call.
    pub open spec fn spec_start() -> Self {
        ListAllValuesView { stage: ListStage::Count(KeysCount::spec_start()), values: Seq::empty() }
    }

    /// The call that the listing awaits the reply of.
    pub open spec fn spec_call(self) -> Call {
        match self.stage {
            ListStage::Count(count) => count.spec_call(),
            ListStage::Item { read, .. } => read.spec_call(),
        }
    }

    /// Where the listing goes once a lookup is over and `cursor` says what
    /// is left: on to the next position, or to its end with the values
    /// gathered.
    pub open spec fn proceed(cursor: ValIter, values: Seq<SMCVal>) -> Progress<
        ListAllValuesView,
        Result<Seq<SMCVal>, i32>,
    > {
        if cursor.exhausted() {
            Progress::Finished(Ok(values))
        } else {
            Progress::Pending(
                ListAllValuesView {
                    stage: ListStage::Item {
                        cursor: cursor.stepped(),
                        read: IndexRead::spec_start(cursor.current()),
                    },
                    values,
                },
            )
        }
    }

    /// Where the listing stands after `reply`.
    pub open spec fn next(self, reply: Reply) -> Progress<
        ListAllValuesView,
        Result<Seq<SMCVal>, i32>,
    > {
        match self.stage {
            ListStage::Count(count) => match count.next(reply) {
                Progress::Pending(count) => Progress::Pending(
                    ListAllValuesView { stage: ListStage::Count(count), values: self.values },
                ),
                Progress::Finished(Err(code)) => Progress::Finished(Err(code)),
                Progress::Finished(Ok(total)) => Self::proceed(
                    ValIter::spec_new(total),
                    self.values,
                ),
            },
            ListStage::Item { cursor, read } => match read.next(reply) {
                Progress::Pending(read) => Progress::Pending(
                    ListAllValuesView {
                        stage: ListStage::Item { cursor, read },
                        values: self.values,
                    },
                ),
                Progress::Finished(item) => Self::proceed(cursor, gathered(self.values, item)),
            },
        }
    }
}

impl ListAllValues {
    /// Begins the listing.
    pub fn start() -> (op: Self)
        ensures
            op@ == ListAllValuesView::spec_start(),
    {
        ListAllValues { stage: ListStage::Count(KeysCount::start()), values: Vec::new() }
    }

    /// The call to make next.
    pub fn call(&self) -> (c: Call)
        ensures
            c == self@.spec_call(),
    {
        match &self.stage {
            ListStage::Count(count) => count.call(),
            ListStage::Item { read, .. } => read.call(),
        }
    }

    /// Goes on to the next position, or ends the listing.
    fn proceed(cursor: ValIter, values: Vec<SMCVal>) -> (p: Progress<
        ListAllValues,
        Result<Vec<SMCVal>, i32>,
    >)
        ensures
            listing_view(p) == ListAllValuesView::proceed(cursor, values@),
    {
        let mut cursor = cursor;
        match cursor.next() {
            None => Progress::Finished(Ok(values)),
            Some(read) => Progress::Pending(
                ListAllValues { stage: ListStage::Item { cursor, read }, values },
            ),
        }
    }

    /// Takes in the reply to [`call`](Self::call).
    pub fn advance(self, reply: Reply) -> (p: Progress<ListAllValues, Result<Vec<SMCVal>, i32>>)
        ensures
            listing_view(p) == self@.next(reply),
    {
        let ListAllValues { stage, values } = self;
        match stage {
            ListStage::Count(count) => match count.advance(reply) {
                Progress::Pending(count) => Progress::Pending(
                    ListAllValues { stage: ListStage::Count(count), values },
                ),
                Progress::Finished(Err(code)) => Progress::Finished(Err(code)),
                Progress::Finished(Ok(total)) => Self::proceed(ValIter::new(total), values),
            },
            ListStage::Item { cursor, read } => match read.advance(reply) {
                Progress::Pending(read) => Progress::Pending(
                    ListAllValues { stage: ListStage::Item { cursor, read }, values },
                ),
                Progress::Finished(item) => {
                    let mut values = values;
                    match item {
                        Ok(val) => {
                            values.push(val);
                        },
                        Err(_) => {},
                    }
                    Self::proceed(cursor, values)
                },
            },
        }
    }
}

/// How many calls the lookups of the positions from `from` up to `total`
/// make, when the replies to come are those of `replies` from `at` on.
pub open spec fn listing_calls(total: u32, from: u32, replies: Seq<Reply>, at: int) -> int
    decreases total - from,
{
    if from >= total {
        0
    } else {
        let calls = index_calls(replies[at], replies[at + 1]);
        calls + listing_calls(total, (from + 1) as u32, replies, at + calls)
    }
}

/// The values of the positions from `from` up to `total` whose lookup
/// succeeds, in the order of the positions, when the replies to come are
/// those of `replies` from `at` on.
pub open spec fn listed(total: u32, from: u32, replies: Seq<Reply>, at: int) -> Seq<SMCVal>
    decreases total - from,
{
    if from >= total {
        Seq::empty()
    } else {
        let calls = index_calls(replies[at], replies[at + 1]);
        let rest = listed(total, (from + 1) as u32, replies, at + calls);
        match index_outcome(from, replies[at], replies[at + 1], replies[at + 2]) {
            Ok(val) => seq![val] + rest,
            Err(_) => rest,
        }
    }
}

impl ListAllValuesView {
    /// Where the listing stands once it has taken in, in order, the replies
    /// of `replies` from `at` on; it takes in none after its end.
    pub open spec fn run(self, replies: Seq<Reply>, at: int) -> Progress<
        ListAllValuesView,
        Result<Seq<SMCVal>, i32>,
    >
        decreases replies.len() - at,
    {
        if at < 0 || at >= replies.len() {
            Progress::Pending(self)
        } else {
            match self.next(replies[at]) {
                Progress::Pending(state) => state.run(replies, at + 1),
                Progress::Finished(result) => Progress::Finished(result),
            }
        }
    }
}

/// Every lookup makes at least one call.
pub proof fn lemma_listing_calls_bounds(total: u32, from: u32, replies: Seq<Reply>, at: int)
    ensures
        from < total ==> listing_calls(total, from, replies, at) >= index_calls(
            replies[at],
            replies[at + 1],
        ) >= 1,
        from >= total ==> listing_calls(total, from, replies, at) == 0,
        listing_calls(total, from, replies, at) <= 3 * (if from < total {
            total - from
        } else {
            0
        }),
        listed(total, from, replies, at).len() <= (if from < total {
            total - from
        } else {
            0
        }),
    decreases total - from,
{
    if from < total {
        let calls = index_calls(replies[at], replies[at + 1]);
        lemma_listing_calls_bounds(total, (from + 1) as u32, replies, at + calls);
    }
}

/// Once the number of keys is known, the listing looks up every position
/// from the cursor's on, in order, passes over each lookup that fails and
/// ends with the values gathered before and the values of the lookups that
/// succeed.
pub proof fn lemma_listing_runs_from(
    cursor: ValIter,
    values: Seq<SMCVal>,
    replies: Seq<Reply>,
    at: int,
)
    requires
        0 <= at,
        at + listing_calls(cursor.total_count(), cursor.current(), replies, at) == replies.len(),
    ensures
        ({
            let result = Progress::<ListAllValuesView, Result<Seq<SMCVal>, i32>>::Finished(
                Ok(values + listed(cursor.total_count(), cursor.current(), replies, at)),
            );
            match ListAllValuesView::proceed(cursor, values) {
                Progress::Finished(_) => ListAllValuesView::proceed(cursor, values) == result,
                Progress::Pending(state) => state.run(replies, at) == result,
            }
        }),
    decreases cursor.total_count() - cursor.current(),
{
    let total = cursor.total_count();
    let from = cursor.current();
    if cursor.exhausted() {
        assert(values + listed(total, from, replies, at) =~= values);
    } else {
        let state = ListAllValuesView::proceed(cursor, values)->Pending_0;
        let named = replies[at];
        let info = replies[at + 1];
        let payload = replies[at + 2];
        let calls = index_calls(named, info);
        let item = index_outcome(from, named, info, payload);
        let after = gathered(values, item);
        let rest = listed(total, (from + 1) as u32, replies, at + calls);
        lemma_index_read_runs(from, named, info, payload);
        lemma_listing_calls_bounds(total, (from + 1) as u32, replies, at + calls);
        lemma_listing_runs_from(cursor.stepped(), after, replies, at + calls);
        assert(after + rest =~= values + listed(total, from, replies, at));
        let onward = ListAllValuesView::proceed(cursor.stepped(), after);
        let result = Progress::<ListAllValuesView, Result<Seq<SMCVal>, i32>>::Finished(
            Ok(values + listed(total, from, replies, at)),
        );
        // The state reached when the lookup is over, and the run from there.
        let ended = match onward {
            Progress::Pending(next_state) => next_state.run(replies, at + calls),
            Progress::Finished(r) => Progress::Finished(r),
        };
        assert(ended == result);
        if calls == 1 {
            assert(state.next(named) == onward);
            assert(state.run(replies, at) == ended);
        } else {
            let second = state.next(named)->Pending_0;
            assert(state.next(named) is Pending);
            assert(state.run(replies, at) == second.run(replies, at + 1));
            if calls == 2 {
                assert(second.next(info) == onward);
                assert(second.run(replies, at + 1) == ended);
            } else {
                let third = second.next(info)->Pending_0;
                assert(second.next(info) is Pending);
                assert(second.run(replies, at + 1) == third.run(replies, at + 2));
                assert(third.next(payload) == onward);
                assert(third.run(replies, at + 2) == ended);
            }
        }
    }
}

/// The eager listing, from its first call to its end.  Where the query for
/// the number of keys fails, the listing fails with the code of the query.
/// Where it gives a number, the listing looks up every position below it
/// and ends with the values of the lookups that succeed, in the order of the
/// positions: no more values than positions, and no lookup that fails stops
/// it.
pub proof fn lemma_listing_gathers_successes(replies: Seq<Reply>)
    requires
        replies.len() >= 2,
        match count_result(replies[0], replies[1]) {
            Err(_) => true,
            Ok(total) => replies.len() == 2 + listing_calls(total, 0, replies, 2),
        },
    ensures
        ListAllValuesView::spec_start().run(replies, 0) == Progress::<
            ListAllValuesView,
            Result<Seq<SMCVal>, i32>,
        >::Finished(
            match count_result(replies[0], replies[1]) {
                Err(code) => Err(code),
                Ok(total) => Ok(listed(total, 0, replies, 2)),
            },
        ),
        count_result(replies[0], replies[1]) matches Ok(total) ==> listed(
            total,
            0,
            replies,
            2,
        ).len() <= total,
{
    let start = ListAllValuesView::spec_start();
    let info = replies[0];
    let payload = replies[1];
    lemma_keys_count_runs(info, payload);
    if key_info_outcome(info) is Err {
        assert(start.next(info) is Finished);
    } else {
        let second = start.next(info)->Pending_0;
        assert(start.next(info) is Pending);
        assert(start.run(replies, 0) == second.run(replies, 1));
        match count_result(info, payload) {
            Err(code) => {
                assert(second.next(payload) is Finished);
            },
            Ok(total) => {
                let cursor = ValIter::spec_new(total);
                let empty = Seq::<SMCVal>::empty();
                lemma_listing_runs_from(cursor, empty, replies, 2);
                lemma_listing_calls_bounds(total, 0, replies, 2);
                assert(empty + listed(total, 0, replies, 2) =~= listed(total, 0, replies, 2));
                assert(second.next(payload) == ListAllValuesView::proceed(cursor, empty));
            },
        }
    }
}

} // verus!
