//! The bounded, sequential collection of stories: at most as many as were
//! asked for, one identifier at a time and in the order of the list, with a
//! failed fetch skipped and every attempt reported.

use vstd::prelude::*;
use crate::error::FetchError;
use crate::story::Story;

verus! {

/// The number of identifiers that a run attempts: as many as were asked
/// for, or all that there are where there are fewer.
pub open spec fn limit_of(count: nat, available: nat) -> nat {
    if count <= available {
        count
    } else {
        available
    }
}

/// The stories among the outcomes of the attempts, in the order of the
/// attempts.
pub open spec fn successes(outcomes: Seq<Result<Story, FetchError>>) -> Seq<Story>
    decreases outcomes.len(),
{
    if outcomes.len() == 0 {
        Seq::empty()
    } else {
        match outcomes.last() {
            Ok(story) => successes(outcomes.drop_last()).push(story),
            Err(_) => successes(outcomes.drop_last()),
        }
    }
}

/// The number of attempts that failed.
pub open spec fn failures(outcomes: Seq<Result<Story, FetchError>>) -> nat
    decreases outcomes.len(),
{
    if outcomes.len() == 0 {
        0
    } else {
        match outcomes.last() {
            Ok(_) => failures(outcomes.drop_last()),
            Err(_) => failures(outcomes.drop_last()) + 1,
        }
    }
}

/// A collection under way, as mathematical values: the identifiers as they
/// were listed, the number of them that will be attempted, and the outcome
/// of each attempt made so far, in the order of the attempts.
pub struct Collection {
    pub ids: Seq<u32>,
    pub limit: nat,
    pub outcomes: Seq<Result<Story, FetchError>>,
}

impl Collection {
    /// The collection before the first attempt.
    pub open spec fn start(ids: Seq<u32>, count: nat) -> Collection {
        Collection { ids, limit: limit_of(count, ids.len()), outcomes: Seq::empty() }
    }

    /// The number of attempts made.
    pub open spec fn attempted(self) -> nat {
        self.outcomes.len()
    }

    /// Whether every identifier within the limit has been attempted.
    pub open spec fn done(self) -> bool {
        self.attempted() >= self.limit
    }

    /// The identifier to attempt next.
    pub open spec fn next_id(self) -> Option<u32> {
        if self.done() {
            None
        } else {
            Some(self.ids[self.attempted() as int])
        }
    }

    /// The stories collected so far.
    pub open spec fn records(self) -> Seq<Story> {
        successes(self.outcomes)
    }

    /// The collection after the outcome of one more attempt. An outcome
    /// that comes when all attempts are made changes nothing.
    pub open spec fn after(self, outcome: Result<Story, FetchError>) -> Collection {
        if self.done() {
            self
        } else {
            Collection { outcomes: self.outcomes.push(outcome), ..self }
        }
    }

    /// The collection after a run of outcomes, one after the other.
    pub open spec fn after_all(self, outcomes: Seq<Result<Story, FetchError>>) -> Collection
        decreases outcomes.len(),
    {
        if outcomes.len() == 0 {
            self
        } else {
            self.after_all(outcomes.drop_last()).after(outcomes.last())
        }
    }

    /// What the collection reports of the attempt whose outcome comes next:
    /// nothing where no attempt was due.
    pub open spec fn report(self, outcome: Result<Story, FetchError>) -> Option<Report> {
        if self.done() {
            None
        } else {
            Some(
                Report {
                    id: self.ids[self.attempted() as int],
                    completed: self.attempted() + 1,
                    limit: self.limit,
                    skipped: match outcome {
                        Ok(_) => None,
                        Err(cause) => Some(cause),
                    },
                },
            )
        }
    }

    /// No more identifiers are to be attempted than were listed, and no
    /// more were attempted than are to be.
    pub open spec fn valid(self) -> bool {
        &&& self.limit <= self.ids.len()
        &&& self.outcomes.len() <= self.limit
    }
}

/// The report of one attempt, as mathematical values.
pub struct Report {
    pub id: u32,
    pub completed: nat,
    pub limit: nat,
    pub skipped: Option<FetchError>,
}

/// The report of one attempt.
#[derive(Clone, Debug, PartialEq, Eq)]
pub struct Progress {
    /// The identifier that was attempted.
    pub id: u32,
    /// The number of attempts made, this one counted.
    pub completed: usize,
    /// The number of attempts that the run makes in all.
    pub limit: usize,
    /// Why the story was skipped, where the attempt failed.
    pub skipped: Option<FetchError>,
}

impl View for Progress {
    type V = Report;

    open spec fn view(&self) -> Report {
        Report {
            id: self.id,
            completed: self.completed as nat,
            limit: self.limit as nat,
            skipped: self.skipped,
        }
    }
}

/// A report, if there is one, taken by its view.
pub open spec fn report_view(report: Option<Progress>) -> Option<Report> {
    match report {
        Some(progress) => Some(progress@),
        None => None,
    }
}

/// The collection of a run. It hands out the identifiers to fetch, takes
/// the outcome of each fetch, and keeps the stories that came.
pub struct Collector {
    ids: Vec<u32>,
    limit: usize,
    attempted: usize,
    records: Vec<Story>,
    outcomes: Ghost<Seq<Result<Story, FetchError>>>,
}

impl View for Collector {
    type V = Collection;

    closed spec fn view(&self) -> Collection {
        Collection { ids: self.ids@, limit: self.limit as nat, outcomes: self.outcomes@ }
    }
}

impl Collector {
    /// What holds of every collector: its fields agree with each other and
    /// with the outcomes that it has taken.
    pub closed spec fn wf(&self) -> bool {
        &&& self@.valid()
        &&& self.attempted == self.outcomes@.len()
        &&& self.records@ == successes(self.outcomes@)
    }

    /// A collector for the first `count` identifiers of `ids`, or for all
    /// of them where there are fewer.
    pub fn new(ids: Vec<u32>, count: u64) -> (collector: Collector)
        ensures
            collector.wf(),
            collector@ == Collection::start(ids@, count as nat),
    {
        let available = ids.len();
        let limit: usize = if count <= available as u64 {
            count as usize
        } else {
            available
        };
        Collector { ids, limit, attempted: 0, records: Vec::new(), outcomes: Ghost(Seq::empty()) }
    }

    /// The number of identifiers that the run attempts in all.
    pub fn limit(&self) -> (limit: usize)
        ensures
            limit == self@.limit,
    {
        self.limit
    }

    /// The number of attempts made so far.
    pub fn attempted(&self) -> (attempted: usize)
        requires
            self.wf(),
        ensures
            attempted == self@.attempted(),
    {
        self.attempted
    }

    /// Whether every identifier within the limit has been attempted.
    pub fn is_done(&self) -> (done: bool)
        requires
            self.wf(),
        ensures
            done == self@.done(),
    {
        self.attempted >= self.limit
    }

    /// The identifier to fetch next, or `None` when all attempts are made.
    pub fn next_id(&self) -> (next: Option<u32>)
        requires
            self.wf(),
        ensures
            next == self@.next_id(),
    {
        if self.attempted < self.limit {
            Some(self.ids[self.attempted])
        } else {
            None
        }
    }

    /// Takes the outcome of the fetch of the identifier that was due: a
    /// story is appended to the collection, a failure is skipped. Either
    /// way the attempt is counted and reported. An outcome that comes when
    /// no attempt is due is dropped, and nothing is reported.
    pub fn record(&mut self, outcome: Result<Story, FetchError>) -> (report: Option<Progress>)
        requires
            old(self).wf(),
        ensures
            final(self).wf(),
            final(self)@ == old(self)@.after(outcome),
            report_view(report) == old(self)@.report(outcome),
    {
        if self.attempted >= self.limit {
            return None;
        }
        let id = self.ids[self.attempted];
        let ghost before = self.outcomes@;
        proof {
            assert(before.push(outcome).drop_last() =~= before);
        }
        self.outcomes = Ghost(before.push(outcome));
        self.attempted = self.attempted + 1;
        let skipped = match outcome {
            Ok(story) => {
                self.records.push(story);
                None
            },
            Err(cause) => Some(cause),
        };
        Some(Progress { id, completed: self.attempted, limit: self.limit, skipped })
    }

    /// The stories collected so far, in the order of their identifiers.
    pub fn records(&self) -> (records: &Vec<Story>)
        requires
            self.wf(),
        ensures
            records@ == self@.records(),
    {
        &self.records
    }

    /// Ends the collection and gives the stories that it holds.
    pub fn into_records(self) -> (records: Vec<Story>)
        requires
            self.wf(),
        ensures
            records@ == self@.records(),
    {
        self.records
    }
}

/// The place among the attempts of the story that stands at `k` in the
/// collection.
pub open spec fn source(outcomes: Seq<Result<Story, FetchError>>, k: int) -> int
    decreases outcomes.len(),
{
    if outcomes.len() == 0 {
        0
    } else if outcomes.last() is Ok && k == successes(outcomes.drop_last()).len() {
        outcomes.len() - 1
    } else {
        source(outcomes.drop_last(), k)
    }
}

/// Every attempt either adds a story or counts as a failure: the stories
/// collected are as many as the attempts less the failures.
pub proof fn law_every_attempt_counted(outcomes: Seq<Result<Story, FetchError>>)
    ensures
        successes(outcomes).len() + failures(outcomes) == outcomes.len(),
    decreases outcomes.len(),
{
    if outcomes.len() > 0 {
        law_every_attempt_counted(outcomes.drop_last());
    }
}

/// Where no attempt fails, the collection holds one story for each
/// attempt, at the place of the attempt.
pub proof fn law_all_succeed(outcomes: Seq<Result<Story, FetchError>>)
    requires
        forall|i: int| 0 <= i < outcomes.len() ==> outcomes[i] is Ok,
    ensures
        successes(outcomes).len() == outcomes.len(),
        forall|i: int|
            0 <= i < outcomes.len() ==> outcomes[i] == Ok::<Story, FetchError>(
                #[trigger] successes(outcomes)[i],
            ),
    decreases outcomes.len(),
{
    if outcomes.len() > 0 {
        law_all_succeed(outcomes.drop_last());
    }
}

/// The collection holds the stories of the attempts that succeeded, and no
/// others: each story came from an attempt of its own.
pub proof fn law_stories_come_from_attempts(outcomes: Seq<Result<Story, FetchError>>, k: int)
    requires
        0 <= k < successes(outcomes).len(),
    ensures
        0 <= source(outcomes, k) < outcomes.len(),
        outcomes[source(outcomes, k)] == Ok::<Story, FetchError>(successes(outcomes)[k]),
    decreases outcomes.len(),
{
    if outcomes.len() > 0 {
        if !(outcomes.last() is Ok && k == successes(outcomes.drop_last()).len()) {
            law_stories_come_from_attempts(outcomes.drop_last(), k);
        }
    }
}

/// The stories stand in the collection in the order of their attempts.
pub proof fn law_order_preserved(outcomes: Seq<Result<Story, FetchError>>, j: int, k: int)
    requires
        0 <= j < k < successes(outcomes).len(),
    ensures
        source(outcomes, j) < source(outcomes, k),
    decreases outcomes.len(),
{
    if outcomes.len() > 0 {
        let rest = outcomes.drop_last();
        if outcomes.last() is Ok && k == successes(rest).len() {
            law_stories_come_from_attempts(rest, j);
        } else {
            law_order_preserved(rest, j, k);
        }
    }
}

/// A failed attempt leaves no story behind: each attempt that failed is the
/// source of none.
pub proof fn law_failures_leave_nothing(outcomes: Seq<Result<Story, FetchError>>, k: int)
    requires
        0 <= k < successes(outcomes).len(),
    ensures
        outcomes[source(outcomes, k)] is Ok,
{
    law_stories_come_from_attempts(outcomes, k);
}

/// A run attempts the first identifiers of the list, as many as the limit
/// says and no more: of the outcomes that come, the first `limit` are taken
/// and the rest are dropped.
pub proof fn law_attempts_bounded(
    ids: Seq<u32>,
    count: nat,
    outcomes: Seq<Result<Story, FetchError>>,
)
    ensures
        ({
            let limit = limit_of(count, ids.len());
            let taken = limit_of(limit, outcomes.len());
            let end = Collection::start(ids, count).after_all(outcomes);
            &&& end.valid()
            &&& end.ids == ids
            &&& end.limit == limit
            &&& end.outcomes == outcomes.take(taken as int)
            &&& end.done() <==> outcomes.len() >= limit
        }),
    decreases outcomes.len(),
{
    let start = Collection::start(ids, count);
    let limit = limit_of(count, ids.len());
    if outcomes.len() == 0 {
        assert(start.outcomes =~= outcomes.take(0));
    } else {
        let rest = outcomes.drop_last();
        law_attempts_bounded(ids, count, rest);
        let before = start.after_all(rest);
        let taken = limit_of(limit, outcomes.len());
        if before.done() {
            assert(rest.take(limit as int) =~= outcomes.take(taken as int));
        } else {
            assert(rest.take(rest.len() as int) =~= rest);
            assert(rest.push(outcomes.last()) =~= outcomes.take(taken as int));
        }
    }
}

/// While attempts are due, the identifier to fetch is the next of the
/// list, and the attempt is reported with its place in the run: the
/// `k`-th attempt, counted from nought, is for `ids[k]` and is reported as
/// `k + 1` of `limit`. Past the limit no identifier is handed out and
/// nothing is reported.
pub proof fn law_one_report_per_attempt(
    ids: Seq<u32>,
    count: nat,
    outcomes: Seq<Result<Story, FetchError>>,
    k: int,
)
    requires
        0 <= k < outcomes.len(),
    ensures
        ({
            let limit = limit_of(count, ids.len());
            let before = Collection::start(ids, count).after_all(outcomes.take(k));
            if k < limit {
                &&& before.next_id() == Some(ids[k])
                &&& before.report(outcomes[k]) matches Some(report)
                &&& report.id == ids[k]
                &&& report.completed == k + 1
                &&& report.limit == limit
                &&& report.skipped is Some <==> outcomes[k] is Err
            } else {
                &&& before.next_id() is None
                &&& before.report(outcomes[k]) is None
            }
        }),
{
    law_attempts_bounded(ids, count, outcomes.take(k));
}

/// Where no stories are asked for, or none are listed, the run is over
/// before it begins: nothing is collected, no identifier is handed out, and
/// nothing is ever reported.
pub proof fn law_nothing_to_do(
    ids: Seq<u32>,
    count: nat,
    outcomes: Seq<Result<Story, FetchError>>,
)
    requires
        count == 0 || ids.len() == 0,
    ensures
        ({
            let end = Collection::start(ids, count).after_all(outcomes);
            &&& end == Collection::start(ids, count)
            &&& end.done()
            &&& end.attempted() == 0
            &&& end.records() == Seq::<Story>::empty()
            &&& end.next_id() is None
            &&& forall|outcome: Result<Story, FetchError>| end.report(outcome) is None
        }),
    decreases outcomes.len(),
{
    if outcomes.len() > 0 {
        law_nothing_to_do(ids, count, outcomes.drop_last());
    }
}

/// At the end of a run in which no fetch failed, the collection holds as
/// many stories as the limit says, and the story at each place is the one
/// that was fetched for the identifier at that place.
pub proof fn law_complete_run(
    ids: Seq<u32>,
    count: nat,
    outcomes: Seq<Result<Story, FetchError>>,
)
    requires
        outcomes.len() == limit_of(count, ids.len()),
        forall|i: int| 0 <= i < outcomes.len() ==> outcomes[i] is Ok,
    ensures
        ({
            let end = Collection::start(ids, count).after_all(outcomes);
            &&& end.done()
            &&& end.records().len() == limit_of(count, ids.len())
            &&& forall|i: int|
                0 <= i < outcomes.len() ==> outcomes[i] == Ok::<Story, FetchError>(
                    #[trigger] end.records()[i],
                )
        }),
{
    law_attempts_bounded(ids, count, outcomes);
    assert(outcomes.take(outcomes.len() as int) =~= outcomes);
    law_all_succeed(outcomes);
}

/// At the end of a run in which some fetches failed, the collection holds
/// as many stories as the limit says less the failures, in the order of
/// their identifiers.
pub proof fn law_partial_run(
    ids: Seq<u32>,
    count: nat,
    outcomes: Seq<Result<Story, FetchError>>,
)
    requires
        outcomes.len() == limit_of(count, ids.len()),
    ensures
        ({
            let end = Collection::start(ids, count).after_all(outcomes);
            let records = end.records();
            &&& end.done()
            &&& records.len() == limit_of(count, ids.len()) - failures(outcomes)
            &&& forall|k: int|
                0 <= k < records.len() ==> 0 <= #[trigger] source(outcomes, k) < outcomes.len()
                    && outcomes[source(outcomes, k)] == Ok::<Story, FetchError>(records[k])
            &&& forall|j: int, k: int|
                0 <= j < k < records.len() ==> #[trigger] source(outcomes, j) < #[trigger] source(
                    outcomes,
                    k,
                )
        }),
{
    law_attempts_bounded(ids, count, outcomes);
    assert(outcomes.take(outcomes.len() as int) =~= outcomes);
    law_every_attempt_counted(outcomes);
    let records = successes(outcomes);
    assert forall|k: int| 0 <= k < records.len() implies 0 <= #[trigger] source(outcomes, k)
        < outcomes.len() && outcomes[source(outcomes, k)] == Ok::<Story, FetchError>(
        records[k],
    ) by {
        law_stories_come_from_attempts(outcomes, k);
    }
    assert forall|j: int, k: int| 0 <= j < k < records.len() implies #[trigger] source(
        outcomes,
        j,
    ) < #[trigger] source(outcomes, k) by {
        law_order_preserved(outcomes, j, k);
    }
}

} // verus!
