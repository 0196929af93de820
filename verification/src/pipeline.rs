//! The run as a whole: list the identifiers, collect the stories, present
//! them. The pipeline decides what is to be done next; a driver does it and
//! hands back what came of it.

use vstd::prelude::*;
use crate::collector::{report_view, Collection, Collector, Progress, Report};
use crate::config::{item_address, item_url, list_address, list_url, Config};
use crate::error::{FetchError, TransportError};
use crate::json::{decode_ids, decode_story, id_list, story_in};
use crate::present::{entries_view, listing, render, Entry, EntryView};
use crate::story::{DecodeError, Story};

verus! {

/// Where a run stands.
#[derive(Copy, Clone, Debug, PartialEq, Eq, Structural)]
pub enum Phase {
    /// The list of identifiers has been asked for.
    Listing,
    /// The list is there, and stories are being fetched.
    Collecting,
    /// Every attempt is made, and the listing has been handed out.
    Finished,
    /// The list could not be had. Nothing was fetched or presented, and
    /// nothing will be.
    Failed,
}

/// What a driver hands back to the pipeline.
#[derive(Debug, PartialEq, Eq)]
pub enum Event {
    /// What came of the request for the list of identifiers.
    List(Result<Vec<u32>, FetchError>),
    /// What came of the request for one story.
    Item(Result<Story, FetchError>),
}

impl Event {
    /// The event that a response to the request for the list makes: the
    /// identifiers that the body lists, or the failure of the request or of
    /// the decoding.
    pub fn list(response: Result<String, TransportError>) -> (event: Event)
        ensures
            match response {
                Err(cause) => event == Event::List(Err(FetchError::Transport(cause))),
                Ok(body) => match id_list(body@) {
                    Some(listed) => event matches Event::List(Ok(ids)) && ids@ == listed,
                    None => event == Event::List(
                        Err(FetchError::Decode(DecodeError::IdList)),
                    ),
                },
            },
    {
        match response {
            Err(cause) => Event::List(Err(FetchError::Transport(cause))),
            Ok(body) => match decode_ids(body.as_str()) {
                Ok(ids) => Event::List(Ok(ids)),
                Err(e) => Event::List(Err(FetchError::Decode(e))),
            },
        }
    }

    /// The event that a response to the request for a story makes: the
    /// story that the body describes, or the failure of the request or of
    /// the decoding.
    pub fn item(response: Result<String, TransportError>) -> (event: Event)
        ensures
            match response {
                Err(cause) => event == Event::Item(Err(FetchError::Transport(cause))),
                Ok(body) => match story_in(body@) {
                    Ok(described) => event matches Event::Item(Ok(story)) && story@ == described,
                    Err(e) => event == Event::Item(Err(FetchError::Decode(e))),
                },
            },
    {
        match response {
            Err(cause) => Event::Item(Err(FetchError::Transport(cause))),
            Ok(body) => match decode_story(body.as_str()) {
                Ok(story) => Event::Item(Ok(story)),
                Err(e) => Event::Item(Err(FetchError::Decode(e))),
            },
        }
    }
}

/// What the pipeline asks of its driver.
#[derive(Debug, PartialEq, Eq)]
pub enum Action {
    /// Fetch the list of identifiers from `url`.
    FetchList { url: String },
    /// Fetch the story `id` from `url`.
    FetchItem { id: u32, url: String },
    /// Put the listing on the screen and end the run in success.
    Present { entries: Vec<Entry> },
    /// Say what went wrong and end the run in failure.
    Abort { error: FetchError },
    /// Nothing: the event was not awaited.
    Idle,
}

/// What an [`Action`] holds, as mathematical values.
pub enum ActionView {
    FetchList { url: Seq<char> },
    FetchItem { id: u32, url: Seq<char> },
    Present { entries: Seq<EntryView> },
    Abort { error: FetchError },
    Idle,
}

impl View for Action {
    type V = ActionView;

    open spec fn view(&self) -> ActionView {
        match *self {
            Action::FetchList { url } => ActionView::FetchList { url: url@ },
            Action::FetchItem { id, url } => ActionView::FetchItem { id, url: url@ },
            Action::Present { entries } => ActionView::Present { entries: entries_view(entries@) },
            Action::Abort { error } => ActionView::Abort { error },
            Action::Idle => ActionView::Idle,
        }
    }
}

/// What the pipeline answers an event with: the report of the attempt, where
/// the event was the outcome of one, and what to do next.
#[derive(Debug, PartialEq, Eq)]
pub struct Step {
    pub progress: Option<Progress>,
    pub action: Action,
}

/// What a [`Step`] holds, as mathematical values.
pub struct StepView {
    pub progress: Option<Report>,
    pub action: ActionView,
}

impl View for Step {
    type V = StepView;

    open spec fn view(&self) -> StepView {
        StepView { progress: report_view(self.progress), action: self.action@ }
    }
}

/// A run, as mathematical values.
pub struct Run {
    pub phase: Phase,
    pub config: Config,
    pub collection: Collection,
}

impl Run {
    /// The run at its beginning, when the list has been asked for.
    pub open spec fn begin(config: Config) -> Run {
        Run { phase: Phase::Listing, config, collection: Collection::start(Seq::empty(), 0) }
    }

    /// What a run asks for first.
    pub open spec fn first_action(config: Config) -> ActionView {
        ActionView::FetchList { url: list_address(config.sort) }
    }

    /// What is to be done once the list is there: the next story is to be
    /// fetched, or, when every attempt is made, the listing is to be
    /// presented.
    pub open spec fn next_action(collection: Collection) -> ActionView {
        match collection.next_id() {
            Some(id) => ActionView::FetchItem { id, url: item_address(id) },
            None => ActionView::Present { entries: listing(collection.records()) },
        }
    }

    /// The phase of a run whose list is there.
    pub open spec fn phase_of(collection: Collection) -> Phase {
        if collection.done() {
            Phase::Finished
        } else {
            Phase::Collecting
        }
    }

    /// The run after an event. An event that the phase does not await
    /// changes nothing.
    pub open spec fn after(self, event: Event) -> Run {
        match (self.phase, event) {
            (Phase::Listing, Event::List(Ok(ids))) => {
                let collection = Collection::start(ids@, self.config.count as nat);
                Run { phase: Self::phase_of(collection), collection, ..self }
            },
            (Phase::Listing, Event::List(Err(_))) => Run { phase: Phase::Failed, ..self },
            (Phase::Collecting, Event::Item(outcome)) => {
                let collection = self.collection.after(outcome);
                Run { phase: Self::phase_of(collection), collection, ..self }
            },
            _ => self,
        }
    }

    /// What the run answers an event with.
    pub open spec fn step(self, event: Event) -> StepView {
        match (self.phase, event) {
            (Phase::Listing, Event::List(Ok(_))) => StepView {
                progress: None,
                action: Self::next_action(self.after(event).collection),
            },
            (Phase::Listing, Event::List(Err(error))) => StepView {
                progress: None,
                action: ActionView::Abort { error },
            },
            (Phase::Collecting, Event::Item(outcome)) => StepView {
                progress: self.collection.report(outcome),
                action: Self::next_action(self.after(event).collection),
            },
            _ => StepView { progress: None, action: ActionView::Idle },
        }
    }

    /// The run after a series of events, one after the other.
    pub open spec fn after_all(self, events: Seq<Event>) -> Run
        decreases events.len(),
    {
        if events.len() == 0 {
            self
        } else {
            self.after_all(events.drop_last()).after(events.last())
        }
    }

    /// The phase agrees with the collection: stories are fetched only while
    /// attempts are due, and before the list is there nothing is collected.
    pub open spec fn valid(self) -> bool {
        &&& self.collection.valid()
        &&& self.phase == Phase::Collecting ==> !self.collection.done()
        &&& self.phase == Phase::Finished ==> self.collection.done()
        &&& (self.phase == Phase::Listing || self.phase == Phase::Failed)
            ==> self.collection == Collection::start(Seq::empty(), 0)
    }
}

/// A run. It is driven by handing it, for each action that it asks for, the
/// event that came of the action.
pub struct Pipeline {
    phase: Phase,
    config: Config,
    collector: Collector,
}

impl View for Pipeline {
    type V = Run;

    closed spec fn view(&self) -> Run {
        Run { phase: self.phase, config: self.config, collection: self.collector@ }
    }
}

impl Pipeline {
    /// What holds of every pipeline.
    pub closed spec fn wf(&self) -> bool {
        &&& self.collector.wf()
        &&& self@.valid()
    }

    /// Begins a run: the pipeline, and the request for the list that the
    /// configuration names.
    pub fn begin(config: Config) -> (start: (Pipeline, Action))
        ensures
            start.0.wf(),
            start.0@ == Run::begin(config),
            start.1@ == Run::first_action(config),
    {
        let collector = Collector::new(Vec::new(), 0);
        let pipeline = Pipeline { phase: Phase::Listing, config, collector };
        (pipeline, Action::FetchList { url: list_url(config.sort) })
    }

    /// Where the run stands.
    pub fn phase(&self) -> (phase: Phase)
        ensures
            phase == self@.phase,
    {
        self.phase
    }

    /// What the run was asked for.
    pub fn config(&self) -> (config: Config)
        ensures
            config == self@.config,
    {
        self.config
    }

    /// The stories collected so far, in the order of their identifiers.
    pub fn records(&self) -> (records: &Vec<Story>)
        requires
            self.wf(),
        ensures
            records@ == self@.collection.records(),
    {
        self.collector.records()
    }

    /// The number of stories that the run attempts in all; nought until the
    /// list is there.
    pub fn limit(&self) -> (limit: usize)
        ensures
            limit == self@.collection.limit,
    {
        self.collector.limit()
    }

    fn next(&self) -> (action: Action)
        requires
            self.collector.wf(),
        ensures
            action@ == Run::next_action(self.collector@),
    {
        match self.collector.next_id() {
            Some(id) => Action::FetchItem { id, url: item_url(id) },
            None => Action::Present { entries: render(self.collector.records()) },
        }
    }

    /// Takes an event and says what is to be done next.
    ///
    /// While the list is awaited, a list starts the collection, bounded by
    /// the count of the configuration, and a failure ends the run. While
    /// stories are collected, the outcome of a fetch is recorded and
    /// reported; after the last of them the listing is handed out. Any other
    /// event is answered with [`Action::Idle`] and changes nothing.
    pub fn advance(&mut self, event: Event) -> (step: Step)
        requires
            old(self).wf(),
        ensures
            final(self).wf(),
            final(self)@ == old(self)@.after(event),
            step@ == old(self)@.step(event),
    {
        match self.phase {
            Phase::Listing => match event {
                Event::List(Ok(ids)) => {
                    self.collector = Collector::new(ids, self.config.count);
                    self.phase = if self.collector.is_done() {
                        Phase::Finished
                    } else {
                        Phase::Collecting
                    };
                    Step { progress: None, action: self.next() }
                },
                Event::List(Err(error)) => {
                    self.phase = Phase::Failed;
                    Step { progress: None, action: Action::Abort { error } }
                },
                Event::Item(_) => Step { progress: None, action: Action::Idle },
            },
            Phase::Collecting => match event {
                Event::Item(outcome) => {
                    let progress = self.collector.record(outcome);
                    self.phase = if self.collector.is_done() {
                        Phase::Finished
                    } else {
                        Phase::Collecting
                    };
                    Step { progress, action: self.next() }
                },
                Event::List(_) => Step { progress: None, action: Action::Idle },
            },
            Phase::Finished => Step { progress: None, action: Action::Idle },
            Phase::Failed => Step { progress: None, action: Action::Idle },
        }
    }
}

/// The events of a run whose list came: the list, and then the outcome of
/// one fetch after the other.
pub open spec fn events_of(ids: Vec<u32>, outcomes: Seq<Result<Story, FetchError>>) -> Seq<Event> {
    Seq::new(
        outcomes.len() + 1,
        |i: int|
            if i == 0 {
                Event::List(Ok(ids))
            } else {
                Event::Item(outcomes[i - 1])
            },
    )
}

/// A run whose list cannot be had ends there. The request for the list is
/// answered with the order to abort; no story is fetched and no listing
/// presented, then or after any further events: each of them is answered
/// with [`Action::Idle`] and changes nothing.
pub proof fn law_list_failure_ends_run(config: Config, error: FetchError, later: Seq<Event>)
    ensures
        ({
            let begun = Run::begin(config);
            let failed = begun.after(Event::List(Err(error)));
            &&& begun.step(Event::List(Err(error))) == StepView {
                progress: None,
                action: ActionView::Abort { error },
            }
            &&& failed.phase == Phase::Failed
            &&& failed.collection.attempted() == 0
            &&& failed.after_all(later) == failed
            &&& forall|event: Event| #[trigger]
                failed.after_all(later).step(event) == StepView {
                    progress: None,
                    action: ActionView::Idle,
                }
        }),
    decreases later.len(),
{
    if later.len() > 0 {
        law_list_failure_ends_run(config, error, later.drop_last());
    }
}

/// A run whose list came is the collection of the first `count`
/// identifiers of the list: after the list and any number of outcomes, the
/// run holds what the collection holds after those outcomes, and it is
/// finished exactly when every attempt within the limit is made.
pub proof fn law_run_collects(
    config: Config,
    ids: Vec<u32>,
    outcomes: Seq<Result<Story, FetchError>>,
)
    ensures
        ({
            let collection = Collection::start(ids@, config.count as nat).after_all(outcomes);
            let run = Run::begin(config).after_all(events_of(ids, outcomes));
            &&& run.valid()
            &&& run.config == config
            &&& run.collection == collection
            &&& run.phase == Run::phase_of(collection)
        }),
    decreases outcomes.len(),
{
    let events = events_of(ids, outcomes);
    let begun = Run::begin(config);
    if outcomes.len() == 0 {
        assert(events.drop_last() =~= Seq::<Event>::empty());
        assert(begun.after_all(events.drop_last()) == begun);
    } else {
        let rest = outcomes.drop_last();
        assert(events.drop_last() =~= events_of(ids, rest));
        law_run_collects(config, ids, rest);
        crate::collector::law_attempts_bounded(ids@, config.count as nat, rest);
    }
}

/// In a run whose list came, each outcome is answered as the collection
/// answers it: with the report of the attempt, and with the order to fetch
/// the next identifier of the list or, after the last attempt, to present
/// what was collected. An outcome past the last attempt is answered with
/// [`Action::Idle`].
pub proof fn law_run_steps(
    config: Config,
    ids: Vec<u32>,
    outcomes: Seq<Result<Story, FetchError>>,
    next: Result<Story, FetchError>,
)
    ensures
        ({
            let collection = Collection::start(ids@, config.count as nat).after_all(outcomes);
            let run = Run::begin(config).after_all(events_of(ids, outcomes));
            let step = run.step(Event::Item(next));
            &&& step.progress == collection.report(next)
            &&& step.action == if collection.done() {
                ActionView::Idle
            } else {
                Run::next_action(collection.after(next))
            }
        }),
{
    law_run_collects(config, ids, outcomes);
}

/// The list is answered with the order to fetch its first identifier, or,
/// where no stories are asked for or none are listed, with the order to
/// present an empty listing; nothing is reported for it.
pub proof fn law_list_starts_collection(config: Config, ids: Vec<u32>)
    ensures
        ({
            let step = Run::begin(config).step(Event::List(Ok(ids)));
            &&& step.progress is None
            &&& step.action == if config.count == 0 || ids@.len() == 0 {
                ActionView::Present { entries: Seq::empty() }
            } else {
                ActionView::FetchItem { id: ids@[0], url: item_address(ids@[0]) }
            }
        }),
{
    let collection = Collection::start(ids@, config.count as nat);
    if config.count == 0 || ids@.len() == 0 {
        assert(listing(collection.records()) =~= Seq::<EntryView>::empty());
    }
}

} // verus!
