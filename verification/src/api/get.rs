use vstd::prelude::*;
use crate::dispatch::{render, rendered, Response};
pub use crate::dispatch::RecordResponse;
use crate::error::{Error, Failure};
use crate::types::{Payload, Record, RecordData, RecordModel};

verus! {

/// Where the handling of one request stands.
#[derive(Debug, PartialEq, Eq)]
pub enum Stage {
    /// Nothing was done yet for `slug`.
    Idle { slug: String },
    /// A connection to the backend was asked for.
    Connecting { slug: String },
    /// The record under `slug` was asked for.
    Fetching { slug: String },
    /// The file of `record` is being opened; `response` waits for it.
    Opening { record: Record, response: RecordResponse },
    /// The response is ready and the access is being accounted for.
    Consuming { response: RecordResponse },
    /// The request was answered.
    Finished,
}

/// What the outside world reports back.
#[derive(Debug, PartialEq, Eq)]
pub enum Event {
    /// The request came in.
    Start,
    /// The backend is connected.
    Connected,
    /// The backend answered the lookup, with the record or with its absence.
    Fetched(Option<Record>),
    /// The file is open for reading.
    Opened,
    /// The file could not be opened.
    OpenFailed,
    /// The backend has accounted for the access.
    Consumed,
    /// The backend could not be reached, or did not answer in time.
    BackendFailed,
}

/// What is to be done next.
#[derive(Debug, PartialEq, Eq)]
pub enum Action {
    /// Connect to the backend.
    Connect,
    /// Look the slug up.
    Fetch { slug: String },
    /// Open the file at `path` for a streaming read.
    OpenFile { path: String },
    /// Take one access from the record, atomically.
    Consume { record: Record },
    /// Send the response; `warning` tells that the access could not be
    /// accounted for, which is to be logged and not to fail the request.
    Respond { response: RecordResponse, warning: bool },
    /// Fail the request.
    Fail(Error),
}

/// The outcome of one decision: the next stage and the next action.
#[derive(Debug, PartialEq, Eq)]
pub struct Step {
    pub stage: Stage,
    pub action: Action,
}

/// The mathematical value of a [`Stage`].
pub enum StageModel {
    Idle { slug: Seq<char> },
    Connecting { slug: Seq<char> },
    Fetching { slug: Seq<char> },
    Opening { record: RecordModel, response: Response },
    Consuming { response: Response },
    Finished,
}

/// The mathematical value of an [`Event`].
pub enum EventModel {
    Start,
    Connected,
    Fetched(Option<RecordModel>),
    Opened,
    OpenFailed,
    Consumed,
    BackendFailed,
}

/// The mathematical value of an [`Action`].
pub enum ActionModel {
    Connect,
    Fetch { slug: Seq<char> },
    OpenFile { path: Seq<char> },
    Consume { record: RecordModel },
    Respond { response: Response, warning: bool },
    Fail(Failure),
}

impl View for Stage {
    type V = StageModel;

    open spec fn view(&self) -> StageModel {
        match self {
            Stage::Idle { slug } => StageModel::Idle { slug: slug@ },
            Stage::Connecting { slug } => StageModel::Connecting { slug: slug@ },
            Stage::Fetching { slug } => StageModel::Fetching { slug: slug@ },
            Stage::Opening { record, response } => StageModel::Opening {
                record: record@,
                response: response@,
            },
            Stage::Consuming { response } => StageModel::Consuming { response: response@ },
            Stage::Finished => StageModel::Finished,
        }
    }
}

impl View for Event {
    type V = EventModel;

    open spec fn view(&self) -> EventModel {
        match self {
            Event::Start => EventModel::Start,
            Event::Connected => EventModel::Connected,
            Event::Fetched(Some(record)) => EventModel::Fetched(Some(record@)),
            Event::Fetched(None) => EventModel::Fetched(None),
            Event::Opened => EventModel::Opened,
            Event::OpenFailed => EventModel::OpenFailed,
            Event::Consumed => EventModel::Consumed,
            Event::BackendFailed => EventModel::BackendFailed,
        }
    }
}

impl View for Action {
    type V = ActionModel;

    open spec fn view(&self) -> ActionModel {
        match self {
            Action::Connect => ActionModel::Connect,
            Action::Fetch { slug } => ActionModel::Fetch { slug: slug@ },
            Action::OpenFile { path } => ActionModel::OpenFile { path: path@ },
            Action::Consume { record } => ActionModel::Consume { record: record@ },
            Action::Respond { response, warning } => ActionModel::Respond {
                response: response@,
                warning: *warning,
            },
            Action::Fail(e) => ActionModel::Fail(e@),
        }
    }
}

impl View for Step {
    type V = (StageModel, ActionModel);

    open spec fn view(&self) -> (StageModel, ActionModel) {
        (self.stage@, self.action@)
    }
}

impl StageModel {
    /// A stage that waits for a file holds the response rendered from its
    /// record, and that record is a file with accesses left.
    pub open spec fn sound(self) -> bool {
        match self {
            StageModel::Opening { record, response } => {
                &&& !record.exhausted()
                &&& record.data is File
                &&& rendered(record.data) == Ok::<Response, Failure>(response)
            },
            _ => true,
        }
    }

    /// The most decisions that can still follow this stage.
    pub open spec fn rank(self) -> nat {
        match self {
            StageModel::Idle { .. } => 5,
            StageModel::Connecting { .. } => 4,
            StageModel::Fetching { .. } => 3,
            StageModel::Opening { .. } => 2,
            StageModel::Consuming { .. } => 1,
            StageModel::Finished => 0,
        }
    }
}

/// The request ends with the failure `f`.
pub open spec fn fail_spec(f: Failure) -> (StageModel, ActionModel) {
    (StageModel::Finished, ActionModel::Fail(f))
}

/// What follows once `response` is ready for `record`: a record with a
/// counter has its access accounted for before the response is sent; one
/// without is sent at once.
pub open spec fn account_spec(record: RecordModel, response: Response) -> (
    StageModel,
    ActionModel,
) {
    if record.remaining_accesses is Some {
        (StageModel::Consuming { response }, ActionModel::Consume { record })
    } else {
        (StageModel::Finished, ActionModel::Respond { response, warning: false })
    }
}

/// What follows for `record` once its rendering came out as `rendering`:
/// a record that cannot be rendered fails with the reason; a file is
/// opened first; a redirect or a paste goes on to the accounting.
pub open spec fn proceed_spec(record: RecordModel, rendering: Result<Response, Failure>) -> (
    StageModel,
    ActionModel,
) {
    match rendering {
        Err(f) => fail_spec(f),
        Ok(response) => match record.data {
            Payload::File { path, name } => (
                StageModel::Opening { record, response },
                ActionModel::OpenFile { path },
            ),
            _ => account_spec(record, response),
        },
    }
}

/// What follows the backend's answer `found` to the lookup of `slug`. An
/// absent record is not found, and neither is one whose counter is used up.
/// Any other record is rendered, and the request proceeds with it.
pub open spec fn resolve_spec(slug: Seq<char>, found: Option<RecordModel>) -> (
    StageModel,
    ActionModel,
) {
    match found {
        None => fail_spec(Failure::NotFound(slug)),
        Some(record) => if record.exhausted() {
            fail_spec(Failure::NotFound(slug))
        } else {
            proceed_spec(record, rendered(record.data))
        },
    }
}

/// The decision table of a request: the next stage and action for each
/// stage and each event that can follow it, and `None` for an event that
/// cannot.
pub open spec fn get_spec(stage: StageModel, event: EventModel) -> Option<
    (StageModel, ActionModel),
> {
    match stage {
        StageModel::Idle { slug } => match event {
            EventModel::Start => Some((StageModel::Connecting { slug }, ActionModel::Connect)),
            _ => None,
        },
        StageModel::Connecting { slug } => match event {
            EventModel::Connected => Some(
                (StageModel::Fetching { slug }, ActionModel::Fetch { slug }),
            ),
            EventModel::BackendFailed => Some(fail_spec(Failure::BackendUnavailable)),
            _ => None,
        },
        StageModel::Fetching { slug } => match event {
            EventModel::Fetched(found) => Some(resolve_spec(slug, found)),
            EventModel::BackendFailed => Some(fail_spec(Failure::BackendUnavailable)),
            _ => None,
        },
        StageModel::Opening { record, response } => match event {
            EventModel::Opened => Some(account_spec(record, response)),
            EventModel::OpenFailed => Some(fail_spec(Failure::PayloadMissing)),
            _ => None,
        },
        StageModel::Consuming { response } => match event {
            EventModel::Consumed => Some(
                (StageModel::Finished, ActionModel::Respond { response, warning: false }),
            ),
            EventModel::BackendFailed => Some(
                (StageModel::Finished, ActionModel::Respond { response, warning: true }),
            ),
            _ => None,
        },
        StageModel::Finished => None,
    }
}

/// Ends the request with the error `e`.
pub fn fail(e: Error) -> (r: Step)
    ensures
        r@ == fail_spec(e@),
{
    Step { stage: Stage::Finished, action: Action::Fail(e) }
}

/// Decides what follows once `response` is ready for `record`.
pub fn account(record: Record, response: RecordResponse) -> (r: Step)
    ensures
        r@ == account_spec(record@, response@),
{
    if record.remaining_accesses().is_some() {
        Step { stage: Stage::Consuming { response }, action: Action::Consume { record } }
    } else {
        Step { stage: Stage::Finished, action: Action::Respond { response, warning: false } }
    }
}

/// Decides what follows for `record` once it was rendered.
pub fn proceed(record: Record, rendering: Result<RecordResponse, Error>) -> (r: Step)
    ensures
        r@ == proceed_spec(
            record@,
            match rendering {
                Ok(response) => Ok(response@),
                Err(e) => Err(e@),
            },
        ),
{
    match rendering {
        Err(e) => fail(e),
        Ok(response) => {
            let path: Option<String> = match record.data() {
                RecordData::File { path, name: _ } => Some(path.clone()),
                _ => None,
            };
            match path {
                Some(path) => Step {
                    stage: Stage::Opening { record, response },
                    action: Action::OpenFile { path },
                },
                None => account(record, response),
            }
        },
    }
}

/// Decides what follows the backend's answer to the lookup of `slug`.
pub fn resolve(slug: String, found: Option<Record>) -> (r: Step)
    ensures
        r@ == resolve_spec(
            slug@,
            match found {
                Some(record) => Some(record@),
                None => None,
            },
        ),
{
    match found {
        None => fail(Error::NotFound(slug)),
        Some(record) => {
            if record.is_exhausted() {
                return fail(Error::NotFound(slug));
            }
            let rendering = render(record.data());
            proceed(record, rendering)
        },
    }
}

impl Stage {
    /// The stage of a request for `slug` that has just come in.
    pub fn start(slug: String) -> (r: Stage)
        ensures
            r@ == (StageModel::Idle { slug: slug@ }),
    {
        Stage::Idle { slug }
    }

    /// Whether the request was answered.
    pub fn is_finished(&self) -> (r: bool)
        ensures
            r == (self@ == StageModel::Finished),
    {
        match self {
            Stage::Finished => true,
            _ => false,
        }
    }
}

/// Resolves a slug to a response, one decision at a time. Given the stage
/// of a request and the event that the outside world reports, returns the
/// next stage and the action to perform, as [`get_spec`] lays down; `None`
/// if the event cannot follow the stage.
///
/// A request starts in [`Stage::start`] with [`Event::Start`]. The caller
/// performs each action and reports its outcome as the next event, until
/// the action is `Respond` or `Fail`.
pub fn get(stage: Stage, event: Event) -> (r: Option<Step>)
    ensures
        match r {
            Some(step) => get_spec(stage@, event@) == Some(step@),
            None => get_spec(stage@, event@) is None,
        },
{
    match stage {
        Stage::Idle { slug } => match event {
            Event::Start => Some(
                Step { stage: Stage::Connecting { slug }, action: Action::Connect },
            ),
            _ => None,
        },
        Stage::Connecting { slug } => match event {
            Event::Connected => {
                let asked: String = slug.clone();
                Some(Step { stage: Stage::Fetching { slug }, action: Action::Fetch { slug: asked } })
            },
            Event::BackendFailed => Some(fail(Error::BackendUnavailable)),
            _ => None,
        },
        Stage::Fetching { slug } => match event {
            Event::Fetched(found) => Some(resolve(slug, found)),
            Event::BackendFailed => Some(fail(Error::BackendUnavailable)),
            _ => None,
        },
        Stage::Opening { record, response } => match event {
            Event::Opened => Some(account(record, response)),
            Event::OpenFailed => Some(fail(Error::PayloadMissing)),
            _ => None,
        },
        Stage::Consuming { response } => match event {
            Event::Consumed => Some(
                Step { stage: Stage::Finished, action: Action::Respond { response, warning: false } },
            ),
            Event::BackendFailed => Some(
                Step { stage: Stage::Finished, action: Action::Respond { response, warning: true } },
            ),
            _ => None,
        },
        Stage::Finished => None,
    }
}

} // verus!
