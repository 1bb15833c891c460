//! What is done for one request, one event at a time.
//!
//! The caller of [`step`] performs the action that it gives and hands back the event that
//! comes of it, until the action is a response.
use vstd::prelude::*;

use crate::distribution::{
    DistributionConfig, DistributionConfigView, UpdatedConfig, UpdatedConfigView,
};
use crate::error::{MissingPart, PromoteError, PromoteErrorView};
use crate::promotion::{has_service_parts, missing_part, promoted, promoted_config};
use crate::request::{DeployRequest, DeployRequestView};
use crate::response::{
    bad_request, new_bad_request, new_not_found, new_preflight, new_promotion_failed,
    new_stack_promoted, not_found, preflight, promotion_failed, stack_promoted, Response,
    ResponseView,
};
use crate::text::{optional_text, same_text};

verus! {

/// The path at which a promotion is asked for.
pub const PROMOTE_PATH: &'static str = "/api/promote";

/// What a read of a distribution gives.
#[derive(Debug)]
pub struct FetchedConfig {
    /// The version of the configuration.
    pub e_tag: Option<String>,
    pub distribution_config: Option<DistributionConfig>,
}

/// The contents of a [`FetchedConfig`].
pub struct FetchedConfigView {
    pub e_tag: Option<Seq<char>>,
    pub distribution_config: Option<DistributionConfigView>,
}

impl View for FetchedConfig {
    type V = FetchedConfigView;

    open spec fn view(&self) -> FetchedConfigView {
        FetchedConfigView {
            e_tag: optional_text(self.e_tag),
            distribution_config: match self.distribution_config {
                Some(config) => Some(config@),
                None => None,
            },
        }
    }
}

/// How far the work on a request has come.
#[derive(Debug)]
pub enum State {
    /// Nothing is known of the request.
    Received,
    /// The request is for a promotion, and its body is being read.
    Decoding,
    /// The configuration of the distribution is being read.
    Fetching { request: DeployRequest },
    /// The configuration is there, and the region is being looked up.
    Locating { request: DeployRequest, e_tag: String, config: DistributionConfig },
    /// The new configuration is being sent.
    Updating,
    /// The response is given.
    Answered,
}

/// The contents of a [`State`].
pub enum StateView {
    Received,
    Decoding,
    Fetching { request: DeployRequestView },
    Locating { request: DeployRequestView, e_tag: Seq<char>, config: DistributionConfigView },
    Updating,
    Answered,
}

impl View for State {
    type V = StateView;

    open spec fn view(&self) -> StateView {
        match self {
            State::Received => StateView::Received,
            State::Decoding => StateView::Decoding,
            State::Fetching { request } => StateView::Fetching { request: request@ },
            State::Locating { request, e_tag, config } => StateView::Locating {
                request: request@,
                e_tag: e_tag@,
                config: config@,
            },
            State::Updating => StateView::Updating,
            State::Answered => StateView::Answered,
        }
    }
}

/// What happened.
#[derive(Debug)]
pub enum Event {
    /// A request came in.
    Arrived { method: String, path: String },
    /// The body was read: the request in it, nothing, or the text of what is wrong with it.
    Decoded(Result<Option<DeployRequest>, String>),
    /// The configuration was read, or the debug text of the error.
    Fetched(Result<FetchedConfig, String>),
    /// The region is known.
    Located { region: String },
    /// The new configuration was sent, or the debug text of the error.
    Updated(Result<(), String>),
}

/// The contents of an [`Event`].
pub enum EventView {
    Arrived { method: Seq<char>, path: Seq<char> },
    Decoded(Result<Option<DeployRequestView>, Seq<char>>),
    Fetched(Result<FetchedConfigView, Seq<char>>),
    Located { region: Seq<char> },
    Updated(Result<(), Seq<char>>),
}

impl View for Event {
    type V = EventView;

    open spec fn view(&self) -> EventView {
        match self {
            Event::Arrived { method, path } => EventView::Arrived { method: method@, path: path@ },
            Event::Decoded(Ok(Some(request))) => EventView::Decoded(Ok(Some(request@))),
            Event::Decoded(Ok(None)) => EventView::Decoded(Ok(None)),
            Event::Decoded(Err(reason)) => EventView::Decoded(Err(reason@)),
            Event::Fetched(Ok(fetched)) => EventView::Fetched(Ok(fetched@)),
            Event::Fetched(Err(text)) => EventView::Fetched(Err(text@)),
            Event::Located { region } => EventView::Located { region: region@ },
            Event::Updated(Ok(())) => EventView::Updated(Ok(())),
            Event::Updated(Err(text)) => EventView::Updated(Err(text@)),
        }
    }
}

/// What is to be done next.
#[derive(Debug)]
pub enum Action {
    /// Read the body of the request as a [`DeployRequest`].
    DecodeBody,
    /// Read the configuration of the distribution.
    FetchConfig { distribution_id: String },
    /// Look up the region in which the buckets are.
    LocateRegion,
    /// Write `notice` to the log, then send `config` to the distribution, which takes it only
    /// if its version is still `if_match`.
    UpdateDistribution {
        notice: String,
        distribution_id: String,
        config: UpdatedConfig,
        if_match: String,
    },
    /// Give the response.
    Respond(Response),
}

/// The contents of an [`Action`].
pub enum ActionView {
    DecodeBody,
    FetchConfig { distribution_id: Seq<char> },
    LocateRegion,
    UpdateDistribution {
        notice: Seq<char>,
        distribution_id: Seq<char>,
        config: UpdatedConfigView,
        if_match: Seq<char>,
    },
    Respond(ResponseView),
}

impl View for Action {
    type V = ActionView;

    open spec fn view(&self) -> ActionView {
        match self {
            Action::DecodeBody => ActionView::DecodeBody,
            Action::FetchConfig { distribution_id } => ActionView::FetchConfig {
                distribution_id: distribution_id@,
            },
            Action::LocateRegion => ActionView::LocateRegion,
            Action::UpdateDistribution { notice, distribution_id, config, if_match } =>
                ActionView::UpdateDistribution {
                notice: notice@,
                distribution_id: distribution_id@,
                config: config@,
                if_match: if_match@,
            },
            Action::Respond(response) => ActionView::Respond(response@),
        }
    }
}

/// The work ends with a response.
pub open spec fn answer(response: ResponseView) -> (StateView, ActionView) {
    (StateView::Answered, ActionView::Respond(response))
}

/// The work ends with the response to a promotion that failed.
pub open spec fn fail(error: PromoteErrorView) -> (StateView, ActionView) {
    answer(promotion_failed(error))
}

/// What follows the arrival of a request.
pub open spec fn after_arrival(method: Seq<char>, path: Seq<char>) -> (StateView, ActionView) {
    if method == "OPTIONS"@ {
        answer(preflight())
    } else if method != "POST"@ || path != PROMOTE_PATH@ {
        answer(not_found(method, path))
    } else {
        (StateView::Decoding, ActionView::DecodeBody)
    }
}

/// What follows the reading of the body.
pub open spec fn after_decoding(
    decoded: Result<Option<DeployRequestView>, Seq<char>>,
) -> (StateView, ActionView)
    recommends
        decoded != Ok::<Option<DeployRequestView>, Seq<char>>(None),
{
    match decoded {
        Ok(request) => (
            StateView::Fetching { request: request->0 },
            ActionView::FetchConfig { distribution_id: request->0.distribution_id },
        ),
        Err(reason) => answer(bad_request(reason)),
    }
}

/// What follows the reading of the configuration.
pub open spec fn after_fetching(
    request: DeployRequestView,
    fetched: Result<FetchedConfigView, Seq<char>>,
) -> (StateView, ActionView) {
    match fetched {
        Ok(fetched) => match (fetched.e_tag, fetched.distribution_config) {
            (None, _) => fail(PromoteErrorView::Missing(MissingPart::ETag)),
            (Some(_), None) => fail(PromoteErrorView::Missing(MissingPart::Config)),
            (Some(e_tag), Some(config)) => (
                StateView::Locating { request, e_tag, config },
                ActionView::LocateRegion,
            ),
        },
        Err(text) => fail(PromoteErrorView::Service(text)),
    }
}

/// What follows the lookup of the region.
pub open spec fn after_locating(
    request: DeployRequestView,
    e_tag: Seq<char>,
    config: DistributionConfigView,
    region: Seq<char>,
) -> (StateView, ActionView)
    recommends
        has_service_parts(config),
{
    match missing_part(config) {
        Some(part) => fail(PromoteErrorView::Missing(part)),
        None => (
            StateView::Updating,
            ActionView::UpdateDistribution {
                notice: "Promocionando entorno para la distribución: "@ + request.distribution_id,
                distribution_id: request.distribution_id,
                config: promoted(config, request, region),
                if_match: e_tag,
            },
        ),
    }
}

/// What follows the sending of the new configuration.
pub open spec fn after_updating(updated: Result<(), Seq<char>>) -> (StateView, ActionView) {
    match updated {
        Ok(()) => answer(stack_promoted()),
        Err(text) => fail(PromoteErrorView::Service(text)),
    }
}

/// Whether an event can come of the action that led to a state, and the work goes on from it:
/// a body was there to be read, and the configuration has the parts that the service gives
/// with every distribution.
pub open spec fn expects(state: StateView, event: EventView) -> bool {
    match (state, event) {
        (StateView::Received, EventView::Arrived { .. }) => true,
        (StateView::Decoding, EventView::Decoded(Ok(request))) => request is Some,
        (StateView::Decoding, EventView::Decoded(Err(_))) => true,
        (StateView::Fetching { .. }, EventView::Fetched(_)) => true,
        (StateView::Locating { config, .. }, EventView::Located { .. }) => has_service_parts(
            config,
        ),
        (StateView::Updating, EventView::Updated(_)) => true,
        _ => false,
    }
}

/// The state and the action that follow an event.
pub open spec fn next(state: StateView, event: EventView) -> (StateView, ActionView)
    recommends
        expects(state, event),
{
    match (state, event) {
        (StateView::Received, EventView::Arrived { method, path }) => after_arrival(method, path),
        (StateView::Decoding, EventView::Decoded(decoded)) => after_decoding(decoded),
        (StateView::Fetching { request }, EventView::Fetched(fetched)) => after_fetching(
            request,
            fetched,
        ),
        (
            StateView::Locating { request, e_tag, config },
            EventView::Located { region },
        ) => after_locating(request, e_tag, config, region),
        (StateView::Updating, EventView::Updated(updated)) => after_updating(updated),
        _ => arbitrary(),
    }
}

/// The state and the last action after a sequence of events.
pub open spec fn run(events: Seq<EventView>) -> (StateView, Option<ActionView>)
    decreases events.len(),
{
    if events.len() == 0 {
        (StateView::Received, None)
    } else {
        let (state, action) = next(run(events.drop_last()).0, events.last());
        (state, Some(action))
    }
}

/// Whether each event of a sequence is expected in the state to which those before it lead.
pub open spec fn possible(events: Seq<EventView>) -> bool
    decreases events.len(),
{
    events.len() == 0 || {
        &&& possible(events.drop_last())
        &&& expects(run(events.drop_last()).0, events.last())
    }
}

/// Ends the work with `response`.
fn respond(response: Response) -> (outcome: (State, Action))
    ensures
        (outcome.0@, outcome.1@) == answer(response@),
{
    (State::Answered, Action::Respond(response))
}

/// Ends the work with the response to a promotion that failed with `error`.
fn respond_failed(error: PromoteError) -> (outcome: (State, Action))
    ensures
        (outcome.0@, outcome.1@) == fail(error@),
{
    respond(new_promotion_failed(&error))
}

/// What follows the arrival of a request: a preflight is answered, anything but a `POST` to
/// [`PROMOTE_PATH`] is turned away, and the body of that `POST` is read.
pub fn route(method: &str, path: &str) -> (outcome: (State, Action))
    ensures
        (outcome.0@, outcome.1@) == after_arrival(method@, path@),
{
    if same_text(method, "OPTIONS") {
        respond(new_preflight())
    } else if !same_text(method, "POST") || !same_text(path, PROMOTE_PATH) {
        respond(new_not_found(method, path))
    } else {
        (State::Decoding, Action::DecodeBody)
    }
}

/// What follows the reading of the body: the distribution in it is read, or what is wrong
/// with the body is answered.
pub fn accept_request(decoded: Result<DeployRequest, String>) -> (outcome: (State, Action))
    ensures
        (outcome.0@, outcome.1@) == after_decoding(
            match decoded {
                Ok(request) => Ok(Some(request@)),
                Err(reason) => Err(reason@),
            },
        ),
{
    match decoded {
        Ok(request) => {
            let distribution_id: String = request.distribution_id.clone();
            (State::Fetching { request }, Action::FetchConfig { distribution_id })
        },
        Err(reason) => respond(new_bad_request(reason.as_str())),
    }
}

/// What follows the reading of the configuration: without its version or the configuration
/// itself the promotion has failed.
pub fn accept_config(
    request: DeployRequest,
    fetched: Result<FetchedConfig, String>,
) -> (outcome: (State, Action))
    ensures
        (outcome.0@, outcome.1@) == after_fetching(
            request@,
            match fetched {
                Ok(fetched) => Ok(fetched@),
                Err(text) => Err(text@),
            },
        ),
{
    let fetched = match fetched {
        Ok(fetched) => fetched,
        Err(text) => return respond_failed(PromoteError::Service(text)),
    };
    let e_tag: String = match fetched.e_tag {
        Some(e_tag) => e_tag,
        None => return respond_failed(PromoteError::Missing(MissingPart::ETag)),
    };
    match fetched.distribution_config {
        Some(config) => (State::Locating { request, e_tag, config }, Action::LocateRegion),
        None => respond_failed(PromoteError::Missing(MissingPart::Config)),
    }
}

/// What follows the lookup of the region: the new configuration is sent under the version
/// that was read, or the promotion has failed for want of a part.
pub fn promote_environment(
    request: DeployRequest,
    e_tag: String,
    config: DistributionConfig,
    region: &str,
) -> (outcome: (State, Action))
    requires
        has_service_parts(config@),
    ensures
        (outcome.0@, outcome.1@) == after_locating(request@, e_tag@, config@, region@),
{
    match promoted_config(config, &request, region) {
        Ok(config) => {
            let notice: String = "Promocionando entorno para la distribución: ".to_owned().concat(
                request.distribution_id.as_str(),
            );
            let distribution_id: String = request.distribution_id;
            (
                State::Updating,
                Action::UpdateDistribution { notice, distribution_id, config, if_match: e_tag },
            )
        },
        Err(part) => respond_failed(PromoteError::Missing(part)),
    }
}

/// What follows the sending of the new configuration.
pub fn finish(updated: Result<(), String>) -> (outcome: (State, Action))
    ensures
        (outcome.0@, outcome.1@) == after_updating(
            match updated {
                Ok(()) => Ok(()),
                Err(text) => Err(text@),
            },
        ),
{
    match updated {
        Ok(()) => respond(new_stack_promoted()),
        Err(text) => respond_failed(PromoteError::Service(text)),
    }
}

/// The state and the action that follow `event` in `state`.
pub fn step(state: State, event: Event) -> (outcome: (State, Action))
    requires
        expects(state@, event@),
    ensures
        (outcome.0@, outcome.1@) == next(state@, event@),
{
    match (state, event) {
        (State::Received, Event::Arrived { method, path }) => route(method.as_str(), path.as_str()),
        (State::Decoding, Event::Decoded(Ok(Some(request)))) => accept_request(Ok(request)),
        (State::Decoding, Event::Decoded(Err(reason))) => accept_request(Err(reason)),
        (State::Fetching { request }, Event::Fetched(fetched)) => accept_config(request, fetched),
        (
            State::Locating { request, e_tag, config },
            Event::Located { region },
        ) => promote_environment(request, e_tag, config, region.as_str()),
        (State::Updating, Event::Updated(updated)) => finish(updated),
        _ => vstd::pervasive::unreached(),
    }
}

} // verus!
