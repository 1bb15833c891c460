//! What is done and answered at each stage of a request.
//!
//! Each law speaks of every outcome that a stage can have, over the fields of that outcome
//! and of what the stage was given; the same is said of the stage by itself and of the step
//! that leads through it.
use vstd::prelude::*;

use crate::distribution::{DefaultBehavior, DistributionConfig};
use crate::error::{MissingPart, PromoteError};
use crate::promotion_laws::{
    has_given_parts, has_reported_parts, is_first_absent, is_promotion_of, lemma_promotion,
};
use crate::request::DeployRequest;
use crate::response_laws::{
    is_bad_request, is_failure, is_not_found, is_preflight, is_reason, is_success,
    lemma_bad_request, lemma_error_response, lemma_failure, lemma_preflight, lemma_success,
    names_part,
};
use crate::workflow::{
    accept_config, accept_request, finish, promote_environment, route, step, Action, Event,
    FetchedConfig, State,
};

verus! {

/// Whether the work ended with the response to a promotion that failed for a reason.
pub open spec fn fails_because(outcome: (State, Action), reason: Seq<char>) -> bool {
    &&& outcome.0 is Answered
    &&& outcome.1 matches Action::Respond(response) && is_failure(response, reason)
}

/// Whether the work ended with the response to a promotion that failed for want of a part.
pub open spec fn fails_for_want_of(outcome: (State, Action), part: MissingPart) -> bool {
    exists|message: Seq<char>|
        #[trigger] names_part(message, part) && fails_because(
            outcome,
            seq!['"'] + message + seq!['"'],
        )
}

/// What comes of a request that arrived.
pub open spec fn is_routed(
    outcome: (State, Action),
    method: Seq<char>,
    path: Seq<char>,
) -> bool {
    &&& method == "OPTIONS"@ ==> {
        &&& outcome.0 is Answered
        &&& outcome.1 matches Action::Respond(response) && is_preflight(response)
    }
    &&& method == "POST"@ && path == "/api/promote"@ ==> {
        &&& outcome.0 is Decoding
        &&& outcome.1 is DecodeBody
    }
    &&& method != "OPTIONS"@ && !(method == "POST"@ && path == "/api/promote"@) ==> {
        &&& outcome.0 is Answered
        &&& outcome.1 matches Action::Respond(response) && is_not_found(response, method, path)
    }
}

/// Whether two requests ask for the same.
pub open spec fn same_request(one: DeployRequest, other: DeployRequest) -> bool {
    &&& one.distribution_id@ == other.distribution_id@
    &&& one.oac_id@ == other.oac_id@
    &&& one.host_bucket_name@ == other.host_bucket_name@
    &&& one.recipes_bucket_name@ == other.recipes_bucket_name@
    &&& one.alb_dns_name@ == other.alb_dns_name@
}

/// What comes of a body that was read: the distribution that it names is read next, and the
/// request is kept whole.
pub open spec fn reads_distribution(outcome: (State, Action), request: DeployRequest) -> bool {
    &&& outcome.0 matches State::Fetching { request: kept } && same_request(kept, request)
    &&& outcome.1 matches Action::FetchConfig { distribution_id } && distribution_id@
        == request.distribution_id@
}

/// What comes of a body that could not be read.
pub open spec fn refuses_body(outcome: (State, Action), reason: Seq<char>) -> bool {
    &&& outcome.0 is Answered
    &&& outcome.1 matches Action::Respond(response) && is_bad_request(response, reason)
}

/// Whether two optional texts are both absent or the same.
pub open spec fn same_setting(one: Option<String>, other: Option<String>) -> bool {
    match (one, other) {
        (Some(text), Some(other_text)) => text@ == other_text@,
        (None, None) => true,
        _ => false,
    }
}

/// Whether two default behaviors are both absent or the same.
pub open spec fn same_behavior(
    one: Option<DefaultBehavior>,
    other: Option<DefaultBehavior>,
) -> bool {
    match (one, other) {
        (Some(behavior), Some(other_behavior)) => {
            &&& behavior.target_origin_id@ == other_behavior.target_origin_id@
            &&& behavior.settings == other_behavior.settings
        },
        (None, None) => true,
        _ => false,
    }
}

/// Whether two configurations agree in everything.
pub open spec fn same_config(one: DistributionConfig, other: DistributionConfig) -> bool {
    &&& one.caller_reference@ == other.caller_reference@
    &&& one.comment@ == other.comment@
    &&& one.enabled == other.enabled
    &&& same_behavior(one.default_cache_behavior, other.default_cache_behavior)
    &&& one.has_cache_behaviors == other.has_cache_behaviors
    &&& same_setting(one.price_class, other.price_class)
    &&& one.aliases == other.aliases
    &&& one.viewer_certificate == other.viewer_certificate
    &&& one.restrictions == other.restrictions
    &&& same_setting(one.web_acl_id, other.web_acl_id)
    &&& same_setting(one.http_version, other.http_version)
    &&& one.is_ipv6_enabled == other.is_ipv6_enabled
    &&& same_setting(one.default_root_object, other.default_root_object)
    &&& one.logging == other.logging
    &&& one.origin_groups == other.origin_groups
    &&& same_setting(
        one.continuous_deployment_policy_id,
        other.continuous_deployment_policy_id,
    )
    &&& one.staging == other.staging
    &&& one.custom_error_responses == other.custom_error_responses
}

/// What comes of a distribution that was read: its version and its configuration are kept as
/// they are, and without one of them the promotion has failed.
pub open spec fn keeps_what_was_read(
    outcome: (State, Action),
    request: DeployRequest,
    fetched: FetchedConfig,
) -> bool {
    match (fetched.e_tag, fetched.distribution_config) {
        (None, _) => fails_for_want_of(outcome, MissingPart::ETag),
        (Some(_), None) => fails_for_want_of(outcome, MissingPart::Config),
        (Some(version), Some(current)) => {
            &&& outcome.0 matches State::Locating { request: kept, e_tag, config } && {
                &&& same_request(kept, request)
                &&& e_tag@ == version@
                &&& same_config(config, current)
            }
            &&& outcome.1 is LocateRegion
        },
    }
}

/// What comes of a region that is known: the promotion of the configuration is sent to the
/// distribution of the request, under the version that was read, and the log says so; or the
/// promotion has failed for want of the first part that is absent.
pub open spec fn sends_promotion(
    outcome: (State, Action),
    request: DeployRequest,
    version: Seq<char>,
    current: DistributionConfig,
    region: Seq<char>,
) -> bool {
    &&& has_reported_parts(current) ==> {
        &&& outcome.0 is Updating
        &&& outcome.1 matches Action::UpdateDistribution {
            notice,
            distribution_id,
            config,
            if_match,
        } && {
            &&& notice@ == "Promocionando entorno para la distribución: "@
                + request.distribution_id@
            &&& distribution_id@ == request.distribution_id@
            &&& if_match@ == version
            &&& is_promotion_of(config, current, request, region)
        }
    }
    &&& !has_reported_parts(current) ==> exists|part: MissingPart|
        #[trigger] is_first_absent(part, current) && fails_for_want_of(outcome, part)
}

/// What comes of a configuration that was sent.
pub open spec fn reports_update(
    outcome: (State, Action),
    updated: Result<(), String>,
) -> bool {
    match updated {
        Ok(()) => {
            &&& outcome.0 is Answered
            &&& outcome.1 matches Action::Respond(response) && is_success(response)
        },
        Err(text) => fails_because(outcome, text@),
    }
}

/// Whether the parts that the service gives are there as far as they are looked at.
pub open spec fn can_be_decided(current: DistributionConfig) -> bool {
    ||| current.default_cache_behavior is None
    ||| current.aliases is None
    ||| current.viewer_certificate is None
    ||| has_given_parts(current)
    ||| {
        &&& !current.has_cache_behaviors
        &&& current.restrictions is Some
        &&& current.logging is Some
        &&& current.origin_groups is Some
    }
}

proof fn lemma_fails(outcome: (State, Action), error: PromoteError)
    requires
        (outcome.0@, outcome.1@) == crate::workflow::fail(error@),
    ensures
        fails_because(outcome, error@.debug_text()),
        is_reason(error@.debug_text(), error),
        error matches PromoteError::Missing(part) ==> fails_for_want_of(outcome, part),
{
    let response = outcome.1->Respond_0;
    assert(outcome.1 is Respond);
    lemma_failure(response, error);
    match error {
        PromoteError::Missing(part) => {
            let reason = error@.debug_text();
            let message = reason.subrange(1, reason.len() - 1);
            assert(names_part(message, part));
            assert(seq!['"'] + message + seq!['"'] =~= reason);
        },
        _ => {},
    }
}

proof fn lemma_routed(outcome: (State, Action), method: Seq<char>, path: Seq<char>)
    requires
        (outcome.0@, outcome.1@) == crate::workflow::after_arrival(method, path),
    ensures
        is_routed(outcome, method, path),
{
    reveal_strlit("POST");
    reveal_strlit("OPTIONS");
    assert("POST"@.len() == 4 && "OPTIONS"@.len() == 7);
    if method == "OPTIONS"@ {
        assert(outcome.1 is Respond);
        lemma_preflight(outcome.1->Respond_0);
    } else if !(method == "POST"@ && path == "/api/promote"@) {
        assert(outcome.1 is Respond);
        lemma_error_response(
            outcome.1->Respond_0,
            404,
            "Ruta no encontrada: "@ + method + " "@ + path,
        );
    }
}

/// `OPTIONS` is answered whatever its path, a `POST` to `/api/promote` has its body read, and
/// everything else is answered as not found.
pub proof fn law_requests_are_routed(method: &str, path: &str, outcome: (State, Action))
    requires
        call_ensures(route, (method, path), outcome),
    ensures
        is_routed(outcome, method@, path@),
{
    lemma_routed(outcome, method@, path@);
}

/// The first step answers `OPTIONS`, reads the body of a `POST` to `/api/promote`, and answers
/// everything else as not found.
pub proof fn law_the_step_of_an_arrival(method: String, path: String, outcome: (State, Action))
    requires
        call_ensures(step, (State::Received, Event::Arrived { method, path }), outcome),
    ensures
        is_routed(outcome, method@, path@),
{
    lemma_routed(outcome, method@, path@);
}

proof fn lemma_reads(outcome: (State, Action), request: DeployRequest)
    requires
        (outcome.0@, outcome.1@) == crate::workflow::after_decoding(Ok(Some(request@))),
    ensures
        reads_distribution(outcome, request),
{
    assert(outcome.0 is Fetching);
    assert(outcome.1 is FetchConfig);
}

proof fn lemma_refuses(outcome: (State, Action), reason: Seq<char>)
    requires
        (outcome.0@, outcome.1@) == crate::workflow::after_decoding(Err(reason)),
    ensures
        refuses_body(outcome, reason),
{
    assert(outcome.1 is Respond);
    lemma_bad_request(outcome.1->Respond_0, reason);
}

/// The distribution that is read is the one that the body names, and a body that could not be
/// read is answered with the reason.
pub proof fn law_the_distribution_of_the_request_is_read(
    decoded: Result<DeployRequest, String>,
    outcome: (State, Action),
)
    requires
        call_ensures(accept_request, (decoded,), outcome),
    ensures
        decoded matches Ok(request) ==> reads_distribution(outcome, request),
        decoded matches Err(reason) ==> refuses_body(outcome, reason@),
{
    match decoded {
        Ok(request) => lemma_reads(outcome, request),
        Err(reason) => lemma_refuses(outcome, reason@),
    }
}

/// The step after a body that was read reads the distribution that the body names.
pub proof fn law_the_step_of_a_body(request: DeployRequest, outcome: (State, Action))
    requires
        call_ensures(step, (State::Decoding, Event::Decoded(Ok(Some(request)))), outcome),
    ensures
        reads_distribution(outcome, request),
{
    lemma_reads(outcome, request);
}

/// The step after a body that could not be read answers the reason.
pub proof fn law_the_step_of_a_bad_body(reason: String, outcome: (State, Action))
    requires
        call_ensures(step, (State::Decoding, Event::Decoded(Err(reason))), outcome),
    ensures
        refuses_body(outcome, reason@),
{
    lemma_refuses(outcome, reason@);
}

proof fn lemma_keeps(outcome: (State, Action), request: DeployRequest, fetched: FetchedConfig)
    requires
        (outcome.0@, outcome.1@) == crate::workflow::after_fetching(request@, Ok(fetched@)),
    ensures
        keeps_what_was_read(outcome, request, fetched),
{
    match (fetched.e_tag, fetched.distribution_config) {
        (None, _) => lemma_fails(outcome, PromoteError::Missing(MissingPart::ETag)),
        (Some(_), None) => lemma_fails(outcome, PromoteError::Missing(MissingPart::Config)),
        (Some(version), Some(current)) => {
            assert(outcome.0 is Locating);
            let kept = outcome.0->config;
            assert(kept@ == current@);
            lemma_same_config(kept, current);
        },
    }
}

proof fn lemma_same_config(one: DistributionConfig, other: DistributionConfig)
    requires
        one@ == other@,
    ensures
        same_config(one, other),
{
}

/// What was read of the distribution is kept as it is, and what could not be read is
/// reported.
pub proof fn law_what_was_read_is_kept(
    request: DeployRequest,
    fetched: Result<FetchedConfig, String>,
    outcome: (State, Action),
)
    requires
        call_ensures(accept_config, (request, fetched), outcome),
    ensures
        fetched matches Ok(config) ==> keeps_what_was_read(outcome, request, config),
        fetched matches Err(text) ==> fails_because(outcome, text@),
{
    match fetched {
        Ok(config) => lemma_keeps(outcome, request, config),
        Err(text) => lemma_fails(outcome, PromoteError::Service(text)),
    }
}

/// The step after a read keeps what was read, or reports what could not be.
pub proof fn law_the_step_of_a_read(
    request: DeployRequest,
    fetched: Result<FetchedConfig, String>,
    outcome: (State, Action),
)
    requires
        call_ensures(step, (State::Fetching { request }, Event::Fetched(fetched)), outcome),
    ensures
        fetched matches Ok(config) ==> keeps_what_was_read(outcome, request, config),
        fetched matches Err(text) ==> fails_because(outcome, text@),
{
    match fetched {
        Ok(config) => lemma_keeps(outcome, request, config),
        Err(text) => lemma_fails(outcome, PromoteError::Service(text)),
    }
}

proof fn lemma_sends(
    outcome: (State, Action),
    request: DeployRequest,
    version: Seq<char>,
    current: DistributionConfig,
    region: Seq<char>,
)
    requires
        can_be_decided(current),
        (outcome.0@, outcome.1@) == crate::workflow::after_locating(
            request@,
            version,
            current@,
            region,
        ),
    ensures
        sends_promotion(outcome, request, version, current, region),
{
    if has_reported_parts(current) {
        assert(outcome.1 is UpdateDistribution);
        lemma_promotion(outcome.1->config, current, request, region);
    } else {
        let part = crate::promotion::missing_part(current@)->0;
        assert(is_first_absent(part, current));
        lemma_fails(outcome, PromoteError::Missing(part));
    }
}

/// The promotion of the configuration that was read goes to the distribution of the request
/// under the version that was read, or fails for want of the first part that is absent.
pub proof fn law_promotions_are_sent(
    request: DeployRequest,
    e_tag: String,
    config: DistributionConfig,
    region: &str,
    outcome: (State, Action),
)
    requires
        can_be_decided(config),
        call_ensures(promote_environment, (request, e_tag, config, region), outcome),
    ensures
        sends_promotion(outcome, request, e_tag@, config, region@),
{
    lemma_sends(outcome, request, e_tag@, config, region@);
}

/// The step after the lookup of the region sends the promotion, or fails for want of a part.
pub proof fn law_the_step_of_a_region(
    request: DeployRequest,
    e_tag: String,
    config: DistributionConfig,
    region: String,
    outcome: (State, Action),
)
    requires
        can_be_decided(config),
        call_ensures(
            step,
            (State::Locating { request, e_tag, config }, Event::Located { region }),
            outcome,
        ),
    ensures
        sends_promotion(outcome, request, e_tag@, config, region@),
{
    lemma_sends(outcome, request, e_tag@, config, region@);
}

proof fn lemma_reports(outcome: (State, Action), updated: Result<(), String>)
    requires
        (outcome.0@, outcome.1@) == crate::workflow::after_updating(
            match updated {
                Ok(()) => Ok(()),
                Err(text) => Err(text@),
            },
        ),
    ensures
        reports_update(outcome, updated),
{
    match updated {
        Ok(()) => {
            assert(outcome.1 is Respond);
            lemma_success(outcome.1->Respond_0);
        },
        Err(text) => lemma_fails(outcome, PromoteError::Service(text)),
    }
}

/// An update that was taken is answered as success, and one that was not with what the
/// service said.
pub proof fn law_updates_are_reported(updated: Result<(), String>, outcome: (State, Action))
    requires
        call_ensures(finish, (updated,), outcome),
    ensures
        reports_update(outcome, updated),
{
    lemma_reports(outcome, updated);
}

/// The step after an update reports it.
pub proof fn law_the_step_of_an_update(updated: Result<(), String>, outcome: (State, Action))
    requires
        call_ensures(step, (State::Updating, Event::Updated(updated)), outcome),
    ensures
        reports_update(outcome, updated),
{
    match updated {
        Ok(()) => lemma_reports(outcome, Ok(())),
        Err(text) => lemma_reports(outcome, Err(text)),
    }
}

/// Every event that an action can lead to can be stepped through: any request, any body but
/// none, any read, any region for a configuration that can be decided, and any update.
pub proof fn law_every_event_can_be_stepped_through(
    method: String,
    path: String,
    request: DeployRequest,
    e_tag: String,
    config: DistributionConfig,
    text: String,
    fetched: Result<FetchedConfig, String>,
    updated: Result<(), String>,
)
    requires
        can_be_decided(config),
    ensures
        call_requires(step, (State::Received, Event::Arrived { method, path })),
        call_requires(step, (State::Decoding, Event::Decoded(Ok(Some(request))))),
        call_requires(step, (State::Decoding, Event::Decoded(Err(text)))),
        call_requires(step, (State::Fetching { request }, Event::Fetched(fetched))),
        call_requires(
            step,
            (State::Locating { request, e_tag, config }, Event::Located { region: text }),
        ),
        call_requires(step, (State::Updating, Event::Updated(updated))),
{
    assert(crate::workflow::expects(
        (State::Fetching { request })@,
        (Event::Fetched(fetched))@,
    )) by {
        match fetched {
            Ok(_) => {},
            Err(_) => {},
        }
    }
    assert(crate::workflow::expects(State::Updating@, (Event::Updated(updated))@)) by {
        match updated {
            Ok(()) => {},
            Err(_) => {},
        }
    }
}

/// The promotion of every configuration that can be decided can be computed.
pub proof fn law_every_stage_can_be_entered(
    request: DeployRequest,
    e_tag: String,
    config: DistributionConfig,
    region: &str,
)
    requires
        can_be_decided(config),
    ensures
        call_requires(promote_environment, (request, e_tag, config, region)),
{
}

} // verus!
