//! What holds of every promotion and of every request.
use vstd::prelude::*;

use crate::distribution::{
    AllowedMethodsView, DistributionConfigView, Method, OriginView, SslProtocol, UpdatedConfigView,
};
use crate::error::{MissingPart, PromoteErrorView};
use crate::json::{escaped, escaped_char, json_string};
use crate::promotion::{
    has_service_parts, missing_part, promoted, ALB_RECIPES_ORIGIN, ALB_USERS_ORIGIN, S3_HOST_ORIGIN,
    S3_RECIPES_ORIGIN,
};
use crate::request::DeployRequestView;
use crate::response::{error_json, not_found, preflight, promotion_failed, stack_promoted};
use crate::workflow::{
    expects, next, possible, run, ActionView, EventView, FetchedConfigView, StateView,
};

verus! {

/// Whether a configuration can be promoted: every part is there, be it one whose absence is
/// reported or one that the service gives with every distribution.
pub open spec fn promotable(current: DistributionConfigView) -> bool {
    &&& current.default_cache_behavior is Some
    &&& current.aliases is Some
    &&& current.viewer_certificate is Some
    &&& current.has_cache_behaviors
    &&& current.restrictions is Some
    &&& current.logging is Some
    &&& current.origin_groups is Some
    &&& current.custom_error_responses is Some
}

/// A part is found missing if and only if the default cache behavior, the aliases, the
/// certificate or the cache behaviors are absent.
pub proof fn law_a_part_is_missing_only_where_it_is_absent(current: DistributionConfigView)
    ensures
        missing_part(current) is None <==> {
            &&& current.default_cache_behavior is Some
            &&& current.aliases is Some
            &&& current.viewer_certificate is Some
            &&& current.has_cache_behaviors
        },
        missing_part(current) is None && has_service_parts(current) <==> promotable(current),
{
}

/// Whether the numbers of methods are those of the methods that are listed.
pub open spec fn methods_counted(methods: AllowedMethodsView) -> bool {
    &&& methods.quantity == methods.items.len()
    &&& methods.cached_methods.quantity == methods.cached_methods.items.len()
}

/// Whether the numbers in an origin are those of what is listed in it.
pub open spec fn origin_counted(origin: OriginView) -> bool {
    &&& origin.custom_headers.quantity == 0
    &&& origin.custom_origin_config matches Some(config) ==> config.origin_ssl_protocols.quantity
        == config.origin_ssl_protocols.items.len()
}

/// Every number that is sent is that of the items that are sent with it.
pub proof fn law_quantities_are_exact(
    current: DistributionConfigView,
    request: DeployRequestView,
    region: Seq<char>,
)
    requires
        promotable(current),
    ensures
        ({
            let sent = promoted(current, request, region);
            &&& sent.origins.quantity == sent.origins.items.len()
            &&& sent.cache_behaviors.quantity == sent.cache_behaviors.items.len()
            &&& forall|i: int|
                0 <= i < sent.origins.items.len() ==> origin_counted(
                    #[trigger] sent.origins.items[i],
                )
            &&& forall|i: int|
                #![trigger sent.cache_behaviors.items[i]]
                0 <= i < sent.cache_behaviors.items.len() ==> {
                    &&& methods_counted(sent.cache_behaviors.items[i].allowed_methods)
                    &&& sent.cache_behaviors.items[i].lambda_function_associations.quantity == 0
                }
        }),
{
}

/// No two origins that are sent have the same identifier.
pub proof fn law_origin_ids_are_distinct(
    current: DistributionConfigView,
    request: DeployRequestView,
    region: Seq<char>,
)
    requires
        promotable(current),
    ensures
        ({
            let origins = promoted(current, request, region).origins.items;
            forall|i: int, j: int|
                0 <= i < j < origins.len() ==> (#[trigger] origins[i]).id != (
                #[trigger] origins[j]).id
        }),
{
    reveal_strlit("S3HostOrigin");
    reveal_strlit("S3RecipesOrigin");
    reveal_strlit("ALBOrigin3001");
    reveal_strlit("ALBOrigin3002");
    assert(S3_HOST_ORIGIN@.len() == 12 && S3_RECIPES_ORIGIN@.len() == 15);
    assert(ALB_RECIPES_ORIGIN@.len() == 13 && ALB_USERS_ORIGIN@.len() == 13);
    assert(ALB_RECIPES_ORIGIN@[12] == '1' && ALB_USERS_ORIGIN@[12] == '2');
    let origins = promoted(current, request, region).origins.items;
    assert(origins[0].id == S3_HOST_ORIGIN@ && origins[1].id == S3_RECIPES_ORIGIN@);
    assert(origins[2].id == ALB_RECIPES_ORIGIN@ && origins[3].id == ALB_USERS_ORIGIN@);
}

/// Whether an identifier is that of an origin that is sent.
pub open spec fn is_origin(sent: UpdatedConfigView, id: Seq<char>) -> bool {
    exists|i: int| 0 <= i < sent.origins.items.len() && #[trigger] sent.origins.items[i].id == id
}

/// Every cache behavior that is sent, the default one too, is served by an origin that is
/// sent with it.
pub proof fn law_every_target_is_an_origin(
    current: DistributionConfigView,
    request: DeployRequestView,
    region: Seq<char>,
)
    requires
        promotable(current),
    ensures
        ({
            let sent = promoted(current, request, region);
            &&& is_origin(sent, sent.default_cache_behavior.target_origin_id)
            &&& forall|i: int|
                0 <= i < sent.cache_behaviors.items.len() ==> is_origin(
                    sent,
                    #[trigger] sent.cache_behaviors.items[i].target_origin_id,
                )
        }),
{
    let sent = promoted(current, request, region);
    let origins = sent.origins.items;
    assert(origins[0].id == S3_HOST_ORIGIN@);
    assert(origins[1].id == S3_RECIPES_ORIGIN@);
    assert(origins[2].id == ALB_RECIPES_ORIGIN@);
    assert(origins[3].id == ALB_USERS_ORIGIN@);
}

/// No two cache behaviors that are sent have the same path pattern.
pub proof fn law_path_patterns_are_distinct(
    current: DistributionConfigView,
    request: DeployRequestView,
    region: Seq<char>,
)
    requires
        promotable(current),
    ensures
        ({
            let behaviors = promoted(current, request, region).cache_behaviors.items;
            forall|i: int, j: int|
                0 <= i < j < behaviors.len() ==> (#[trigger] behaviors[i]).path_pattern != (
                #[trigger] behaviors[j]).path_pattern
        }),
{
    reveal_strlit("/apps/recipes");
    reveal_strlit("/apps/recipes/*");
    reveal_strlit("/api/recipes");
    reveal_strlit("/api/recipes/*");
    reveal_strlit("/api/users");
    reveal_strlit("/api/users/*");
    assert("/apps/recipes"@.len() == 13 && "/apps/recipes/*"@.len() == 15);
    assert("/api/recipes"@.len() == 12 && "/api/recipes/*"@.len() == 14);
    assert("/api/users"@.len() == 10 && "/api/users/*"@.len() == 12);
    assert("/api/recipes"@[5] == 'r' && "/api/users/*"@[5] == 'u');
    let behaviors = promoted(current, request, region).cache_behaviors.items;
    assert(behaviors[0].path_pattern == "/apps/recipes"@);
    assert(behaviors[1].path_pattern == "/apps/recipes/*"@);
    assert(behaviors[2].path_pattern == "/api/recipes"@);
    assert(behaviors[3].path_pattern == "/api/recipes/*"@);
    assert(behaviors[4].path_pattern == "/api/users"@);
    assert(behaviors[5].path_pattern == "/api/users/*"@);
}

/// What is cached is let through.
pub proof fn law_cached_methods_are_allowed(
    current: DistributionConfigView,
    request: DeployRequestView,
    region: Seq<char>,
    index: int,
    method: Method,
)
    requires
        promotable(current),
        0 <= index < promoted(current, request, region).cache_behaviors.items.len(),
        promoted(
            current,
            request,
            region,
        ).cache_behaviors.items[index].allowed_methods.cached_methods.items.contains(method),
    ensures
        promoted(
            current,
            request,
            region,
        ).cache_behaviors.items[index].allowed_methods.items.contains(method),
{
    let methods = promoted(current, request, region).cache_behaviors.items[index].allowed_methods;
    assert(methods.items[0] == Method::Get);
    assert(methods.items[1] == Method::Head);
}

/// Whether an origin is a bucket that is read under an origin access control.
pub open spec fn is_guarded_bucket(origin: OriginView, oac_id: Seq<char>) -> bool {
    &&& origin.origin_access_control_id == Some(oac_id)
    &&& origin.s3_origin_access_identity is Some
    &&& origin.custom_origin_config is None
}

/// Whether an origin is a load balancer towards which no protocol but TLS 1.2 is allowed.
pub open spec fn is_tls_12_balancer(origin: OriginView, alb_dns_name: Seq<char>) -> bool {
    &&& origin.domain_name == alb_dns_name
    &&& origin.origin_access_control_id is None
    &&& origin.s3_origin_access_identity is None
    &&& origin.custom_origin_config matches Some(config) && config.origin_ssl_protocols.items
        == seq![SslProtocol::TlsV12]
}

/// Every origin that is sent is a bucket under the access control of the request, or the load
/// balancer of the request with TLS 1.2 alone.
pub proof fn law_origins_are_guarded(
    current: DistributionConfigView,
    request: DeployRequestView,
    region: Seq<char>,
    index: int,
)
    requires
        promotable(current),
        0 <= index < promoted(current, request, region).origins.items.len(),
    ensures
        ({
            let origin = promoted(current, request, region).origins.items[index];
            ||| is_guarded_bucket(origin, request.oac_id)
            ||| is_tls_12_balancer(origin, request.alb_dns_name)
        }),
{
}

/// The distribution keeps its identity, its domains, its certificate and every other part
/// that a promotion does not replace; a setting that it has is sent as it is, and none is
/// left out.
pub proof fn law_the_rest_is_kept(
    current: DistributionConfigView,
    request: DeployRequestView,
    region: Seq<char>,
)
    requires
        promotable(current),
    ensures
        ({
            let sent = promoted(current, request, region);
            &&& sent.caller_reference == current.caller_reference
            &&& sent.comment == current.comment
            &&& sent.enabled == current.enabled
            &&& current.default_cache_behavior is Some
            &&& sent.default_cache_behavior.settings == current.default_cache_behavior->0.settings
            &&& current.aliases == Some(sent.aliases)
            &&& current.viewer_certificate == Some(sent.viewer_certificate)
            &&& current.restrictions == Some(sent.restrictions)
            &&& current.logging == Some(sent.logging)
            &&& current.origin_groups == Some(sent.origin_groups)
            &&& current.custom_error_responses == Some(sent.custom_error_responses)
            &&& current.price_class is Some ==> current.price_class == Some(sent.price_class)
            &&& current.web_acl_id is Some ==> current.web_acl_id == Some(sent.web_acl_id)
            &&& current.http_version is Some ==> current.http_version == Some(sent.http_version)
            &&& current.is_ipv6_enabled is Some ==> current.is_ipv6_enabled == Some(
                sent.is_ipv6_enabled,
            )
            &&& current.default_root_object is Some ==> current.default_root_object == Some(
                sent.default_root_object,
            )
            &&& current.continuous_deployment_policy_id is Some
                ==> current.continuous_deployment_policy_id == Some(
                sent.continuous_deployment_policy_id,
            )
            &&& current.staging is Some ==> current.staging == Some(sent.staging)
        }),
{
}

/// Whatever the distribution served before, it serves the environment of the request after:
/// its origins and its routing hang on nothing that was there.
pub proof fn law_the_environment_decides_the_routing(
    one: DistributionConfigView,
    other: DistributionConfigView,
    request: DeployRequestView,
    region: Seq<char>,
)
    requires
        promotable(one),
        promotable(other),
    ensures
        ({
            let sent = promoted(one, request, region);
            let also_sent = promoted(other, request, region);
            &&& sent.origins == also_sent.origins
            &&& sent.cache_behaviors == also_sent.cache_behaviors
            &&& sent.default_cache_behavior.target_origin_id
                == also_sent.default_cache_behavior.target_origin_id
        }),
{
}

/// Two environments are served alike but for their origins.
pub proof fn law_environments_differ_in_origins_alone(
    current: DistributionConfigView,
    request: DeployRequestView,
    region: Seq<char>,
    other_request: DeployRequestView,
    other_region: Seq<char>,
)
    requires
        promotable(current),
    ensures
        promoted(current, request, region) == (UpdatedConfigView {
            origins: promoted(current, request, region).origins,
            ..promoted(current, other_request, other_region)
        }),
{
}

/// What a later read of the distribution shows of a configuration that it took.
pub open spec fn read_back(sent: UpdatedConfigView) -> DistributionConfigView {
    DistributionConfigView {
        caller_reference: sent.caller_reference,
        comment: sent.comment,
        enabled: sent.enabled,
        default_cache_behavior: Some(sent.default_cache_behavior),
        has_cache_behaviors: true,
        price_class: Some(sent.price_class),
        aliases: Some(sent.aliases),
        viewer_certificate: Some(sent.viewer_certificate),
        restrictions: Some(sent.restrictions),
        web_acl_id: Some(sent.web_acl_id),
        http_version: Some(sent.http_version),
        is_ipv6_enabled: Some(sent.is_ipv6_enabled),
        default_root_object: Some(sent.default_root_object),
        logging: Some(sent.logging),
        origin_groups: Some(sent.origin_groups),
        continuous_deployment_policy_id: Some(sent.continuous_deployment_policy_id),
        staging: Some(sent.staging),
        custom_error_responses: Some(sent.custom_error_responses),
    }
}

/// A configuration that was sent can be promoted again, and the last promotion alone counts:
/// to promote one environment and then another is to promote the other.
pub proof fn law_the_last_promotion_counts(
    current: DistributionConfigView,
    request: DeployRequestView,
    region: Seq<char>,
    last_request: DeployRequestView,
    last_region: Seq<char>,
)
    requires
        promotable(current),
    ensures
        promotable(read_back(promoted(current, request, region))),
        promoted(read_back(promoted(current, request, region)), last_request, last_region)
            == promoted(current, last_request, last_region),
{
}

/// To promote an environment twice is to promote it once.
pub proof fn law_promotion_is_idempotent(
    current: DistributionConfigView,
    request: DeployRequestView,
    region: Seq<char>,
)
    requires
        promotable(current),
    ensures
        promoted(read_back(promoted(current, request, region)), request, region) == promoted(
            current,
            request,
            region,
        ),
{
    law_the_last_promotion_counts(current, request, region, request, region);
}

/// How far a state is from the first one.
pub open spec fn progress(state: StateView) -> int {
    match state {
        StateView::Received => 0,
        StateView::Decoding => 1,
        StateView::Fetching { .. } => 2,
        StateView::Locating { .. } => 3,
        StateView::Updating => 4,
        StateView::Answered => 5,
    }
}

/// Every event brings the work one state further or ends it, and it ends with a response and
/// with nothing else.
pub proof fn law_every_step_advances(state: StateView, event: EventView)
    requires
        expects(state, event),
    ensures
        ({
            let (after, action) = next(state, event);
            &&& after is Answered || progress(after) == progress(state) + 1
            &&& after is Answered <==> action is Respond
        }),
{
}

/// After the response nothing more is expected.
pub proof fn law_the_response_is_the_end(event: EventView)
    ensures
        !expects(StateView::Answered, event),
{
}

/// The work on a request ends after five events at most.
pub proof fn law_five_events_at_most(events: Seq<EventView>)
    requires
        possible(events),
    ensures
        events.len() <= 5,
        events.len() <= progress(run(events).0),
        run(events).0 !is Answered ==> events.len() == progress(run(events).0),
    decreases events.len(),
{
    if events.len() > 0 {
        law_five_events_at_most(events.drop_last());
        law_every_step_advances(run(events.drop_last()).0, events.last());
    }
}

/// What the events say that led to a state in which the work goes on.
pub open spec fn accounted_for(events: Seq<EventView>, state: StateView) -> bool {
    match state {
        StateView::Received => events.len() == 0,
        StateView::Decoding => {
            &&& events.len() == 1
            &&& events[0] == (EventView::Arrived { method: "POST"@, path: "/api/promote"@ })
        },
        StateView::Fetching { request } => {
            &&& events.len() == 2
            &&& events[0] == (EventView::Arrived { method: "POST"@, path: "/api/promote"@ })
            &&& events[1] == EventView::Decoded(Ok(Some(request)))
        },
        StateView::Locating { request, e_tag, config } => {
            &&& events.len() == 3
            &&& events[0] == (EventView::Arrived { method: "POST"@, path: "/api/promote"@ })
            &&& events[1] == EventView::Decoded(Ok(Some(request)))
            &&& events[2] == EventView::Fetched(
                Ok(FetchedConfigView { e_tag: Some(e_tag), distribution_config: Some(config) }),
            )
        },
        StateView::Updating => {
            &&& events.len() == 4
            &&& run(events).1 matches Some(ActionView::UpdateDistribution { .. })
        },
        StateView::Answered => true,
    }
}

/// A state says no more than the events that led to it.
proof fn lemma_accounted_for(events: Seq<EventView>)
    requires
        possible(events),
    ensures
        accounted_for(events, run(events).0),
    decreases events.len(),
{
    if events.len() > 0 {
        lemma_accounted_for(events.drop_last());
    }
}

/// A distribution is changed only by a `POST` to the promotion path, only if its
/// configuration was read, and only as long as its version is the one that was read: what is
/// sent is the promotion of that configuration, to the distribution of the request.
pub proof fn law_updates_are_guarded_by_the_version_read(
    events: Seq<EventView>,
    notice: Seq<char>,
    distribution_id: Seq<char>,
    config: UpdatedConfigView,
    if_match: Seq<char>,
)
    requires
        possible(events),
        run(events).1 == Some(
            ActionView::UpdateDistribution { notice, distribution_id, config, if_match },
        ),
    ensures
        events.len() == 4,
        events[0] == (EventView::Arrived { method: "POST"@, path: "/api/promote"@ }),
        exists|request: DeployRequestView, current: DistributionConfigView, region: Seq<char>|
            {
                &&& events[1] == EventView::Decoded(Ok(Some(request)))
                &&& events[2] == EventView::Fetched(
                    Ok(
                        FetchedConfigView {
                            e_tag: Some(if_match),
                            distribution_config: Some(current),
                        },
                    ),
                )
                &&& events[3] == (EventView::Located { region })
                &&& distribution_id == request.distribution_id
                &&& promotable(current)
                &&& config == #[trigger] promoted(current, request, region)
            },
{
    lemma_accounted_for(events.drop_last());
    let before = run(events.drop_last()).0;
    assert(before is Locating);
    assert(config == promoted(before->config, before->Locating_request, events.last()->region));
}

/// The distribution that is read is the one that the body of a `POST` to the promotion path
/// names.
pub proof fn law_reads_are_of_the_requested_distribution(
    events: Seq<EventView>,
    distribution_id: Seq<char>,
)
    requires
        possible(events),
        run(events).1 == Some(ActionView::FetchConfig { distribution_id }),
    ensures
        events.len() == 2,
        events[0] == (EventView::Arrived { method: "POST"@, path: "/api/promote"@ }),
        events[1] matches EventView::Decoded(Ok(Some(request))) && request.distribution_id
            == distribution_id,
{
    lemma_accounted_for(events.drop_last());
    lemma_accounted_for(events);
    let request = run(events).0->Fetching_request;
    assert(events[1] == EventView::Decoded(Ok(Some(request))));
}

/// The distribution that is changed is the one that was read.
pub proof fn law_the_distribution_read_is_the_one_changed(
    events: Seq<EventView>,
    read_id: Seq<char>,
    notice: Seq<char>,
    distribution_id: Seq<char>,
    config: UpdatedConfigView,
    if_match: Seq<char>,
)
    requires
        possible(events),
        run(events).1 == Some(
            ActionView::UpdateDistribution { notice, distribution_id, config, if_match },
        ),
        run(events.take(2)).1 == Some(ActionView::FetchConfig { distribution_id: read_id }),
    ensures
        read_id == distribution_id,
{
    law_updates_are_guarded_by_the_version_read(
        events,
        notice,
        distribution_id,
        config,
        if_match,
    );
    assert(possible(events.drop_last()));
    assert(possible(events.drop_last().drop_last()));
    assert(events.drop_last().drop_last() =~= events.take(2));
    law_reads_are_of_the_requested_distribution(events.take(2), read_id);
    assert(events.take(2)[1] == events[1]);
}

/// That a promotion succeeded is answered only after the new configuration was taken.
pub proof fn law_success_is_answered_only_after_the_update(events: Seq<EventView>)
    requires
        possible(events),
        run(events).1 == Some(ActionView::Respond(stack_promoted())),
    ensures
        events.len() == 5,
        events[4] == EventView::Updated(Ok(())),
        run(events.drop_last()).1 matches Some(ActionView::UpdateDistribution { .. }),
{
    lemma_accounted_for(events.drop_last());
    assert(preflight().headers.len() != stack_promoted().headers.len());
    assert(events.last() == events[4]);
    match events.last() {
        EventView::Updated(Ok(done)) => {
            assert(done == ());
        },
        _ => {},
    }
}

/// A promotion goes through where every part is there and no call fails.
pub proof fn law_a_sound_promotion_succeeds(
    request: DeployRequestView,
    e_tag: Seq<char>,
    current: DistributionConfigView,
    region: Seq<char>,
)
    requires
        promotable(current),
    ensures
        ({
            let events = seq![
                EventView::Arrived { method: "POST"@, path: "/api/promote"@ },
                EventView::Decoded(Ok(Some(request))),
                EventView::Fetched(
                    Ok(
                        FetchedConfigView {
                            e_tag: Some(e_tag),
                            distribution_config: Some(current),
                        },
                    ),
                ),
                EventView::Located { region },
                EventView::Updated(Ok(())),
            ];
            &&& possible(events)
            &&& run(events) == (
                StateView::Answered,
                Some(ActionView::Respond(stack_promoted())),
            )
        }),
{
    let arrived = seq![EventView::Arrived { method: "POST"@, path: "/api/promote"@ }];
    let decoded = arrived.push(EventView::Decoded(Ok(Some(request))));
    let fetched = decoded.push(
        EventView::Fetched(
            Ok(FetchedConfigView { e_tag: Some(e_tag), distribution_config: Some(current) }),
        ),
    );
    let located = fetched.push(EventView::Located { region });
    let updated = located.push(EventView::Updated(Ok(())));
    reveal_strlit("POST");
    reveal_strlit("OPTIONS");
    assert(arrived.drop_last() =~= seq![]);
    assert(decoded.drop_last() =~= arrived);
    assert(fetched.drop_last() =~= decoded);
    assert(located.drop_last() =~= fetched);
    assert(updated.drop_last() =~= located);
    assert(possible(Seq::<EventView>::empty()));
    assert(possible(arrived));
    assert("POST"@.len() == 4 && "OPTIONS"@.len() == 7);
    assert(run(Seq::<EventView>::empty()).0 == StateView::Received);
    assert(run(arrived).0 == StateView::Decoding);
    assert(possible(decoded));
    assert(possible(fetched));
    assert(possible(located));
    assert(updated =~= seq![
        EventView::Arrived { method: "POST"@, path: "/api/promote"@ },
        EventView::Decoded(Ok(Some(request))),
        EventView::Fetched(
            Ok(FetchedConfigView { e_tag: Some(e_tag), distribution_config: Some(current) }),
        ),
        EventView::Located { region },
        EventView::Updated(Ok(())),
    ]);
}

/// Only a `POST` to the promotion path leads on; a preflight is answered whatever its path,
/// and everything else is answered as not found.
pub proof fn law_only_the_promotion_path_leads_on(method: Seq<char>, path: Seq<char>)
    ensures
        ({
            let (after, action) = next(StateView::Received, EventView::Arrived { method, path });
            &&& after is Decoding <==> method == "POST"@ && path == "/api/promote"@
            &&& action == ActionView::Respond(preflight()) <==> method == "OPTIONS"@
            &&& action == ActionView::Respond(not_found(method, path)) <==> method != "OPTIONS"@
                && !(method == "POST"@ && path == "/api/promote"@)
        }),
{
    reveal_strlit("POST");
    reveal_strlit("OPTIONS");
    assert("POST"@.len() == 4 && "OPTIONS"@.len() == 7);
    assert(preflight().status != not_found(method, path).status);
}

/// Once the distribution is being read, every response but that of success is that of a
/// promotion that failed, and says why.
pub proof fn law_failed_promotions_are_reported(state: StateView, event: EventView)
    requires
        expects(state, event),
        state is Fetching || state is Locating || state is Updating,
        next(state, event).0 is Answered,
        next(state, event).1 != ActionView::Respond(stack_promoted()),
    ensures
        next(state, event).1 matches ActionView::Respond(response) && response.status == 500,
        exists|error: PromoteErrorView|
            next(state, event).1 == ActionView::Respond(#[trigger] promotion_failed(error)),
{
    let error = match (state, event) {
        (StateView::Fetching { .. }, EventView::Fetched(Ok(fetched))) => {
            if fetched.e_tag is None {
                PromoteErrorView::Missing(MissingPart::ETag)
            } else {
                PromoteErrorView::Missing(MissingPart::Config)
            }
        },
        (StateView::Fetching { .. }, EventView::Fetched(Err(text))) => PromoteErrorView::Service(
            text,
        ),
        (StateView::Locating { config, .. }, _) => PromoteErrorView::Missing(
            missing_part(config)->0,
        ),
        (_, EventView::Updated(Err(text))) => PromoteErrorView::Service(text),
        _ => arbitrary(),
    };
    assert(next(state, event).1 == ActionView::Respond(promotion_failed(error)));
}

/// What stands for a text starts with what stands for its first character.
pub(crate) proof fn lemma_escaped_from_the_front(text: Seq<char>)
    requires
        text.len() > 0,
    ensures
        escaped(text) == escaped_char(text[0]) + escaped(text.skip(1)),
    decreases text.len(),
{
    if text.len() == 1 {
        assert(text.drop_last() =~= Seq::empty());
        assert(text.skip(1) =~= Seq::empty());
        assert(escaped(Seq::empty()) =~= Seq::empty());
    } else {
        lemma_escaped_from_the_front(text.drop_last());
        assert(text.drop_last().skip(1) =~= text.skip(1).drop_last());
        assert(text.skip(1).last() == text.last());
    }
}

/// What stands for one character is never the start of what stands for another.
proof fn lemma_escaped_chars_differ(c: char, d: char, after_c: Seq<char>, after_d: Seq<char>)
    requires
        escaped_char(c) + after_c == escaped_char(d) + after_d,
    ensures
        c == d,
        after_c == after_d,
{
    let left = escaped_char(c) + after_c;
    let right = escaped_char(d) + after_d;
    assert(left[0] == escaped_char(c)[0] && right[0] == escaped_char(d)[0]);
    if escaped_char(c).len() > 1 {
        assert(left[1] == escaped_char(c)[1]);
    }
    if escaped_char(d).len() > 1 {
        assert(right[1] == escaped_char(d)[1]);
    }
    if escaped_char(c).len() > 2 {
        assert(left[4] == escaped_char(c)[4] && left[5] == escaped_char(c)[5]);
    }
    if escaped_char(d).len() > 2 {
        assert(right[4] == escaped_char(d)[4] && right[5] == escaped_char(d)[5]);
    }
    assert(c == d);
    assert(after_c =~= left.skip(escaped_char(c).len() as int));
    assert(after_d =~= right.skip(escaped_char(d).len() as int));
}

/// Different texts are escaped differently.
proof fn lemma_escaped_is_injective(one: Seq<char>, other: Seq<char>)
    requires
        escaped(one) == escaped(other),
    ensures
        one == other,
    decreases one.len(),
{
    if one.len() == 0 || other.len() == 0 {
        if one.len() > 0 {
            lemma_escaped_from_the_front(one);
            assert(escaped_char(one[0]).len() > 0);
            assert(escaped(one).len() > 0);
            assert(escaped(other).len() == 0);
        }
        if other.len() > 0 {
            lemma_escaped_from_the_front(other);
            assert(escaped_char(other[0]).len() > 0);
            assert(escaped(other).len() > 0);
            assert(escaped(one).len() == 0);
        }
        assert(one =~= other);
    } else {
        lemma_escaped_from_the_front(one);
        lemma_escaped_from_the_front(other);
        lemma_escaped_chars_differ(one[0], other[0], escaped(one.skip(1)), escaped(other.skip(1)));
        lemma_escaped_is_injective(one.skip(1), other.skip(1));
        assert(one =~= seq![one[0]] + one.skip(1));
        assert(other =~= seq![other[0]] + other.skip(1));
    }
}

/// A JSON string tells which text it holds.
pub proof fn law_json_strings_tell_texts_apart(one: Seq<char>, other: Seq<char>)
    requires
        json_string(one) == json_string(other),
    ensures
        one == other,
{
    assert(escaped(one) =~= json_string(one).drop_first().drop_last());
    assert(escaped(other) =~= json_string(other).drop_first().drop_last());
    lemma_escaped_is_injective(one, other);
}

/// The response to a failed request tells which error it reports.
pub proof fn law_error_bodies_tell_errors_apart(one: Seq<char>, other: Seq<char>)
    requires
        error_json(one) == error_json(other),
    ensures
        one == other,
{
    let head = "{\"error\":"@;
    let tail = "}"@;
    assert(error_json(one) =~= head + json_string(one) + tail);
    assert(json_string(one) =~= error_json(one).subrange(
        head.len() as int,
        error_json(one).len() - tail.len(),
    ));
    assert(json_string(other) =~= error_json(other).subrange(
        head.len() as int,
        error_json(other).len() - tail.len(),
    ));
    law_json_strings_tell_texts_apart(one, other);
}

/// Whether a character stands for itself inside a JSON string.
pub open spec fn is_plain(c: char) -> bool {
    c as int >= 0x20 && c != '"' && c != '\\'
}

/// A text without quotes, backslashes and control characters stands in a JSON string as it is.
pub proof fn law_plain_text_stands_as_it_is(text: Seq<char>)
    requires
        forall|i: int| 0 <= i < text.len() ==> is_plain(#[trigger] text[i]),
    ensures
        json_string(text) == seq!['"'] + text + seq!['"'],
{
    lemma_plain_text(text);
}

/// Nothing in a text without special characters is escaped.
proof fn lemma_plain_text(text: Seq<char>)
    requires
        forall|i: int| 0 <= i < text.len() ==> is_plain(#[trigger] text[i]),
    ensures
        escaped(text) == text,
    decreases text.len(),
{
    if text.len() > 0 {
        lemma_plain_text(text.drop_last());
        assert(text =~= text.drop_last() + seq![text.last()]);
        assert(is_plain(text[text.len() - 1]));
    } else {
        assert(text =~= Seq::empty());
    }
}

} // verus!
