//! What the configuration that a promotion sends must be, part by part.
//!
//! Each law speaks of every result that a function can give, over the fields of that result
//! and of the function's arguments.
use vstd::prelude::*;

use crate::distribution::{
    AllowedMethods, CacheBehavior, CacheBehaviors, CachedMethods, DistributionConfig, Method, Origin,
    OriginProtocolPolicy, Origins, SslProtocol, UpdatedConfig, ViewerProtocolPolicy,
};
use crate::error::MissingPart;
use crate::promotion::{
    bucket_domain_name, check_service_parts, new_alb_origin, new_api_allowed_methods,
    new_api_behavior, new_cache_behaviors, new_cached_methods, new_origins, new_recipes_behavior,
    new_s3_allowed_methods, new_s3_origin, promoted_config,
};
use crate::request::DeployRequest;
use crate::text::{same_text, unwrap_flag, unwrap_text_or};

verus! {

/// Whether an origin is a bucket in a region, read under an origin access control and in no
/// other way.
pub open spec fn is_bucket(
    origin: Origin,
    id: Seq<char>,
    bucket: Seq<char>,
    region: Seq<char>,
    oac_id: Seq<char>,
) -> bool {
    &&& origin.id@ == id
    &&& origin.domain_name@ == bucket + ".s3."@ + region + ".amazonaws.com"@
    &&& origin.origin_path@.len() == 0
    &&& origin.custom_headers.quantity == 0
    &&& origin.origin_access_control_id matches Some(control) && control@ == oac_id
    &&& origin.s3_origin_config matches Some(config) && config.origin_access_identity@.len() == 0
    &&& origin.custom_origin_config is None
}

/// Whether an origin is a service that is reached over plain HTTP on a port of a load
/// balancer, with TLS 1.2 as the only protocol besides.
pub open spec fn is_service(
    origin: Origin,
    id: Seq<char>,
    alb_dns_name: Seq<char>,
    port: int,
) -> bool {
    &&& origin.id@ == id
    &&& origin.domain_name@ == alb_dns_name
    &&& origin.origin_path@.len() == 0
    &&& origin.custom_headers.quantity == 0
    &&& origin.origin_access_control_id is None
    &&& origin.s3_origin_config is None
    &&& origin.custom_origin_config matches Some(config) && {
        &&& config.http_port == port
        &&& config.https_port == 443
        &&& config.origin_protocol_policy == OriginProtocolPolicy::HttpOnly
        &&& config.origin_ssl_protocols.quantity == 1
        &&& config.origin_ssl_protocols.items@.len() == 1
        &&& config.origin_ssl_protocols.items@[0] == SslProtocol::TlsV12
        &&& config.origin_read_timeout == 30
        &&& config.origin_keepalive_timeout == 5
    }
}

/// Whether the origins are those of an environment: the bucket of the host application, that
/// of the recipes application, the recipes service and the users service.
pub open spec fn are_origins_of(
    origins: Origins,
    request: DeployRequest,
    region: Seq<char>,
) -> bool {
    &&& origins.quantity == 4
    &&& origins.items@.len() == 4
    &&& is_bucket(
        origins.items@[0],
        "S3HostOrigin"@,
        request.host_bucket_name@,
        region,
        request.oac_id@,
    )
    &&& is_bucket(
        origins.items@[1],
        "S3RecipesOrigin"@,
        request.recipes_bucket_name@,
        region,
        request.oac_id@,
    )
    &&& is_service(origins.items@[2], "ALBOrigin3001"@, request.alb_dns_name@, 3001)
    &&& is_service(origins.items@[3], "ALBOrigin3002"@, request.alb_dns_name@, 3002)
}

/// Whether the responses to `GET` and `HEAD`, and to nothing else, are cached.
pub open spec fn caches_reads(methods: CachedMethods) -> bool {
    &&& methods.quantity == 2
    &&& methods.items@.len() == 2
    &&& methods.items@[0] == Method::Get
    &&& methods.items@[1] == Method::Head
}

/// Whether `GET`, `HEAD` and `OPTIONS`, and nothing else, are let through.
pub open spec fn allows_reads(methods: AllowedMethods) -> bool {
    &&& methods.quantity == 3
    &&& methods.items@.len() == 3
    &&& methods.items@[0] == Method::Get
    &&& methods.items@[1] == Method::Head
    &&& methods.items@[2] == Method::Options
    &&& caches_reads(methods.cached_methods)
}

/// Whether every method is let through, each listed once.
pub open spec fn allows_everything(methods: AllowedMethods) -> bool {
    &&& methods.quantity == 7
    &&& methods.items@.len() == 7
    &&& methods.items@[0] == Method::Get
    &&& methods.items@[1] == Method::Head
    &&& methods.items@[2] == Method::Options
    &&& methods.items@[3] == Method::Put
    &&& methods.items@[4] == Method::Post
    &&& methods.items@[5] == Method::Patch
    &&& methods.items@[6] == Method::Delete
    &&& caches_reads(methods.cached_methods)
}

/// Whether a behavior sends a path pattern to an origin over HTTPS, with nothing compressed,
/// streamed, encrypted by field or run on the way.
pub open spec fn routes(behavior: CacheBehavior, path: Seq<char>, origin_id: Seq<char>) -> bool {
    &&& behavior.path_pattern@ == path
    &&& behavior.target_origin_id@ == origin_id
    &&& behavior.viewer_protocol_policy == ViewerProtocolPolicy::RedirectToHttps
    &&& !behavior.compress
    &&& !behavior.smooth_streaming
    &&& behavior.field_level_encryption_id@.len() == 0
    &&& behavior.lambda_function_associations.quantity == 0
}

/// Whether a behavior serves a path pattern from the bucket of the recipes application: reads
/// alone, cached as much as possible.
pub open spec fn serves_files(behavior: CacheBehavior, path: Seq<char>) -> bool {
    &&& routes(behavior, path, "S3RecipesOrigin"@)
    &&& allows_reads(behavior.allowed_methods)
    &&& behavior.cache_policy_id@ == "658327ea-f89d-4fab-a63d-7e88639e58f6"@
    &&& behavior.origin_request_policy_id is None
}

/// Whether a behavior hands a path pattern to a service: every method, nothing cached, with
/// everything that the viewer sent.
pub open spec fn serves_calls(
    behavior: CacheBehavior,
    path: Seq<char>,
    origin_id: Seq<char>,
) -> bool {
    &&& routes(behavior, path, origin_id)
    &&& allows_everything(behavior.allowed_methods)
    &&& behavior.cache_policy_id@ == "4135ea2d-6df8-44a3-9df3-4b5a84be39ad"@
    &&& behavior.origin_request_policy_id matches Some(policy) && policy@
        == "216adef6-5c7f-47e4-b989-5492eafa07d3"@
}

/// Whether each path pattern is served by its own origin: the recipes application from its
/// bucket, the recipes calls by the recipes service, the users calls by the users service.
pub open spec fn route_each_path(behaviors: CacheBehaviors) -> bool {
    &&& behaviors.quantity == 6
    &&& behaviors.items@.len() == 6
    &&& serves_files(behaviors.items@[0], "/apps/recipes"@)
    &&& serves_files(behaviors.items@[1], "/apps/recipes/*"@)
    &&& serves_calls(behaviors.items@[2], "/api/recipes"@, "ALBOrigin3001"@)
    &&& serves_calls(behaviors.items@[3], "/api/recipes/*"@, "ALBOrigin3001"@)
    &&& serves_calls(behaviors.items@[4], "/api/users"@, "ALBOrigin3002"@)
    &&& serves_calls(behaviors.items@[5], "/api/users/*"@, "ALBOrigin3002"@)
}

/// Whether a text is that of an optional setting, or `default` where there is none.
pub open spec fn is_set_or(sent: String, setting: Option<String>, default: Seq<char>) -> bool {
    &&& setting matches Some(text) ==> sent@ == text@
    &&& setting is None ==> sent@ == default
}

/// Whether a flag is that of an optional setting, or off where there is none.
pub open spec fn is_set_or_off(sent: bool, setting: Option<bool>) -> bool {
    &&& setting matches Some(flag) ==> sent == flag
    &&& setting is None ==> !sent
}

/// Whether everything that a promotion does not replace is sent as it was read, and every
/// setting that was not there with its default.
pub open spec fn keeps_the_rest(sent: UpdatedConfig, current: DistributionConfig) -> bool {
    &&& sent.caller_reference@ == current.caller_reference@
    &&& sent.comment@ == current.comment@
    &&& sent.enabled == current.enabled
    &&& current.default_cache_behavior matches Some(behavior)
        && sent.default_cache_behavior.settings == behavior.settings
    &&& current.aliases == Some(sent.aliases)
    &&& current.viewer_certificate == Some(sent.viewer_certificate)
    &&& current.restrictions == Some(sent.restrictions)
    &&& current.logging == Some(sent.logging)
    &&& current.origin_groups == Some(sent.origin_groups)
    &&& current.custom_error_responses == Some(sent.custom_error_responses)
    &&& is_set_or(sent.price_class, current.price_class, "PriceClass_All"@)
    &&& is_set_or(sent.web_acl_id, current.web_acl_id, ""@)
    &&& is_set_or(sent.http_version, current.http_version, "http2"@)
    &&& is_set_or(sent.default_root_object, current.default_root_object, ""@)
    &&& is_set_or(
        sent.continuous_deployment_policy_id,
        current.continuous_deployment_policy_id,
        ""@,
    )
    &&& is_set_or_off(sent.is_ipv6_enabled, current.is_ipv6_enabled)
    &&& is_set_or_off(sent.staging, current.staging)
}

/// Whether a configuration serves the environment of a request in place of the current one.
pub open spec fn is_promotion_of(
    sent: UpdatedConfig,
    current: DistributionConfig,
    request: DeployRequest,
    region: Seq<char>,
) -> bool {
    &&& are_origins_of(sent.origins, request, region)
    &&& route_each_path(sent.cache_behaviors)
    &&& sent.default_cache_behavior.target_origin_id@ == "S3HostOrigin"@
    &&& keeps_the_rest(sent, current)
}

/// Whether the parts are there without which a promotion is refused.
pub open spec fn has_reported_parts(current: DistributionConfig) -> bool {
    &&& current.default_cache_behavior is Some
    &&& current.aliases is Some
    &&& current.viewer_certificate is Some
    &&& current.has_cache_behaviors
}

/// Whether the parts are there that the service gives with every distribution.
pub open spec fn has_given_parts(current: DistributionConfig) -> bool {
    &&& current.restrictions is Some
    &&& current.logging is Some
    &&& current.origin_groups is Some
    &&& current.custom_error_responses is Some
}

/// Whether a part is the first one, in the order in which they are looked at, that is absent.
pub open spec fn is_first_absent(part: MissingPart, current: DistributionConfig) -> bool {
    match part {
        MissingPart::ETag | MissingPart::Config => false,
        MissingPart::DefaultCacheBehavior => current.default_cache_behavior is None,
        MissingPart::Aliases => current.default_cache_behavior is Some && current.aliases is None,
        MissingPart::ViewerCertificate => {
            &&& current.default_cache_behavior is Some
            &&& current.aliases is Some
            &&& current.viewer_certificate is None
        },
        MissingPart::CacheBehaviors => {
            &&& current.default_cache_behavior is Some
            &&& current.aliases is Some
            &&& current.viewer_certificate is Some
            &&& !current.has_cache_behaviors
        },
    }
}

/// The domain of a bucket is its name, `.s3.`, the region and `.amazonaws.com`.
pub proof fn law_bucket_domains(bucket: &str, region: &str, domain: String)
    requires
        call_ensures(bucket_domain_name, (bucket, region), domain),
    ensures
        domain@ == bucket@ + ".s3."@ + region@ + ".amazonaws.com"@,
{
}

/// A bucket is an origin under its own identifier, domain and access control.
pub proof fn law_bucket_origins(id: &str, bucket: &str, region: &str, oac_id: &str, origin: Origin)
    requires
        call_ensures(new_s3_origin, (id, bucket, region, oac_id), origin),
    ensures
        is_bucket(origin, id@, bucket@, region@, oac_id@),
{
    reveal_strlit("");
}

/// A service is an origin under its own identifier, domain and port.
pub proof fn law_service_origins(id: &str, alb_dns_name: &str, port: i32, origin: Origin)
    requires
        call_ensures(new_alb_origin, (id, alb_dns_name, port), origin),
    ensures
        is_service(origin, id@, alb_dns_name@, port as int),
{
    lemma_service(origin, id@, alb_dns_name@, port as int);
}

proof fn lemma_service(origin: Origin, id: Seq<char>, alb_dns_name: Seq<char>, port: int)
    requires
        origin@ == crate::promotion::alb_origin(id, alb_dns_name, port),
    ensures
        is_service(origin, id, alb_dns_name, port),
{
    reveal_strlit("");
    let config = origin.custom_origin_config->0;
    assert(origin@.custom_origin_config == Some(config@));
    assert(config.origin_ssl_protocols.items@ == config@.origin_ssl_protocols.items);
}

proof fn lemma_origins(origins: Origins, request: DeployRequest, region: Seq<char>)
    requires
        origins@ == crate::promotion::environment_origins(request@, region),
    ensures
        are_origins_of(origins, request, region),
{
    reveal_strlit("");
    let expected = crate::promotion::environment_origins(request@, region).items;
    assert(origins@.items.len() == 4);
    assert(origins.items@[0]@ == expected[0]) by {
        assert(origins@.items[0] == expected[0]);
    }
    assert(origins.items@[1]@ == expected[1]) by {
        assert(origins@.items[1] == expected[1]);
    }
    assert(origins.items@[2]@ == expected[2]) by {
        assert(origins@.items[2] == expected[2]);
    }
    assert(origins.items@[3]@ == expected[3]) by {
        assert(origins@.items[3] == expected[3]);
    }
    lemma_service(origins.items@[2], "ALBOrigin3001"@, request.alb_dns_name@, 3001);
    lemma_service(origins.items@[3], "ALBOrigin3002"@, request.alb_dns_name@, 3002);
}

/// Each bucket of the request is the origin that bears its name, in the region and under the
/// access control of the request, and the load balancer of the request is the two services.
pub proof fn law_origins_are_those_of_the_request(
    request: &DeployRequest,
    region: &str,
    origins: Origins,
)
    requires
        call_ensures(new_origins, (request, region), origins),
    ensures
        are_origins_of(origins, *request, region@),
{
    lemma_origins(origins, *request, region@);
}

/// The responses to `GET` and `HEAD`, and to nothing else, are cached.
pub proof fn law_reads_are_cached(methods: CachedMethods)
    requires
        call_ensures(new_cached_methods, (), methods),
    ensures
        caches_reads(methods),
{
}

/// Only `GET`, `HEAD` and `OPTIONS` reach a bucket.
pub proof fn law_buckets_are_read_only(methods: AllowedMethods)
    requires
        call_ensures(new_s3_allowed_methods, (), methods),
    ensures
        allows_reads(methods),
        forall|method: Method|
            methods.items@.contains(method) <==> method == Method::Get || method == Method::Head
                || method == Method::Options,
{
    lemma_allows_reads(methods);
    assert(methods.items@[0] == Method::Get);
    assert(methods.items@[1] == Method::Head);
    assert(methods.items@[2] == Method::Options);
}

proof fn lemma_allows_reads(methods: AllowedMethods)
    requires
        methods@ == crate::promotion::s3_allowed_methods(),
    ensures
        allows_reads(methods),
{
    assert(methods.items@ == methods@.items);
    assert(methods.cached_methods.items@ == methods@.cached_methods.items);
}

/// Every method reaches a service.
pub proof fn law_services_take_every_method(methods: AllowedMethods)
    requires
        call_ensures(new_api_allowed_methods, (), methods),
    ensures
        allows_everything(methods),
        forall|method: Method| methods.items@.contains(method),
{
    lemma_allows_everything(methods);
    assert forall|method: Method| methods.items@.contains(method) by {
        assert(methods.items@[0] == Method::Get);
        assert(methods.items@[1] == Method::Head);
        assert(methods.items@[2] == Method::Options);
        assert(methods.items@[3] == Method::Put);
        assert(methods.items@[4] == Method::Post);
        assert(methods.items@[5] == Method::Patch);
        assert(methods.items@[6] == Method::Delete);
    }
}

proof fn lemma_allows_everything(methods: AllowedMethods)
    requires
        methods@ == crate::promotion::api_allowed_methods(),
    ensures
        allows_everything(methods),
{
    assert(methods.items@ == methods@.items);
    assert(methods.cached_methods.items@ == methods@.cached_methods.items);
}

proof fn lemma_serves_files(behavior: CacheBehavior, path: Seq<char>)
    requires
        behavior@ == crate::promotion::recipes_behavior(path),
    ensures
        serves_files(behavior, path),
{
    reveal_strlit("");
    lemma_allows_reads(behavior.allowed_methods);
}

proof fn lemma_serves_calls(behavior: CacheBehavior, path: Seq<char>, origin_id: Seq<char>)
    requires
        behavior@ == crate::promotion::api_behavior(path, origin_id),
    ensures
        serves_calls(behavior, path, origin_id),
{
    reveal_strlit("");
    lemma_allows_everything(behavior.allowed_methods);
}

/// A path of the recipes application is served from its bucket, whatever the path.
pub proof fn law_file_behaviors(path_pattern: &str, behavior: CacheBehavior)
    requires
        call_ensures(new_recipes_behavior, (path_pattern,), behavior),
    ensures
        serves_files(behavior, path_pattern@),
{
    lemma_serves_files(behavior, path_pattern@);
}

/// A path of a service is handed to that service, whatever the path and the service.
pub proof fn law_call_behaviors(
    path_pattern: &str,
    target_origin_id: &str,
    behavior: CacheBehavior,
)
    requires
        call_ensures(new_api_behavior, (path_pattern, target_origin_id), behavior),
    ensures
        serves_calls(behavior, path_pattern@, target_origin_id@),
{
    lemma_serves_calls(behavior, path_pattern@, target_origin_id@);
}

proof fn lemma_routes(behaviors: CacheBehaviors)
    requires
        behaviors@ == crate::promotion::environment_behaviors(),
    ensures
        route_each_path(behaviors),
{
    let expected = crate::promotion::environment_behaviors().items;
    assert(behaviors@.items.len() == 6);
    assert forall|i: int| 0 <= i < 6 implies (#[trigger] behaviors.items@[i])@ == expected[i] by {
        assert(behaviors@.items[i] == expected[i]);
    }
    lemma_serves_files(behaviors.items@[0], "/apps/recipes"@);
    lemma_serves_files(behaviors.items@[1], "/apps/recipes/*"@);
    lemma_serves_calls(behaviors.items@[2], "/api/recipes"@, "ALBOrigin3001"@);
    lemma_serves_calls(behaviors.items@[3], "/api/recipes/*"@, "ALBOrigin3001"@);
    lemma_serves_calls(behaviors.items@[4], "/api/users"@, "ALBOrigin3002"@);
    lemma_serves_calls(behaviors.items@[5], "/api/users/*"@, "ALBOrigin3002"@);
}

/// Each path pattern is served by its own origin, with its own methods and policies.
pub proof fn law_each_path_has_its_own_origin(behaviors: CacheBehaviors)
    requires
        call_ensures(new_cache_behaviors, (), behaviors),
    ensures
        route_each_path(behaviors),
{
    lemma_routes(behaviors);
}

/// What is sent for a configuration that was promoted, as its fields show it.
pub(crate) proof fn lemma_promotion(
    sent: UpdatedConfig,
    current: DistributionConfig,
    request: DeployRequest,
    region: Seq<char>,
)
    requires
        has_reported_parts(current),
        has_given_parts(current),
        sent@ == crate::promotion::promoted(current@, request@, region),
    ensures
        is_promotion_of(sent, current, request, region),
{
    lemma_origins(sent.origins, request, region);
    lemma_routes(sent.cache_behaviors);
}

/// Whatever the distribution, the request and the region: what is sent has the origins of the
/// request, routes each path to its own origin and everything else to the host application,
/// and keeps the rest.
pub proof fn law_what_is_sent_serves_the_environment(
    current: DistributionConfig,
    request: &DeployRequest,
    region: &str,
    sent: UpdatedConfig,
)
    requires
        has_reported_parts(current),
        has_given_parts(current),
        call_ensures(
            promoted_config,
            (current, request, region),
            Ok::<UpdatedConfig, MissingPart>(sent),
        ),
    ensures
        is_promotion_of(sent, current, *request, region@),
{
    lemma_promotion(sent, current, *request, region@);
}

/// A path pattern that is sent says which origin serves it, whatever the distribution and the
/// environment.
pub proof fn law_a_path_tells_its_origin(
    current: DistributionConfig,
    request: &DeployRequest,
    region: &str,
    sent: UpdatedConfig,
    index: int,
)
    requires
        has_reported_parts(current),
        has_given_parts(current),
        call_ensures(
            promoted_config,
            (current, request, region),
            Ok::<UpdatedConfig, MissingPart>(sent),
        ),
        0 <= index < sent.cache_behaviors.items@.len(),
    ensures
        ({
            let path = sent.cache_behaviors.items@[index].path_pattern@;
            let origin_id = sent.cache_behaviors.items@[index].target_origin_id@;
            ||| (path == "/apps/recipes"@ || path == "/apps/recipes/*"@) && origin_id
                == "S3RecipesOrigin"@
            ||| (path == "/api/recipes"@ || path == "/api/recipes/*"@) && origin_id
                == "ALBOrigin3001"@
            ||| (path == "/api/users"@ || path == "/api/users/*"@) && origin_id
                == "ALBOrigin3002"@
        }),
{
    law_what_is_sent_serves_the_environment(current, request, region, sent);
}

/// A promotion is refused if and only if the default cache behavior, the aliases, the
/// certificate or the cache behaviors are absent, and the refusal names the first of them
/// that is; nothing else in the configuration, the request or the region matters.
pub proof fn law_a_promotion_is_refused_only_for_an_absent_part(
    current: DistributionConfig,
    request: &DeployRequest,
    region: &str,
    outcome: Result<UpdatedConfig, MissingPart>,
)
    requires
        call_ensures(promoted_config, (current, request, region), outcome),
    ensures
        outcome is Ok <==> has_reported_parts(current),
        outcome matches Err(part) ==> is_first_absent(part, current),
{
}

/// A promotion can be computed for every request and region, of every configuration that has
/// the parts that the service gives, and of every one that is refused before they are
/// looked at.
pub proof fn law_promotions_can_be_computed(
    current: DistributionConfig,
    request: &DeployRequest,
    region: &str,
)
    requires
        current.default_cache_behavior is None || current.aliases is None
            || current.viewer_certificate is None || has_given_parts(current) || (
        !current.has_cache_behaviors && current.restrictions is Some && current.logging is Some
            && current.origin_groups is Some),
    ensures
        call_requires(promoted_config, (current, request, region)),
{
}

/// The check of the parts that the service gives passes on what can be promoted or refused,
/// and on nothing else.
pub proof fn law_the_check_of_given_parts(current: &DistributionConfig, present: bool)
    requires
        call_ensures(check_service_parts, (current,), present),
    ensures
        has_reported_parts(*current) ==> (present <==> has_given_parts(*current)),
        current.default_cache_behavior is None || current.aliases is None
            || current.viewer_certificate is None ==> present,
        current.default_cache_behavior is Some && current.aliases is Some
            && current.viewer_certificate is Some && !current.has_cache_behaviors ==> (present
            <==> current.restrictions is Some && current.logging is Some
            && current.origin_groups is Some),
{
}

/// A text that is there is taken as it is, and one that is not as its default.
pub proof fn law_texts_have_defaults(text: Option<String>, default: &str, unwrapped: String)
    requires
        call_ensures(unwrap_text_or, (text, default), unwrapped),
    ensures
        is_set_or(unwrapped, text, default@),
{
}

/// A flag that is there is taken as it is, and one that is not is off.
pub proof fn law_flags_are_off_by_default(flag: Option<bool>, unwrapped: bool)
    requires
        call_ensures(unwrap_flag, (flag,), unwrapped),
    ensures
        is_set_or_off(unwrapped, flag),
{
}

/// Two texts are the same if and only if their characters are.
pub proof fn law_same_texts(left: &str, right: &str, same: bool)
    requires
        call_ensures(same_text, (left, right), same),
    ensures
        same <==> left@ == right@,
{
}

} // verus!
