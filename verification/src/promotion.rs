//! The configuration under which a distribution serves an environment.
use vstd::prelude::*;

use crate::distribution::{
    AllowedMethods, AllowedMethodsView, CacheBehavior, CacheBehaviorView, CacheBehaviors,
    CacheBehaviorsView, CachedMethods, CachedMethodsView, CustomHeaders, CustomOriginConfig,
    CustomOriginConfigView, DefaultBehavior, DefaultBehaviorView, DistributionConfig,
    DistributionConfigView, LambdaFunctionAssociations, Method, Origin, OriginProtocolPolicy,
    OriginSslProtocols, OriginSslProtocolsView, OriginView, Origins, OriginsView, S3OriginConfig,
    SslProtocol, UpdatedConfig, UpdatedConfigView, ViewerProtocolPolicy,
};
use crate::error::MissingPart;
use crate::request::{DeployRequest, DeployRequestView};
use crate::text::{text_or, unwrap_flag, unwrap_text_or};

verus! {

/// The bucket of the host application.
pub const S3_HOST_ORIGIN: &'static str = "S3HostOrigin";

/// The bucket of the recipes application.
pub const S3_RECIPES_ORIGIN: &'static str = "S3RecipesOrigin";

/// The recipes service behind the load balancer.
pub const ALB_RECIPES_ORIGIN: &'static str = "ALBOrigin3001";

/// The users service behind the load balancer.
pub const ALB_USERS_ORIGIN: &'static str = "ALBOrigin3002";

/// The managed cache policy that caches as much as possible.
pub const CACHING_OPTIMIZED: &'static str = "658327ea-f89d-4fab-a63d-7e88639e58f6";

/// The managed cache policy that caches nothing.
pub const CACHING_DISABLED: &'static str = "4135ea2d-6df8-44a3-9df3-4b5a84be39ad";

/// The managed request policy that hands on everything that the viewer sent.
pub const ALL_VIEWER: &'static str = "216adef6-5c7f-47e4-b989-5492eafa07d3";

/// The price class of a distribution that names none.
pub const PRICE_CLASS_ALL: &'static str = "PriceClass_All";

/// The HTTP version of a distribution that names none.
pub const HTTP_2: &'static str = "http2";

/// The domain name of a bucket in a region.
pub open spec fn bucket_domain(bucket: Seq<char>, region: Seq<char>) -> Seq<char> {
    bucket + ".s3."@ + region + ".amazonaws.com"@
}

/// The origin of a bucket that is read under an origin access control.
pub open spec fn s3_origin(
    id: Seq<char>,
    bucket: Seq<char>,
    region: Seq<char>,
    oac_id: Seq<char>,
) -> OriginView {
    OriginView {
        id,
        domain_name: bucket_domain(bucket, region),
        origin_path: ""@,
        custom_headers: CustomHeaders { quantity: 0 },
        origin_access_control_id: Some(oac_id),
        s3_origin_access_identity: Some(""@),
        custom_origin_config: None,
    }
}

/// The origin of a service that listens on a port of the load balancer.
pub open spec fn alb_origin(id: Seq<char>, alb_dns_name: Seq<char>, port: int) -> OriginView {
    OriginView {
        id,
        domain_name: alb_dns_name,
        origin_path: ""@,
        custom_headers: CustomHeaders { quantity: 0 },
        origin_access_control_id: None,
        s3_origin_access_identity: None,
        custom_origin_config: Some(
            CustomOriginConfigView {
                http_port: port,
                https_port: 443,
                origin_protocol_policy: OriginProtocolPolicy::HttpOnly,
                origin_ssl_protocols: OriginSslProtocolsView {
                    quantity: 1,
                    items: seq![SslProtocol::TlsV12],
                },
                origin_read_timeout: 30,
                origin_keepalive_timeout: 5,
            },
        ),
    }
}

/// The four origins of an environment.
pub open spec fn environment_origins(request: DeployRequestView, region: Seq<char>) -> OriginsView {
    OriginsView {
        quantity: 4,
        items: seq![
            s3_origin(S3_HOST_ORIGIN@, request.host_bucket_name, region, request.oac_id),
            s3_origin(S3_RECIPES_ORIGIN@, request.recipes_bucket_name, region, request.oac_id),
            alb_origin(ALB_RECIPES_ORIGIN@, request.alb_dns_name, 3001),
            alb_origin(ALB_USERS_ORIGIN@, request.alb_dns_name, 3002),
        ],
    }
}

/// The methods whose responses are cached.
pub open spec fn cached_methods() -> CachedMethodsView {
    CachedMethodsView { quantity: 2, items: seq![Method::Get, Method::Head] }
}

/// The methods that reach a bucket.
pub open spec fn s3_allowed_methods() -> AllowedMethodsView {
    AllowedMethodsView {
        quantity: 3,
        items: seq![Method::Get, Method::Head, Method::Options],
        cached_methods: cached_methods(),
    }
}

/// The methods that reach a service.
pub open spec fn api_allowed_methods() -> AllowedMethodsView {
    AllowedMethodsView {
        quantity: 7,
        items: seq![
            Method::Get,
            Method::Head,
            Method::Options,
            Method::Put,
            Method::Post,
            Method::Patch,
            Method::Delete,
        ],
        cached_methods: cached_methods(),
    }
}

/// How paths are served from the bucket of the recipes application.
pub open spec fn recipes_behavior(path_pattern: Seq<char>) -> CacheBehaviorView {
    CacheBehaviorView {
        path_pattern,
        target_origin_id: S3_RECIPES_ORIGIN@,
        viewer_protocol_policy: ViewerProtocolPolicy::RedirectToHttps,
        allowed_methods: s3_allowed_methods(),
        compress: false,
        smooth_streaming: false,
        field_level_encryption_id: ""@,
        lambda_function_associations: LambdaFunctionAssociations { quantity: 0 },
        cache_policy_id: CACHING_OPTIMIZED@,
        origin_request_policy_id: None,
    }
}

/// How paths are served by a service.
pub open spec fn api_behavior(
    path_pattern: Seq<char>,
    target_origin_id: Seq<char>,
) -> CacheBehaviorView {
    CacheBehaviorView {
        path_pattern,
        target_origin_id,
        viewer_protocol_policy: ViewerProtocolPolicy::RedirectToHttps,
        allowed_methods: api_allowed_methods(),
        compress: false,
        smooth_streaming: false,
        field_level_encryption_id: ""@,
        lambda_function_associations: LambdaFunctionAssociations { quantity: 0 },
        cache_policy_id: CACHING_DISABLED@,
        origin_request_policy_id: Some(ALL_VIEWER@),
    }
}

/// The six cache behaviors of every environment.
pub open spec fn environment_behaviors() -> CacheBehaviorsView {
    CacheBehaviorsView {
        quantity: 6,
        items: seq![
            recipes_behavior("/apps/recipes"@),
            recipes_behavior("/apps/recipes/*"@),
            api_behavior("/api/recipes"@, ALB_RECIPES_ORIGIN@),
            api_behavior("/api/recipes/*"@, ALB_RECIPES_ORIGIN@),
            api_behavior("/api/users"@, ALB_USERS_ORIGIN@),
            api_behavior("/api/users/*"@, ALB_USERS_ORIGIN@),
        ],
    }
}

/// The first part that a configuration lacks, of those whose absence is reported.
pub open spec fn missing_part(current: DistributionConfigView) -> Option<MissingPart> {
    if current.default_cache_behavior is None {
        Some(MissingPart::DefaultCacheBehavior)
    } else if current.aliases is None {
        Some(MissingPart::Aliases)
    } else if current.viewer_certificate is None {
        Some(MissingPart::ViewerCertificate)
    } else if !current.has_cache_behaviors {
        Some(MissingPart::CacheBehaviors)
    } else {
        None
    }
}

/// Whether a configuration has the parts whose absence is not reported, as far as they are
/// looked at: the service gives them with every distribution. None is looked at where one of
/// the first three reported parts is missing, and the error pages are not where the cache
/// behaviors are.
pub open spec fn has_service_parts(current: DistributionConfigView) -> bool {
    ||| current.default_cache_behavior is None
    ||| current.aliases is None
    ||| current.viewer_certificate is None
    ||| {
        &&& current.restrictions is Some
        &&& current.logging is Some
        &&& current.origin_groups is Some
        &&& current.has_cache_behaviors ==> current.custom_error_responses is Some
    }
}

/// The configuration that serves an environment in place of the current one.
pub open spec fn promoted(
    current: DistributionConfigView,
    request: DeployRequestView,
    region: Seq<char>,
) -> UpdatedConfigView
    recommends
        missing_part(current) is None,
        has_service_parts(current),
{
    UpdatedConfigView {
        caller_reference: current.caller_reference,
        comment: current.comment,
        enabled: current.enabled,
        origins: environment_origins(request, region),
        default_cache_behavior: DefaultBehaviorView {
            target_origin_id: S3_HOST_ORIGIN@,
            settings: current.default_cache_behavior->0.settings,
        },
        cache_behaviors: environment_behaviors(),
        price_class: text_or(current.price_class, PRICE_CLASS_ALL@),
        aliases: current.aliases->0,
        viewer_certificate: current.viewer_certificate->0,
        restrictions: current.restrictions->0,
        web_acl_id: text_or(current.web_acl_id, ""@),
        http_version: text_or(current.http_version, HTTP_2@),
        is_ipv6_enabled: current.is_ipv6_enabled == Some(true),
        default_root_object: text_or(current.default_root_object, ""@),
        logging: current.logging->0,
        origin_groups: current.origin_groups->0,
        continuous_deployment_policy_id: text_or(current.continuous_deployment_policy_id, ""@),
        staging: current.staging == Some(true),
        custom_error_responses: current.custom_error_responses->0,
    }
}

/// The domain name of `bucket` in `region`.
pub fn bucket_domain_name(bucket: &str, region: &str) -> (domain: String)
    ensures
        domain@ == bucket_domain(bucket@, region@),
{
    bucket.to_owned().concat(".s3.").concat(region).concat(".amazonaws.com")
}

/// The origin of `bucket`, read under the origin access control `oac_id`.
pub fn new_s3_origin(id: &str, bucket: &str, region: &str, oac_id: &str) -> (origin: Origin)
    ensures
        origin@ == s3_origin(id@, bucket@, region@, oac_id@),
{
    Origin {
        id: id.to_owned(),
        domain_name: bucket_domain_name(bucket, region),
        origin_path: "".to_owned(),
        custom_headers: CustomHeaders { quantity: 0 },
        origin_access_control_id: Some(oac_id.to_owned()),
        s3_origin_config: Some(S3OriginConfig { origin_access_identity: "".to_owned() }),
        custom_origin_config: None,
    }
}

/// The origin of the service that listens on `port` of the load balancer.
pub fn new_alb_origin(id: &str, alb_dns_name: &str, port: i32) -> (origin: Origin)
    ensures
        origin@ == alb_origin(id@, alb_dns_name@, port as int),
{
    let protocols: Vec<SslProtocol> = vec![SslProtocol::TlsV12];
    assert(protocols@ =~= seq![SslProtocol::TlsV12]);
    Origin {
        id: id.to_owned(),
        domain_name: alb_dns_name.to_owned(),
        origin_path: "".to_owned(),
        custom_headers: CustomHeaders { quantity: 0 },
        origin_access_control_id: None,
        s3_origin_config: None,
        custom_origin_config: Some(
            CustomOriginConfig {
                http_port: port,
                https_port: 443,
                origin_protocol_policy: OriginProtocolPolicy::HttpOnly,
                origin_ssl_protocols: OriginSslProtocols { quantity: 1, items: protocols },
                origin_read_timeout: 30,
                origin_keepalive_timeout: 5,
            },
        ),
    }
}

/// The four origins of the environment that `request` names.
pub fn new_origins(request: &DeployRequest, region: &str) -> (origins: Origins)
    ensures
        origins@ == environment_origins(request@, region@),
{
    let host: Origin = new_s3_origin(
        S3_HOST_ORIGIN,
        request.host_bucket_name.as_str(),
        region,
        request.oac_id.as_str(),
    );
    let recipes: Origin = new_s3_origin(
        S3_RECIPES_ORIGIN,
        request.recipes_bucket_name.as_str(),
        region,
        request.oac_id.as_str(),
    );
    let alb: &str = request.alb_dns_name.as_str();
    let recipes_service: Origin = new_alb_origin(ALB_RECIPES_ORIGIN, alb, 3001);
    let users_service: Origin = new_alb_origin(ALB_USERS_ORIGIN, alb, 3002);
    let origins = Origins {
        quantity: 4,
        items: vec![host, recipes, recipes_service, users_service],
    };
    assert(origins@.items =~= environment_origins(request@, region@).items);
    origins
}

/// The methods whose responses are cached.
pub fn new_cached_methods() -> (methods: CachedMethods)
    ensures
        methods@ == cached_methods(),
{
    let methods = CachedMethods { quantity: 2, items: vec![Method::Get, Method::Head] };
    assert(methods@.items =~= cached_methods().items);
    methods
}

/// The methods that reach a bucket.
pub fn new_s3_allowed_methods() -> (methods: AllowedMethods)
    ensures
        methods@ == s3_allowed_methods(),
{
    let methods = AllowedMethods {
        quantity: 3,
        items: vec![Method::Get, Method::Head, Method::Options],
        cached_methods: new_cached_methods(),
    };
    assert(methods@.items =~= s3_allowed_methods().items);
    methods
}

/// The methods that reach a service.
pub fn new_api_allowed_methods() -> (methods: AllowedMethods)
    ensures
        methods@ == api_allowed_methods(),
{
    let methods = AllowedMethods {
        quantity: 7,
        items: vec![
            Method::Get,
            Method::Head,
            Method::Options,
            Method::Put,
            Method::Post,
            Method::Patch,
            Method::Delete,
        ],
        cached_methods: new_cached_methods(),
    };
    assert(methods@.items =~= api_allowed_methods().items);
    methods
}

/// How the paths of `path_pattern` are served from the bucket of the recipes application.
pub fn new_recipes_behavior(path_pattern: &str) -> (behavior: CacheBehavior)
    ensures
        behavior@ == recipes_behavior(path_pattern@),
{
    CacheBehavior {
        path_pattern: path_pattern.to_owned(),
        target_origin_id: S3_RECIPES_ORIGIN.to_owned(),
        viewer_protocol_policy: ViewerProtocolPolicy::RedirectToHttps,
        allowed_methods: new_s3_allowed_methods(),
        compress: false,
        smooth_streaming: false,
        field_level_encryption_id: "".to_owned(),
        lambda_function_associations: LambdaFunctionAssociations { quantity: 0 },
        cache_policy_id: CACHING_OPTIMIZED.to_owned(),
        origin_request_policy_id: None,
    }
}

/// How the paths of `path_pattern` are served by the service `target_origin_id`.
pub fn new_api_behavior(path_pattern: &str, target_origin_id: &str) -> (behavior: CacheBehavior)
    ensures
        behavior@ == api_behavior(path_pattern@, target_origin_id@),
{
    CacheBehavior {
        path_pattern: path_pattern.to_owned(),
        target_origin_id: target_origin_id.to_owned(),
        viewer_protocol_policy: ViewerProtocolPolicy::RedirectToHttps,
        allowed_methods: new_api_allowed_methods(),
        compress: false,
        smooth_streaming: false,
        field_level_encryption_id: "".to_owned(),
        lambda_function_associations: LambdaFunctionAssociations { quantity: 0 },
        cache_policy_id: CACHING_DISABLED.to_owned(),
        origin_request_policy_id: Some(ALL_VIEWER.to_owned()),
    }
}

/// The six cache behaviors of every environment.
pub fn new_cache_behaviors() -> (behaviors: CacheBehaviors)
    ensures
        behaviors@ == environment_behaviors(),
{
    let behaviors = CacheBehaviors {
        quantity: 6,
        items: vec![
            new_recipes_behavior("/apps/recipes"),
            new_recipes_behavior("/apps/recipes/*"),
            new_api_behavior("/api/recipes", ALB_RECIPES_ORIGIN),
            new_api_behavior("/api/recipes/*", ALB_RECIPES_ORIGIN),
            new_api_behavior("/api/users", ALB_USERS_ORIGIN),
            new_api_behavior("/api/users/*", ALB_USERS_ORIGIN),
        ],
    };
    assert(behaviors@.items =~= environment_behaviors().items);
    behaviors
}

/// Whether `current` has the parts whose absence is not reported.
pub fn check_service_parts(current: &DistributionConfig) -> (present: bool)
    ensures
        present == has_service_parts(current@),
{
    current.default_cache_behavior.is_none() || current.aliases.is_none()
        || current.viewer_certificate.is_none() || (current.restrictions.is_some()
        && current.logging.is_some() && current.origin_groups.is_some() && (
    !current.has_cache_behaviors || current.custom_error_responses.is_some()))
}

/// The configuration under which the distribution serves the environment that `request`
/// names, or the first reported part that `current` lacks.
pub fn promoted_config(
    current: DistributionConfig,
    request: &DeployRequest,
    region: &str,
) -> (config: Result<UpdatedConfig, MissingPart>)
    requires
        has_service_parts(current@),
    ensures
        match config {
            Ok(updated) => {
                &&& missing_part(current@) is None
                &&& updated@ == promoted(current@, request@, region@)
            },
            Err(part) => missing_part(current@) == Some(part),
        },
{
    let origins: Origins = new_origins(request, region);
    let settings = match current.default_cache_behavior {
        Some(behavior) => behavior.settings,
        None => return Err(MissingPart::DefaultCacheBehavior),
    };
    let default_cache_behavior = DefaultBehavior {
        target_origin_id: S3_HOST_ORIGIN.to_owned(),
        settings,
    };
    let cache_behaviors: CacheBehaviors = new_cache_behaviors();
    let aliases = match current.aliases {
        Some(aliases) => aliases,
        None => return Err(MissingPart::Aliases),
    };
    let viewer_certificate = match current.viewer_certificate {
        Some(certificate) => certificate,
        None => return Err(MissingPart::ViewerCertificate),
    };
    let restrictions = current.restrictions.unwrap();
    let logging = current.logging.unwrap();
    let origin_groups = current.origin_groups.unwrap();
    if !current.has_cache_behaviors {
        return Err(MissingPart::CacheBehaviors);
    }
    let custom_error_responses = current.custom_error_responses.unwrap();
    Ok(
        UpdatedConfig {
            caller_reference: current.caller_reference,
            comment: current.comment,
            enabled: current.enabled,
            origins,
            default_cache_behavior,
            cache_behaviors,
            price_class: unwrap_text_or(current.price_class, PRICE_CLASS_ALL),
            aliases,
            viewer_certificate,
            restrictions,
            web_acl_id: unwrap_text_or(current.web_acl_id, ""),
            http_version: unwrap_text_or(current.http_version, HTTP_2),
            is_ipv6_enabled: unwrap_flag(current.is_ipv6_enabled),
            default_root_object: unwrap_text_or(current.default_root_object, ""),
            logging,
            origin_groups,
            continuous_deployment_policy_id: unwrap_text_or(
                current.continuous_deployment_policy_id,
                "",
            ),
            staging: unwrap_flag(current.staging),
            custom_error_responses,
        },
    )
}

} // verus!
