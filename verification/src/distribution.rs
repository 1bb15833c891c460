//! The configuration of a distribution: what is read of the current one, and the one that
//! replaces it.
//!
//! Parts that a promotion hands on without looking inside are held as the values of the
//! service's own SDK.
use aws_sdk_cloudfront::types;
use vstd::prelude::*;

use crate::text::optional_text;

verus! {

/// The alternate domain names of a distribution, carried unread.
#[verifier::external_type_specification]
#[verifier::external_body]
pub struct ExAliases(types::Aliases);

/// The certificate of a distribution, carried unread.
#[verifier::external_type_specification]
#[verifier::external_body]
pub struct ExViewerCertificate(types::ViewerCertificate);

/// The geographic restrictions of a distribution, carried unread.
#[verifier::external_type_specification]
#[verifier::external_body]
pub struct ExRestrictions(types::Restrictions);

/// Where a distribution logs, carried unread.
#[verifier::external_type_specification]
#[verifier::external_body]
pub struct ExLoggingConfig(types::LoggingConfig);

/// The origin groups of a distribution, carried unread.
#[verifier::external_type_specification]
#[verifier::external_body]
pub struct ExOriginGroups(types::OriginGroups);

/// The custom error pages of a distribution, carried unread.
#[verifier::external_type_specification]
#[verifier::external_body]
pub struct ExCustomErrorResponses(types::CustomErrorResponses);

/// The default cache behavior of a distribution, carried unread.
#[verifier::external_type_specification]
#[verifier::external_body]
pub struct ExDefaultCacheBehavior(types::DefaultCacheBehavior);

/// An HTTP method that a cache behavior lets through.
#[derive(Debug, Clone, Copy, PartialEq, Eq, Structural)]
pub enum Method {
    Delete,
    Get,
    Head,
    Options,
    Patch,
    Post,
    Put,
}

/// A protocol of TLS or SSL between a distribution and an origin.
#[derive(Debug, Clone, Copy, PartialEq, Eq, Structural)]
pub enum SslProtocol {
    SslV3,
    TlsV1,
    TlsV11,
    TlsV12,
}

/// How a distribution reaches an origin.
#[derive(Debug, Clone, Copy, PartialEq, Eq, Structural)]
pub enum OriginProtocolPolicy {
    HttpOnly,
    HttpsOnly,
    MatchViewer,
}

/// How a viewer may reach a distribution.
#[derive(Debug, Clone, Copy, PartialEq, Eq, Structural)]
pub enum ViewerProtocolPolicy {
    AllowAll,
    HttpsOnly,
    RedirectToHttps,
}

/// The number of headers that a distribution adds to its requests to an origin. No header is
/// ever listed.
#[derive(Debug, Clone, Copy, PartialEq, Eq, Structural)]
pub struct CustomHeaders {
    pub quantity: i32,
}

/// The number of functions that a cache behavior runs. No function is ever listed.
#[derive(Debug, Clone, Copy, PartialEq, Eq, Structural)]
pub struct LambdaFunctionAssociations {
    pub quantity: i32,
}

/// How a bucket is read.
#[derive(Debug)]
pub struct S3OriginConfig {
    pub origin_access_identity: String,
}

/// The protocols that are allowed towards an origin, with their number.
#[derive(Debug)]
pub struct OriginSslProtocols {
    pub quantity: i32,
    pub items: Vec<SslProtocol>,
}

/// The protocols of an [`OriginSslProtocols`].
pub struct OriginSslProtocolsView {
    pub quantity: int,
    pub items: Seq<SslProtocol>,
}

impl View for OriginSslProtocols {
    type V = OriginSslProtocolsView;

    open spec fn view(&self) -> OriginSslProtocolsView {
        OriginSslProtocolsView { quantity: self.quantity as int, items: self.items@ }
    }
}

/// How an origin that is no bucket is reached.
#[derive(Debug)]
pub struct CustomOriginConfig {
    pub http_port: i32,
    pub https_port: i32,
    pub origin_protocol_policy: OriginProtocolPolicy,
    pub origin_ssl_protocols: OriginSslProtocols,
    /// In seconds.
    pub origin_read_timeout: i32,
    /// In seconds.
    pub origin_keepalive_timeout: i32,
}

/// The settings of a [`CustomOriginConfig`].
pub struct CustomOriginConfigView {
    pub http_port: int,
    pub https_port: int,
    pub origin_protocol_policy: OriginProtocolPolicy,
    pub origin_ssl_protocols: OriginSslProtocolsView,
    pub origin_read_timeout: int,
    pub origin_keepalive_timeout: int,
}

impl View for CustomOriginConfig {
    type V = CustomOriginConfigView;

    open spec fn view(&self) -> CustomOriginConfigView {
        CustomOriginConfigView {
            http_port: self.http_port as int,
            https_port: self.https_port as int,
            origin_protocol_policy: self.origin_protocol_policy,
            origin_ssl_protocols: self.origin_ssl_protocols@,
            origin_read_timeout: self.origin_read_timeout as int,
            origin_keepalive_timeout: self.origin_keepalive_timeout as int,
        }
    }
}

/// A place from which a distribution serves.
#[derive(Debug)]
pub struct Origin {
    pub id: String,
    pub domain_name: String,
    pub origin_path: String,
    pub custom_headers: CustomHeaders,
    pub origin_access_control_id: Option<String>,
    pub s3_origin_config: Option<S3OriginConfig>,
    pub custom_origin_config: Option<CustomOriginConfig>,
}

/// The settings of an [`Origin`]; of a bucket's configuration, its access identity.
pub struct OriginView {
    pub id: Seq<char>,
    pub domain_name: Seq<char>,
    pub origin_path: Seq<char>,
    pub custom_headers: CustomHeaders,
    pub origin_access_control_id: Option<Seq<char>>,
    pub s3_origin_access_identity: Option<Seq<char>>,
    pub custom_origin_config: Option<CustomOriginConfigView>,
}

impl View for Origin {
    type V = OriginView;

    open spec fn view(&self) -> OriginView {
        OriginView {
            id: self.id@,
            domain_name: self.domain_name@,
            origin_path: self.origin_path@,
            custom_headers: self.custom_headers,
            origin_access_control_id: optional_text(self.origin_access_control_id),
            s3_origin_access_identity: match self.s3_origin_config {
                Some(config) => Some(config.origin_access_identity@),
                None => None,
            },
            custom_origin_config: match self.custom_origin_config {
                Some(config) => Some(config@),
                None => None,
            },
        }
    }
}

/// The origins of a distribution, with their number.
#[derive(Debug)]
pub struct Origins {
    pub quantity: i32,
    pub items: Vec<Origin>,
}

/// The origins of an [`Origins`].
pub struct OriginsView {
    pub quantity: int,
    pub items: Seq<OriginView>,
}

impl View for Origins {
    type V = OriginsView;

    open spec fn view(&self) -> OriginsView {
        OriginsView {
            quantity: self.quantity as int,
            items: self.items@.map_values(|origin: Origin| origin@),
        }
    }
}

/// The methods whose responses are cached, with their number.
#[derive(Debug)]
pub struct CachedMethods {
    pub quantity: i32,
    pub items: Vec<Method>,
}

/// The methods of a [`CachedMethods`].
pub struct CachedMethodsView {
    pub quantity: int,
    pub items: Seq<Method>,
}

impl View for CachedMethods {
    type V = CachedMethodsView;

    open spec fn view(&self) -> CachedMethodsView {
        CachedMethodsView { quantity: self.quantity as int, items: self.items@ }
    }
}

/// The methods that are let through, with their number, and those of them that are cached.
#[derive(Debug)]
pub struct AllowedMethods {
    pub quantity: i32,
    pub items: Vec<Method>,
    pub cached_methods: CachedMethods,
}

/// The methods of an [`AllowedMethods`].
pub struct AllowedMethodsView {
    pub quantity: int,
    pub items: Seq<Method>,
    pub cached_methods: CachedMethodsView,
}

impl View for AllowedMethods {
    type V = AllowedMethodsView;

    open spec fn view(&self) -> AllowedMethodsView {
        AllowedMethodsView {
            quantity: self.quantity as int,
            items: self.items@,
            cached_methods: self.cached_methods@,
        }
    }
}

/// How the requests are served whose path matches a pattern.
#[derive(Debug)]
pub struct CacheBehavior {
    pub path_pattern: String,
    pub target_origin_id: String,
    pub viewer_protocol_policy: ViewerProtocolPolicy,
    pub allowed_methods: AllowedMethods,
    pub compress: bool,
    pub smooth_streaming: bool,
    pub field_level_encryption_id: String,
    pub lambda_function_associations: LambdaFunctionAssociations,
    pub cache_policy_id: String,
    pub origin_request_policy_id: Option<String>,
}

/// The settings of a [`CacheBehavior`].
pub struct CacheBehaviorView {
    pub path_pattern: Seq<char>,
    pub target_origin_id: Seq<char>,
    pub viewer_protocol_policy: ViewerProtocolPolicy,
    pub allowed_methods: AllowedMethodsView,
    pub compress: bool,
    pub smooth_streaming: bool,
    pub field_level_encryption_id: Seq<char>,
    pub lambda_function_associations: LambdaFunctionAssociations,
    pub cache_policy_id: Seq<char>,
    pub origin_request_policy_id: Option<Seq<char>>,
}

impl View for CacheBehavior {
    type V = CacheBehaviorView;

    open spec fn view(&self) -> CacheBehaviorView {
        CacheBehaviorView {
            path_pattern: self.path_pattern@,
            target_origin_id: self.target_origin_id@,
            viewer_protocol_policy: self.viewer_protocol_policy,
            allowed_methods: self.allowed_methods@,
            compress: self.compress,
            smooth_streaming: self.smooth_streaming,
            field_level_encryption_id: self.field_level_encryption_id@,
            lambda_function_associations: self.lambda_function_associations,
            cache_policy_id: self.cache_policy_id@,
            origin_request_policy_id: optional_text(self.origin_request_policy_id),
        }
    }
}

/// The cache behaviors of a distribution in the order in which they are tried, with their
/// number.
#[derive(Debug)]
pub struct CacheBehaviors {
    pub quantity: i32,
    pub items: Vec<CacheBehavior>,
}

/// The behaviors of a [`CacheBehaviors`].
pub struct CacheBehaviorsView {
    pub quantity: int,
    pub items: Seq<CacheBehaviorView>,
}

impl View for CacheBehaviors {
    type V = CacheBehaviorsView;

    open spec fn view(&self) -> CacheBehaviorsView {
        CacheBehaviorsView {
            quantity: self.quantity as int,
            items: self.items@.map_values(|behavior: CacheBehavior| behavior@),
        }
    }
}

/// How the requests are served that no cache behavior matches.
#[derive(Debug)]
pub struct DefaultBehavior {
    /// The origin that serves them.
    pub target_origin_id: String,
    /// Every other setting; the target that stands in it means nothing.
    pub settings: types::DefaultCacheBehavior,
}

/// The settings of a [`DefaultBehavior`].
pub struct DefaultBehaviorView {
    pub target_origin_id: Seq<char>,
    pub settings: types::DefaultCacheBehavior,
}

impl View for DefaultBehavior {
    type V = DefaultBehaviorView;

    open spec fn view(&self) -> DefaultBehaviorView {
        DefaultBehaviorView {
            target_origin_id: self.target_origin_id@,
            settings: self.settings,
        }
    }
}

/// What a promotion reads of the current configuration of a distribution.
#[derive(Debug)]
pub struct DistributionConfig {
    pub caller_reference: String,
    pub comment: String,
    pub enabled: bool,
    pub default_cache_behavior: Option<DefaultBehavior>,
    /// Whether the configuration has a list of cache behaviors, be it an empty one.
    pub has_cache_behaviors: bool,
    /// By the name that the service gives it.
    pub price_class: Option<String>,
    pub aliases: Option<types::Aliases>,
    pub viewer_certificate: Option<types::ViewerCertificate>,
    pub restrictions: Option<types::Restrictions>,
    pub web_acl_id: Option<String>,
    /// By the name that the service gives it.
    pub http_version: Option<String>,
    pub is_ipv6_enabled: Option<bool>,
    pub default_root_object: Option<String>,
    pub logging: Option<types::LoggingConfig>,
    pub origin_groups: Option<types::OriginGroups>,
    pub continuous_deployment_policy_id: Option<String>,
    pub staging: Option<bool>,
    pub custom_error_responses: Option<types::CustomErrorResponses>,
}

/// The settings of a [`DistributionConfig`].
pub struct DistributionConfigView {
    pub caller_reference: Seq<char>,
    pub comment: Seq<char>,
    pub enabled: bool,
    pub default_cache_behavior: Option<DefaultBehaviorView>,
    pub has_cache_behaviors: bool,
    pub price_class: Option<Seq<char>>,
    pub aliases: Option<types::Aliases>,
    pub viewer_certificate: Option<types::ViewerCertificate>,
    pub restrictions: Option<types::Restrictions>,
    pub web_acl_id: Option<Seq<char>>,
    pub http_version: Option<Seq<char>>,
    pub is_ipv6_enabled: Option<bool>,
    pub default_root_object: Option<Seq<char>>,
    pub logging: Option<types::LoggingConfig>,
    pub origin_groups: Option<types::OriginGroups>,
    pub continuous_deployment_policy_id: Option<Seq<char>>,
    pub staging: Option<bool>,
    pub custom_error_responses: Option<types::CustomErrorResponses>,
}

impl View for DistributionConfig {
    type V = DistributionConfigView;

    open spec fn view(&self) -> DistributionConfigView {
        DistributionConfigView {
            caller_reference: self.caller_reference@,
            comment: self.comment@,
            enabled: self.enabled,
            default_cache_behavior: match self.default_cache_behavior {
                Some(behavior) => Some(behavior@),
                None => None,
            },
            has_cache_behaviors: self.has_cache_behaviors,
            price_class: optional_text(self.price_class),
            aliases: self.aliases,
            viewer_certificate: self.viewer_certificate,
            restrictions: self.restrictions,
            web_acl_id: optional_text(self.web_acl_id),
            http_version: optional_text(self.http_version),
            is_ipv6_enabled: self.is_ipv6_enabled,
            default_root_object: optional_text(self.default_root_object),
            logging: self.logging,
            origin_groups: self.origin_groups,
            continuous_deployment_policy_id: optional_text(self.continuous_deployment_policy_id),
            staging: self.staging,
            custom_error_responses: self.custom_error_responses,
        }
    }
}

/// The configuration that replaces the current one.
#[derive(Debug)]
pub struct UpdatedConfig {
    pub caller_reference: String,
    pub comment: String,
    pub enabled: bool,
    pub origins: Origins,
    pub default_cache_behavior: DefaultBehavior,
    pub cache_behaviors: CacheBehaviors,
    /// By the name that the service gives it.
    pub price_class: String,
    pub aliases: types::Aliases,
    pub viewer_certificate: types::ViewerCertificate,
    pub restrictions: types::Restrictions,
    pub web_acl_id: String,
    /// By the name that the service gives it.
    pub http_version: String,
    pub is_ipv6_enabled: bool,
    pub default_root_object: String,
    pub logging: types::LoggingConfig,
    pub origin_groups: types::OriginGroups,
    pub continuous_deployment_policy_id: String,
    pub staging: bool,
    pub custom_error_responses: types::CustomErrorResponses,
}

/// The settings of an [`UpdatedConfig`].
pub struct UpdatedConfigView {
    pub caller_reference: Seq<char>,
    pub comment: Seq<char>,
    pub enabled: bool,
    pub origins: OriginsView,
    pub default_cache_behavior: DefaultBehaviorView,
    pub cache_behaviors: CacheBehaviorsView,
    pub price_class: Seq<char>,
    pub aliases: types::Aliases,
    pub viewer_certificate: types::ViewerCertificate,
    pub restrictions: types::Restrictions,
    pub web_acl_id: Seq<char>,
    pub http_version: Seq<char>,
    pub is_ipv6_enabled: bool,
    pub default_root_object: Seq<char>,
    pub logging: types::LoggingConfig,
    pub origin_groups: types::OriginGroups,
    pub continuous_deployment_policy_id: Seq<char>,
    pub staging: bool,
    pub custom_error_responses: types::CustomErrorResponses,
}

impl View for UpdatedConfig {
    type V = UpdatedConfigView;

    open spec fn view(&self) -> UpdatedConfigView {
        UpdatedConfigView {
            caller_reference: self.caller_reference@,
            comment: self.comment@,
            enabled: self.enabled,
            origins: self.origins@,
            default_cache_behavior: self.default_cache_behavior@,
            cache_behaviors: self.cache_behaviors@,
            price_class: self.price_class@,
            aliases: self.aliases,
            viewer_certificate: self.viewer_certificate,
            restrictions: self.restrictions,
            web_acl_id: self.web_acl_id@,
            http_version: self.http_version@,
            is_ipv6_enabled: self.is_ipv6_enabled,
            default_root_object: self.default_root_object@,
            logging: self.logging,
            origin_groups: self.origin_groups,
            continuous_deployment_policy_id: self.continuous_deployment_policy_id@,
            staging: self.staging,
            custom_error_responses: self.custom_error_responses,
        }
    }
}

} // verus!
