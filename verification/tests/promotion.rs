use aws_sdk_cloudfront::types;
use cloudfront_promoter::distribution::{
    CacheBehavior, DefaultBehavior, DistributionConfig, Method, Origin, OriginProtocolPolicy,
    SslProtocol, UpdatedConfig, ViewerProtocolPolicy,
};
use cloudfront_promoter::error::MissingPart;
use cloudfront_promoter::promotion::{
    bucket_domain_name, check_service_parts, new_alb_origin, new_api_allowed_methods,
    new_api_behavior, new_cache_behaviors, new_cached_methods, new_origins, new_recipes_behavior,
    new_s3_allowed_methods, new_s3_origin, promoted_config,
};
use cloudfront_promoter::request::DeployRequest;

fn request(environment: &str) -> DeployRequest {
    DeployRequest {
        distribution_id: "E2EXAMPLE".to_string(),
        oac_id: format!("oac-{environment}"),
        host_bucket_name: format!("host-{environment}"),
        recipes_bucket_name: format!("recipes-{environment}"),
        alb_dns_name: format!("alb-{environment}.elb.amazonaws.com"),
    }
}

fn aliases() -> types::Aliases {
    types::Aliases::builder().quantity(1).items("www.example.com").build().unwrap()
}

fn certificate() -> types::ViewerCertificate {
    types::ViewerCertificate::builder().acm_certificate_arn("arn:aws:acm:cert").build()
}

fn restrictions() -> types::Restrictions {
    let geo = types::GeoRestriction::builder()
        .restriction_type(types::GeoRestrictionType::Whitelist)
        .quantity(1)
        .items("AR")
        .build()
        .unwrap();
    types::Restrictions::builder().geo_restriction(geo).build()
}

fn logging() -> types::LoggingConfig {
    types::LoggingConfig::builder().enabled(true).bucket("logs").prefix("cf/").build()
}

fn origin_groups() -> types::OriginGroups {
    types::OriginGroups::builder().quantity(0).build().unwrap()
}

fn error_pages() -> types::CustomErrorResponses {
    let page = types::CustomErrorResponse::builder()
        .error_code(404)
        .response_page_path("/404.html")
        .build()
        .unwrap();
    types::CustomErrorResponses::builder().quantity(1).items(page).build().unwrap()
}

fn default_settings() -> types::DefaultCacheBehavior {
    types::DefaultCacheBehavior::builder()
        .target_origin_id("")
        .viewer_protocol_policy(types::ViewerProtocolPolicy::HttpsOnly)
        .compress(true)
        .build()
        .unwrap()
}

fn current() -> DistributionConfig {
    DistributionConfig {
        caller_reference: "stack-base".to_string(),
        comment: "base".to_string(),
        enabled: true,
        default_cache_behavior: Some(DefaultBehavior {
            target_origin_id: "OldOrigin".to_string(),
            settings: default_settings(),
        }),
        has_cache_behaviors: true,
        price_class: Some("PriceClass_100".to_string()),
        aliases: Some(aliases()),
        viewer_certificate: Some(certificate()),
        restrictions: Some(restrictions()),
        web_acl_id: Some("acl".to_string()),
        http_version: Some("http3".to_string()),
        is_ipv6_enabled: Some(true),
        default_root_object: Some("index.html".to_string()),
        logging: Some(logging()),
        origin_groups: Some(origin_groups()),
        continuous_deployment_policy_id: Some("policy".to_string()),
        staging: Some(true),
        custom_error_responses: Some(error_pages()),
    }
}

fn read_back(sent: UpdatedConfig) -> DistributionConfig {
    DistributionConfig {
        caller_reference: sent.caller_reference,
        comment: sent.comment,
        enabled: sent.enabled,
        default_cache_behavior: Some(sent.default_cache_behavior),
        has_cache_behaviors: true,
        price_class: Some(sent.price_class),
        aliases: Some(sent.aliases),
        viewer_certificate: Some(sent.viewer_certificate),
        restrictions: Some(sent.restrictions),
        web_acl_id: Some(sent.web_acl_id),
        http_version: Some(sent.http_version),
        is_ipv6_enabled: Some(sent.is_ipv6_enabled),
        default_root_object: Some(sent.default_root_object),
        logging: Some(sent.logging),
        origin_groups: Some(sent.origin_groups),
        continuous_deployment_policy_id: Some(sent.continuous_deployment_policy_id),
        staging: Some(sent.staging),
        custom_error_responses: Some(sent.custom_error_responses),
    }
}

fn promote(config: DistributionConfig, environment: &str) -> UpdatedConfig {
    assert!(check_service_parts(&config));
    promoted_config(config, &request(environment), "us-east-1").unwrap()
}

fn assert_bucket(origin: &Origin, id: &str, domain_name: &str, oac_id: &str) {
    assert_eq!(origin.id, id);
    assert_eq!(origin.domain_name, domain_name);
    assert_eq!(origin.origin_path, "");
    assert_eq!(origin.custom_headers.quantity, 0);
    assert_eq!(origin.origin_access_control_id.as_deref(), Some(oac_id));
    assert_eq!(origin.s3_origin_config.as_ref().unwrap().origin_access_identity, "");
    assert!(origin.custom_origin_config.is_none());
}

fn assert_service(origin: &Origin, id: &str, domain_name: &str, port: i32) {
    assert_eq!(origin.id, id);
    assert_eq!(origin.domain_name, domain_name);
    assert_eq!(origin.origin_path, "");
    assert_eq!(origin.custom_headers.quantity, 0);
    assert_eq!(origin.origin_access_control_id, None);
    assert!(origin.s3_origin_config.is_none());
    let config = origin.custom_origin_config.as_ref().unwrap();
    assert_eq!(config.http_port, port);
    assert_eq!(config.https_port, 443);
    assert_eq!(config.origin_protocol_policy, OriginProtocolPolicy::HttpOnly);
    assert_eq!(config.origin_ssl_protocols.quantity, 1);
    assert_eq!(config.origin_ssl_protocols.items, vec![SslProtocol::TlsV12]);
    assert_eq!(config.origin_read_timeout, 30);
    assert_eq!(config.origin_keepalive_timeout, 5);
}

fn assert_common(behavior: &CacheBehavior) {
    assert_eq!(behavior.viewer_protocol_policy, ViewerProtocolPolicy::RedirectToHttps);
    assert!(!behavior.compress);
    assert!(!behavior.smooth_streaming);
    assert_eq!(behavior.field_level_encryption_id, "");
    assert_eq!(behavior.lambda_function_associations.quantity, 0);
    assert_eq!(behavior.allowed_methods.cached_methods.quantity, 2);
    assert_eq!(
        behavior.allowed_methods.cached_methods.items,
        vec![Method::Get, Method::Head]
    );
}

fn assert_static(behavior: &CacheBehavior, path_pattern: &str) {
    assert_common(behavior);
    assert_eq!(behavior.path_pattern, path_pattern);
    assert_eq!(behavior.target_origin_id, "S3RecipesOrigin");
    assert_eq!(behavior.allowed_methods.quantity, 3);
    assert_eq!(
        behavior.allowed_methods.items,
        vec![Method::Get, Method::Head, Method::Options]
    );
    assert_eq!(behavior.cache_policy_id, "658327ea-f89d-4fab-a63d-7e88639e58f6");
    assert_eq!(behavior.origin_request_policy_id, None);
}

fn assert_api(behavior: &CacheBehavior, path_pattern: &str, target_origin_id: &str) {
    assert_common(behavior);
    assert_eq!(behavior.path_pattern, path_pattern);
    assert_eq!(behavior.target_origin_id, target_origin_id);
    assert_eq!(behavior.allowed_methods.quantity, 7);
    assert_eq!(
        behavior.allowed_methods.items,
        vec![
            Method::Get,
            Method::Head,
            Method::Options,
            Method::Put,
            Method::Post,
            Method::Patch,
            Method::Delete,
        ]
    );
    assert_eq!(behavior.cache_policy_id, "4135ea2d-6df8-44a3-9df3-4b5a84be39ad");
    assert_eq!(
        behavior.origin_request_policy_id.as_deref(),
        Some("216adef6-5c7f-47e4-b989-5492eafa07d3")
    );
}

#[test]
fn bucket_domains_name_bucket_and_region() {
    assert_eq!(bucket_domain_name("fotos", "eu-west-1"), "fotos.s3.eu-west-1.amazonaws.com");
    assert_eq!(bucket_domain_name("", ""), ".s3..amazonaws.com");
}

#[test]
fn origins_of_an_environment() {
    let origins = new_origins(&request("blue"), "sa-east-1");
    assert_eq!(origins.quantity, 4);
    assert_eq!(origins.items.len(), 4);
    assert_bucket(
        &origins.items[0],
        "S3HostOrigin",
        "host-blue.s3.sa-east-1.amazonaws.com",
        "oac-blue",
    );
    assert_bucket(
        &origins.items[1],
        "S3RecipesOrigin",
        "recipes-blue.s3.sa-east-1.amazonaws.com",
        "oac-blue",
    );
    assert_service(&origins.items[2], "ALBOrigin3001", "alb-blue.elb.amazonaws.com", 3001);
    assert_service(&origins.items[3], "ALBOrigin3002", "alb-blue.elb.amazonaws.com", 3002);
}

#[test]
fn single_origins() {
    assert_bucket(&new_s3_origin("id", "b", "r", "oac"), "id", "b.s3.r.amazonaws.com", "oac");
    assert_service(&new_alb_origin("id", "alb", 8080), "id", "alb", 8080);
}

#[test]
fn behaviors_of_every_environment() {
    let behaviors = new_cache_behaviors();
    assert_eq!(behaviors.quantity, 6);
    assert_eq!(behaviors.items.len(), 6);
    assert_static(&behaviors.items[0], "/apps/recipes");
    assert_static(&behaviors.items[1], "/apps/recipes/*");
    assert_api(&behaviors.items[2], "/api/recipes", "ALBOrigin3001");
    assert_api(&behaviors.items[3], "/api/recipes/*", "ALBOrigin3001");
    assert_api(&behaviors.items[4], "/api/users", "ALBOrigin3002");
    assert_api(&behaviors.items[5], "/api/users/*", "ALBOrigin3002");
}

#[test]
fn single_behaviors() {
    assert_static(&new_recipes_behavior("/x"), "/x");
    assert_api(&new_api_behavior("/y", "service"), "/y", "service");
}

#[test]
fn methods_are_counted_and_cached_ones_allowed() {
    assert_eq!(new_cached_methods().items, vec![Method::Get, Method::Head]);
    for methods in [new_s3_allowed_methods(), new_api_allowed_methods()] {
        assert_eq!(methods.quantity as usize, methods.items.len());
        assert_eq!(methods.cached_methods.quantity as usize, methods.cached_methods.items.len());
        for cached in &methods.cached_methods.items {
            assert!(methods.items.contains(cached));
        }
    }
}

#[test]
fn a_promotion_replaces_origins_and_routing() {
    let sent = promote(current(), "green");
    assert_eq!(sent.origins.quantity, 4);
    assert_eq!(sent.origins.items[0].domain_name, "host-green.s3.us-east-1.amazonaws.com");
    assert_eq!(sent.cache_behaviors.quantity, 6);
    assert_eq!(sent.default_cache_behavior.target_origin_id, "S3HostOrigin");
}

#[test]
fn a_promotion_keeps_the_rest() {
    let sent = promote(current(), "green");
    assert_eq!(sent.caller_reference, "stack-base");
    assert_eq!(sent.comment, "base");
    assert!(sent.enabled);
    assert_eq!(sent.default_cache_behavior.settings, default_settings());
    assert_eq!(sent.price_class, "PriceClass_100");
    assert_eq!(sent.aliases, aliases());
    assert_eq!(sent.viewer_certificate, certificate());
    assert_eq!(sent.restrictions, restrictions());
    assert_eq!(sent.web_acl_id, "acl");
    assert_eq!(sent.http_version, "http3");
    assert!(sent.is_ipv6_enabled);
    assert_eq!(sent.default_root_object, "index.html");
    assert_eq!(sent.logging, logging());
    assert_eq!(sent.origin_groups, origin_groups());
    assert_eq!(sent.continuous_deployment_policy_id, "policy");
    assert!(sent.staging);
    assert_eq!(sent.custom_error_responses, error_pages());
}

#[test]
fn absent_settings_get_their_defaults() {
    let mut config = current();
    config.enabled = false;
    config.price_class = None;
    config.web_acl_id = None;
    config.http_version = None;
    config.is_ipv6_enabled = None;
    config.default_root_object = None;
    config.continuous_deployment_policy_id = None;
    config.staging = None;
    let sent = promote(config, "green");
    assert!(!sent.enabled);
    assert_eq!(sent.price_class, types::PriceClass::PriceClassAll.as_str());
    assert_eq!(sent.web_acl_id, "");
    assert_eq!(sent.http_version, types::HttpVersion::Http2.as_str());
    assert!(!sent.is_ipv6_enabled);
    assert_eq!(sent.default_root_object, "");
    assert_eq!(sent.continuous_deployment_policy_id, "");
    assert!(!sent.staging);
}

#[test]
fn flags_that_are_off_stay_off() {
    let mut config = current();
    config.is_ipv6_enabled = Some(false);
    config.staging = Some(false);
    let sent = promote(config, "green");
    assert!(!sent.is_ipv6_enabled);
    assert!(!sent.staging);
}

fn missing(config: DistributionConfig) -> MissingPart {
    assert!(check_service_parts(&config));
    promoted_config(config, &request("blue"), "us-east-1").unwrap_err()
}

#[test]
fn a_missing_default_behavior_is_reported_first() {
    let mut config = current();
    config.default_cache_behavior = None;
    config.aliases = None;
    config.restrictions = None;
    assert_eq!(missing(config), MissingPart::DefaultCacheBehavior);
}

#[test]
fn missing_aliases_are_reported() {
    let mut config = current();
    config.aliases = None;
    config.viewer_certificate = None;
    config.logging = None;
    assert_eq!(missing(config), MissingPart::Aliases);
}

#[test]
fn a_missing_certificate_is_reported() {
    let mut config = current();
    config.viewer_certificate = None;
    config.has_cache_behaviors = false;
    config.origin_groups = None;
    assert_eq!(missing(config), MissingPart::ViewerCertificate);
}

#[test]
fn missing_cache_behaviors_are_reported_before_error_pages_are_looked_at() {
    let mut config = current();
    config.has_cache_behaviors = false;
    config.custom_error_responses = None;
    assert_eq!(missing(config), MissingPart::CacheBehaviors);
}

#[test]
fn parts_that_the_service_gives_are_checked_where_they_are_looked_at() {
    assert!(check_service_parts(&current()));
    let mut config = current();
    config.restrictions = None;
    assert!(!check_service_parts(&config));
    let mut config = current();
    config.logging = None;
    assert!(!check_service_parts(&config));
    let mut config = current();
    config.origin_groups = None;
    config.has_cache_behaviors = false;
    assert!(!check_service_parts(&config));
    let mut config = current();
    config.custom_error_responses = None;
    assert!(!check_service_parts(&config));
}

#[test]
fn quantities_are_exact() {
    let sent = promote(current(), "green");
    assert_eq!(sent.origins.quantity as usize, sent.origins.items.len());
    assert_eq!(sent.cache_behaviors.quantity as usize, sent.cache_behaviors.items.len());
    for origin in &sent.origins.items {
        if let Some(config) = &origin.custom_origin_config {
            let protocols = &config.origin_ssl_protocols;
            assert_eq!(protocols.quantity as usize, protocols.items.len());
        }
    }
    for behavior in &sent.cache_behaviors.items {
        let methods = &behavior.allowed_methods;
        assert_eq!(methods.quantity as usize, methods.items.len());
    }
}

#[test]
fn ids_and_patterns_are_distinct_and_targets_exist() {
    let sent = promote(current(), "green");
    let ids: Vec<&String> = sent.origins.items.iter().map(|origin| &origin.id).collect();
    let patterns: Vec<&String> =
        sent.cache_behaviors.items.iter().map(|behavior| &behavior.path_pattern).collect();
    for names in [&ids, &patterns] {
        for (i, name) in names.iter().enumerate() {
            assert!(!names[..i].contains(name));
        }
    }
    assert!(ids.contains(&&sent.default_cache_behavior.target_origin_id));
    for behavior in &sent.cache_behaviors.items {
        assert!(ids.contains(&&behavior.target_origin_id));
    }
}

#[test]
fn a_second_promotion_changes_nothing() {
    let once = format!("{:?}", promote(current(), "green"));
    let twice = promote(read_back(promote(current(), "green")), "green");
    assert_eq!(format!("{twice:?}"), once);
}

#[test]
fn the_last_promotion_counts() {
    let direct = format!("{:?}", promote(current(), "blue"));
    let after_green = promote(read_back(promote(current(), "green")), "blue");
    assert_eq!(format!("{after_green:?}"), direct);
}

#[test]
fn environments_differ_in_origins_alone() {
    let mut green = promote(current(), "green");
    let blue = promote(current(), "blue");
    assert_ne!(format!("{:?}", green.origins), format!("{:?}", blue.origins));
    green.origins = new_origins(&request("blue"), "us-east-1");
    assert_eq!(format!("{green:?}"), format!("{blue:?}"));
}

#[test]
fn routing_hangs_on_nothing_that_was_there() {
    let mut other = current();
    other.comment = "other".to_string();
    other.default_cache_behavior = Some(DefaultBehavior {
        target_origin_id: "Elsewhere".to_string(),
        settings: default_settings(),
    });
    let one = promote(current(), "green");
    let two = promote(other, "green");
    assert_eq!(format!("{:?}", one.origins), format!("{:?}", two.origins));
    assert_eq!(format!("{:?}", one.cache_behaviors), format!("{:?}", two.cache_behaviors));
    assert_eq!(
        one.default_cache_behavior.target_origin_id,
        two.default_cache_behavior.target_origin_id
    );
}
