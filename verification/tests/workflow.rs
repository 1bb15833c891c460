use aws_sdk_cloudfront::types;
use cloudfront_promoter::distribution::{DefaultBehavior, DistributionConfig};
use cloudfront_promoter::error::{MissingPart, PromoteError};
use cloudfront_promoter::request::DeployRequest;
use cloudfront_promoter::response::Response;
use cloudfront_promoter::text::{same_text, unwrap_flag, unwrap_text_or};
use cloudfront_promoter::workflow::{
    accept_config, accept_request, finish, promote_environment, route, step, Action, Event,
    FetchedConfig, State,
};

fn request() -> DeployRequest {
    DeployRequest {
        distribution_id: "E2EXAMPLE".to_string(),
        oac_id: "oac".to_string(),
        host_bucket_name: "host".to_string(),
        recipes_bucket_name: "recipes".to_string(),
        alb_dns_name: "alb.example.com".to_string(),
    }
}

fn config() -> DistributionConfig {
    let settings = types::DefaultCacheBehavior::builder()
        .target_origin_id("")
        .viewer_protocol_policy(types::ViewerProtocolPolicy::AllowAll)
        .build()
        .unwrap();
    DistributionConfig {
        caller_reference: "ref".to_string(),
        comment: "".to_string(),
        enabled: true,
        default_cache_behavior: Some(DefaultBehavior {
            target_origin_id: "Old".to_string(),
            settings,
        }),
        has_cache_behaviors: true,
        price_class: None,
        aliases: Some(types::Aliases::builder().quantity(0).build().unwrap()),
        viewer_certificate: Some(types::ViewerCertificate::builder().build()),
        restrictions: Some(types::Restrictions::builder().build()),
        web_acl_id: None,
        http_version: None,
        is_ipv6_enabled: None,
        default_root_object: None,
        logging: Some(types::LoggingConfig::builder().build()),
        origin_groups: Some(types::OriginGroups::builder().quantity(0).build().unwrap()),
        continuous_deployment_policy_id: None,
        staging: None,
        custom_error_responses: Some(
            types::CustomErrorResponses::builder().quantity(0).build().unwrap(),
        ),
    }
}

fn answered(outcome: (State, Action)) -> Response {
    assert!(matches!(outcome.0, State::Answered));
    match outcome.1 {
        Action::Respond(response) => response,
        other => panic!("not answered: {other:?}"),
    }
}

fn assert_json(response: &Response, status: u16, body: &str) {
    assert_eq!(response.status, status);
    assert_eq!(response.headers.len(), 1);
    assert_eq!(response.headers[0].name, "content-type");
    assert_eq!(response.headers[0].value, "application/json");
    assert_eq!(response.body, body);
}

fn arrived(method: &str, path: &str) -> (State, Action) {
    let event = Event::Arrived { method: method.to_string(), path: path.to_string() };
    step(State::Received, event)
}

#[test]
fn a_preflight_is_answered_on_every_path() {
    for path in ["/api/promote", "/", "/nowhere"] {
        let response = answered(arrived("OPTIONS", path));
        assert_eq!(response.status, 200);
        let headers: Vec<(&str, &str)> =
            response.headers.iter().map(|h| (h.name.as_str(), h.value.as_str())).collect();
        assert_eq!(
            headers,
            vec![
                ("allow", "POST, OPTIONS"),
                ("access-control-allow-methods", "POST, OPTIONS"),
                ("access-control-allow-headers", "content-type"),
            ]
        );
        assert_eq!(response.body, "");
    }
}

#[test]
fn other_routes_are_not_found() {
    assert_json(
        &answered(arrived("GET", "/api/promote")),
        404,
        r#"{"error":"Ruta no encontrada: GET /api/promote"}"#,
    );
    assert_json(
        &answered(arrived("POST", "/api/create")),
        404,
        r#"{"error":"Ruta no encontrada: POST /api/create"}"#,
    );
    assert_json(
        &answered(arrived("post", "/a\"b")),
        404,
        r#"{"error":"Ruta no encontrada: post /a\"b"}"#,
    );
    assert_json(
        &answered(arrived("POST", "/api/promote/")),
        404,
        r#"{"error":"Ruta no encontrada: POST /api/promote/"}"#,
    );
}

#[test]
fn the_body_of_a_promotion_is_read() {
    let outcome = arrived("POST", "/api/promote");
    assert!(matches!(outcome, (State::Decoding, Action::DecodeBody)));
    let outcome = route("POST", "/api/promote");
    assert!(matches!(outcome, (State::Decoding, Action::DecodeBody)));
}

#[test]
fn a_body_that_cannot_be_read_is_answered_with_the_reason() {
    let reason = "missing field `oac_id` at line 1 column 2";
    let outcome = step(State::Decoding, Event::Decoded(Err(reason.to_string())));
    assert_json(&answered(outcome), 400, "\"missing field `oac_id` at line 1 column 2\"");
    let outcome = accept_request(Err("a \"b\"".to_string()));
    assert_json(&answered(outcome), 400, r#""a \"b\"""#);
}

#[test]
fn the_distribution_of_the_request_is_read() {
    let outcome = step(State::Decoding, Event::Decoded(Ok(Some(request()))));
    match outcome {
        (State::Fetching { request: kept }, Action::FetchConfig { distribution_id }) => {
            assert_eq!(kept.host_bucket_name, "host");
            assert_eq!(distribution_id, "E2EXAMPLE");
        }
        other => panic!("{other:?}"),
    }
}

fn fetched(e_tag: Option<&str>, config: Option<DistributionConfig>) -> (State, Action) {
    let fetched = FetchedConfig {
        e_tag: e_tag.map(str::to_string),
        distribution_config: config,
    };
    step(State::Fetching { request: request() }, Event::Fetched(Ok(fetched)))
}

#[test]
fn without_a_version_the_promotion_fails() {
    let body =
        r#"{"error":"Error al crear el stack de CloudFormation: \"No se pudo obtener el ETag\""}"#;
    assert_json(&answered(fetched(None, Some(config()))), 500, body);
    assert_json(&answered(fetched(None, None)), 500, body);
}

#[test]
fn without_a_configuration_the_promotion_fails() {
    assert_json(
        &answered(fetched(Some("E1"), None)),
        500,
        r#"{"error":"Error al crear el stack de CloudFormation: \"No se pudo obtener la configuración de la distribución\""}"#,
    );
}

#[test]
fn a_failed_read_is_reported() {
    let outcome = accept_config(request(), Err("ServiceError { code: \"x\" }".to_string()));
    assert_json(
        &answered(outcome),
        500,
        r#"{"error":"Error al crear el stack de CloudFormation: ServiceError { code: \"x\" }"}"#,
    );
}

#[test]
fn the_region_is_looked_up_once_the_configuration_is_there() {
    match fetched(Some("E1"), Some(config())) {
        (State::Locating { request: kept, e_tag, config }, Action::LocateRegion) => {
            assert_eq!(kept.distribution_id, "E2EXAMPLE");
            assert_eq!(e_tag, "E1");
            assert_eq!(config.caller_reference, "ref");
        }
        other => panic!("{other:?}"),
    }
}

fn located(config: DistributionConfig) -> (State, Action) {
    let state = State::Locating { request: request(), e_tag: "E1".to_string(), config };
    step(state, Event::Located { region: "us-east-2".to_string() })
}

#[test]
fn missing_parts_fail_the_promotion() {
    let mut without = config();
    without.default_cache_behavior = None;
    assert_json(
        &answered(located(without)),
        500,
        r#"{"error":"Error al crear el stack de CloudFormation: \"Falta el DefaultCacheBehavior\""}"#,
    );
    let mut without = config();
    without.aliases = None;
    assert_json(
        &answered(located(without)),
        500,
        r#"{"error":"Error al crear el stack de CloudFormation: \"Faltan los Aliases en la distribución actual\""}"#,
    );
    let mut without = config();
    without.viewer_certificate = None;
    assert_json(
        &answered(located(without)),
        500,
        r#"{"error":"Error al crear el stack de CloudFormation: \"Falta el ViewerCertificate en la distribución actual\""}"#,
    );
    let mut without = config();
    without.has_cache_behaviors = false;
    assert_json(
        &answered(located(without)),
        500,
        r#"{"error":"Error al crear el stack de CloudFormation: \"Faltan los CacheBehaviors\""}"#,
    );
}

#[test]
fn the_update_goes_to_the_distribution_under_the_version_read() {
    match promote_environment(request(), "E1".to_string(), config(), "us-east-2") {
        (
            State::Updating,
            Action::UpdateDistribution { notice, distribution_id, config, if_match },
        ) => {
            assert_eq!(notice, "Promocionando entorno para la distribución: E2EXAMPLE");
            assert_eq!(distribution_id, "E2EXAMPLE");
            assert_eq!(if_match, "E1");
            assert_eq!(config.caller_reference, "ref");
            assert_eq!(config.origins.items[0].domain_name, "host.s3.us-east-2.amazonaws.com");
            assert_eq!(config.origins.items[2].domain_name, "alb.example.com");
        }
        other => panic!("{other:?}"),
    }
}

#[test]
fn an_update_that_was_taken_is_answered_as_success() {
    let outcome = step(State::Updating, Event::Updated(Ok(())));
    assert_json(&answered(outcome), 200, r#"{"message":"Stack promovido"}"#);
}

#[test]
fn an_update_that_was_refused_is_reported() {
    let outcome = finish(Err("PreconditionFailed(\"E1\")".to_string()));
    assert_json(
        &answered(outcome),
        500,
        r#"{"error":"Error al crear el stack de CloudFormation: PreconditionFailed(\"E1\")"}"#,
    );
}

#[test]
fn a_sound_promotion_takes_five_events() {
    let fetched = FetchedConfig {
        e_tag: Some("E1".to_string()),
        distribution_config: Some(config()),
    };
    let events = vec![
        Event::Arrived { method: "POST".to_string(), path: "/api/promote".to_string() },
        Event::Decoded(Ok(Some(request()))),
        Event::Fetched(Ok(fetched)),
        Event::Located { region: "us-east-2".to_string() },
        Event::Updated(Ok(())),
    ];
    let mut state = State::Received;
    let mut updates = 0;
    let mut responses = Vec::new();
    for event in events {
        let (after, action) = step(state, event);
        state = after;
        match action {
            Action::UpdateDistribution { .. } => updates += 1,
            Action::Respond(response) => responses.push(response),
            _ => {}
        }
    }
    assert!(matches!(state, State::Answered));
    assert_eq!(updates, 1);
    assert_eq!(responses.len(), 1);
    assert_json(&responses[0], 200, r#"{"message":"Stack promovido"}"#);
}

#[test]
fn missing_parts_read_as_boxed_errors_do() {
    for part in [
        MissingPart::ETag,
        MissingPart::Config,
        MissingPart::DefaultCacheBehavior,
        MissingPart::Aliases,
        MissingPart::ViewerCertificate,
        MissingPart::CacheBehaviors,
    ] {
        let boxed: Box<dyn std::error::Error + Send + Sync> = part.message().into();
        assert_eq!(PromoteError::Missing(part).debug_text(), format!("{boxed:?}"));
    }
    assert_eq!(MissingPart::ETag.message(), "No se pudo obtener el ETag");
    assert_eq!(PromoteError::Service("Timeout".to_string()).debug_text(), "Timeout");
}

#[test]
fn text_helpers() {
    assert!(same_text("POST", "POST"));
    assert!(!same_text("POST", "post"));
    assert!(!same_text("POST", "POS"));
    assert_eq!(unwrap_text_or(Some("a".to_string()), "b"), "a");
    assert_eq!(unwrap_text_or(None, "b"), "b");
    assert!(unwrap_flag(Some(true)));
    assert!(!unwrap_flag(Some(false)));
    assert!(!unwrap_flag(None));
}
