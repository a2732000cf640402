use backend::config::{Config, EnvVars};
use backend::error::{response_status, AppError};
use backend::routes::llm::{
    is_success, prompt_text, proxy_chat_completion, upstream_url, AIInteraction, LlmProxyRequest,
    LlmProxyResponse, UpstreamReply, INSERT_INTERACTION_SQL,
};
use serde_json::Value;

fn json(text: &str) -> Value {
    serde_json::from_str(text).unwrap()
}

fn config(base: &str, path: &str) -> Config {
    let env = EnvVars {
        app_host: None,
        app_port: None,
        database_url: None,
        llm_base_url: Some(base.to_string()),
        llm_chat_path: Some(path.to_string()),
    };
    Config::from_env(env).unwrap()
}

fn default_config() -> Config {
    config("http://127.0.0.1:8000", "/v1/chat/completions")
}

fn request(payload: &str) -> LlmProxyRequest {
    LlmProxyRequest { user_id: None, student_id: None, payload: json(payload) }
}

#[test]
fn array_payload_is_a_bad_request_and_nothing_is_forwarded() {
    let outcome = proxy_chat_completion(&default_config(), request(r#"[{"role":"user"}]"#));
    assert_eq!(response_status(&outcome), 400);
    let error = outcome.unwrap_err();
    assert_eq!(error, AppError::BadRequest("payload must be a JSON object".to_string()));
    assert_eq!(error.into_response().body.error, "bad request: payload must be a JSON object");
}

#[test]
fn only_objects_are_forwarded() {
    for payload in ["null", "true", "7", "1.5", r#""text""#, "[]", "[{}]"] {
        let outcome = proxy_chat_completion(&default_config(), request(payload));
        assert!(matches!(outcome, Err(AppError::BadRequest(_))), "payload {}", payload);
    }
    for payload in ["{}", r#"{"messages":[]}"#, r#"{"a":{"b":[1,2]}}"#] {
        let outcome = proxy_chat_completion(&default_config(), request(payload));
        assert!(outcome.is_ok(), "payload {}", payload);
    }
}

#[test]
fn object_payload_is_forwarded_as_it_came() {
    let payload = r#"{"model":"m","messages":[{"role":"user","content":"hi"}],"n":1}"#;
    let forward = proxy_chat_completion(&default_config(), request(payload)).unwrap();
    assert_eq!(forward.url(), "http://127.0.0.1:8000/v1/chat/completions");
    assert_eq!(*forward.payload(), json(payload));
}

#[test]
fn successful_exchange_returns_and_persists_the_upstream_body() {
    let body = r#"{"id":"x","choices":[]}"#;
    let forward = proxy_chat_completion(
        &default_config(),
        request(r#"{"messages":[{"role":"user","content":"hi"}]}"#),
    )
    .unwrap();
    let persist = forward
        .upstream_replied(UpstreamReply::Answered { status: 200, body: json(body) })
        .unwrap();
    assert_eq!(
        *persist.record(),
        AIInteraction {
            user_id: None,
            student_id: None,
            prompt: r#"[{"content":"hi","role":"user"}]"#.to_string(),
            response: r#"{"choices":[],"id":"x"}"#.to_string(),
        }
    );
    assert_eq!(persist.record().response, json(body).to_string());
    let outcome = persist.stored(Ok(()));
    assert_eq!(response_status(&outcome), 200);
    assert_eq!(outcome, Ok(LlmProxyResponse { upstream: json(body) }));
}

#[test]
fn upstream_500_is_a_bad_gateway_and_nothing_is_persisted() {
    let forward = proxy_chat_completion(&default_config(), request(r#"{"messages":[]}"#)).unwrap();
    let next = forward.upstream_replied(UpstreamReply::Answered {
        status: 500,
        body: json(r#"{"error":"boom"}"#),
    });
    assert_eq!(response_status(&next), 502);
    let error = next.unwrap_err();
    assert_eq!(error, AppError::Upstream(r#"{"error":"boom"}"#.to_string()));
    let response = error.into_response();
    assert_eq!(response.status, 502);
    assert_eq!(response.body.error, r#"upstream llm error: {"error":"boom"}"#);
}

#[test]
fn every_non_success_status_is_rejected() {
    for status in [0u16, 100, 199, 300, 301, 404, 429, 500, 503, 999, u16::MAX] {
        let forward = proxy_chat_completion(&default_config(), request("{}")).unwrap();
        let next =
            forward.upstream_replied(UpstreamReply::Answered { status, body: json("null") });
        assert_eq!(next.unwrap_err(), AppError::Upstream("null".to_string()), "status {}", status);
    }
}

#[test]
fn every_success_status_leads_to_the_store() {
    for status in [200u16, 201, 204, 250, 299] {
        let forward = proxy_chat_completion(&default_config(), request("{}")).unwrap();
        let next = forward.upstream_replied(UpstreamReply::Answered { status, body: json("{}") });
        assert!(next.is_ok(), "status {}", status);
    }
}

#[test]
fn is_success_is_200_to_299() {
    assert!(!is_success(199));
    assert!(is_success(200));
    assert!(is_success(299));
    assert!(!is_success(300));
    assert!(!is_success(0));
}

#[test]
fn failed_call_is_an_http_client_error() {
    let forward = proxy_chat_completion(&default_config(), request("{}")).unwrap();
    let next = forward.upstream_replied(UpstreamReply::Failed("operation timed out".to_string()));
    assert_eq!(response_status(&next), 500);
    let error = next.unwrap_err();
    assert_eq!(error, AppError::HttpClient("operation timed out".to_string()));
    assert_eq!(error.into_response().body.error, "http client error");
}

#[test]
fn failed_insert_is_surfaced_after_a_successful_upstream_call() {
    let forward = proxy_chat_completion(&default_config(), request("{}")).unwrap();
    let persist = forward
        .upstream_replied(UpstreamReply::Answered { status: 200, body: json(r#"{"id":"x"}"#) })
        .unwrap();
    let outcome = persist.stored(Err("database is locked".to_string()));
    assert_eq!(response_status(&outcome), 500);
    assert_eq!(outcome, Err(AppError::Db("database is locked".to_string())));
}

#[test]
fn caller_ids_are_recorded() {
    let body = LlmProxyRequest {
        user_id: Some(3),
        student_id: Some(-9),
        payload: json(r#"{"messages":"hello"}"#),
    };
    let forward = proxy_chat_completion(&default_config(), body).unwrap();
    let persist = forward
        .upstream_replied(UpstreamReply::Answered { status: 201, body: json("[1,2]") })
        .unwrap();
    assert_eq!(
        *persist.record(),
        AIInteraction {
            user_id: Some(3),
            student_id: Some(-9),
            prompt: r#""hello""#.to_string(),
            response: "[1,2]".to_string(),
        }
    );
}

#[test]
fn prompt_is_the_messages_member_when_present() {
    let payload = json(r#"{"model":"m","messages":[{"role":"user","content":"hi"}]}"#);
    assert_eq!(prompt_text(&payload), r#"[{"content":"hi","role":"user"}]"#);
    assert_eq!(prompt_text(&json(r#"{"messages":null}"#)), "null");
}

#[test]
fn prompt_is_the_whole_payload_without_messages() {
    assert_eq!(prompt_text(&json(r#"{"model":"m"}"#)), r#"{"model":"m"}"#);
    assert_eq!(prompt_text(&json(r#"{"Messages":[]}"#)), r#"{"Messages":[]}"#);
    assert_eq!(prompt_text(&json("{}")), "{}");
}

#[test]
fn url_joins_base_without_trailing_slashes_and_path() {
    assert_eq!(
        upstream_url(&config("http://127.0.0.1:8000", "/v1/chat/completions")),
        "http://127.0.0.1:8000/v1/chat/completions"
    );
    assert_eq!(upstream_url(&config("http://llm/", "/chat")), "http://llm/chat");
    assert_eq!(upstream_url(&config("http://llm///", "/chat")), "http://llm/chat");
    assert_eq!(upstream_url(&config("http://llm/api/", "chat")), "http://llm/apichat");
    assert_eq!(upstream_url(&config("http://llm", "")), "http://llm");
}

#[test]
fn interaction_statement_binds_four_values() {
    assert!(INSERT_INTERACTION_SQL.starts_with("INSERT INTO ai_interactions"));
    assert_eq!(INSERT_INTERACTION_SQL.matches('?').count(), 4);
}

#[test]
fn is_success_agrees_with_the_http_status_type() {
    for code in 100u16..=999 {
        let status = axum::http::StatusCode::from_u16(code).unwrap();
        assert_eq!(is_success(code), status.is_success(), "status {}", code);
    }
}
