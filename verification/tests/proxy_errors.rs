use usage_limit::json::{Field, JsonValue};
use usage_limit::proxy_error::{
    categorize_error, upstream_budget_detail, ErrorCategory, ProxyError, TransportError,
};

fn document(value: &JsonValue) -> serde_json::Value {
    match value {
        JsonValue::Text(s) => serde_json::Value::String(s.clone()),
        JsonValue::Bool(b) => serde_json::Value::Bool(*b),
        JsonValue::Integer(n) => serde_json::Value::from(*n),
        JsonValue::Object(fields) => {
            let mut map = serde_json::Map::new();
            for field in fields {
                map.insert(field.name.clone(), document(&field.value));
            }
            serde_json::Value::Object(map)
        }
        JsonValue::Raw(s) => serde_json::from_str(s).unwrap(),
    }
}

fn code_only(code: &str) -> JsonValue {
    JsonValue::Object(vec![Field {
        name: "code".to_string(),
        value: JsonValue::Text(code.to_string()),
    }])
}

#[test]
fn upstream_quota_is_detected_without_copying_body() {
    let detail = upstream_budget_detail(
        429,
        Some(r#"{"error":{"message":"monthly quota exceeded for sk-secret"}}"#),
    )
    .expect("quota response should be detected");
    let detail = document(&detail);
    assert_eq!(detail["code"], "UPSTREAM_API_KEY_LIMIT_REACHED");
    assert!(!detail.to_string().contains("sk-secret"));
}

#[test]
fn ordinary_rate_limit_is_not_upstream_budget_exhaustion() {
    assert!(upstream_budget_detail(429, Some("retry after 30 seconds")).is_none());
}

#[test]
fn upstream_budget_is_a_terminal_category() {
    let error = ProxyError::UpstreamBudgetExhausted {
        status: 429,
        detail: code_only("UPSTREAM_API_KEY_LIMIT_REACHED"),
    };
    assert_eq!(
        ErrorCategory::NonRetryable,
        match error {
            ProxyError::UpstreamBudgetExhausted { .. } => ErrorCategory::NonRetryable,
            _ => ErrorCategory::Retryable,
        }
    );
}

#[test]
fn hard_limits_go_by_status_and_body() {
    let detail = document(&upstream_budget_detail(402, None).unwrap());
    assert_eq!(detail["budget_signal"], false);
    assert_eq!(detail["source"], "upstream");
    assert!(upstream_budget_detail(403, Some("forbidden")).is_none());
    let detail = document(&upstream_budget_detail(403, Some("BILLING hard stop")).unwrap());
    assert_eq!(detail["budget_signal"], true);
    assert!(upstream_budget_detail(429, Some("Usage_Limit")).is_some());
    assert!(upstream_budget_detail(429, Some("cc-switch-usage-limit")).is_some());
    assert!(upstream_budget_detail(500, Some("quota exceeded")).is_none());
    assert!(upstream_budget_detail(429, None).is_none());
}

#[test]
fn a_refusal_is_known_again_downstream() {
    let response = ProxyError::BudgetExhausted {
        message: "CC Switch usage limit reached. Used: $10 / Limit: $10".to_string(),
        detail: code_only("API_KEY_LIMIT_REACHED"),
    }
    .into_response();
    assert_eq!(response.status, 429);
    let body = document(&response.body).to_string();
    assert!(upstream_budget_detail(response.status, Some(&body)).is_some());
}

#[test]
fn a_budget_refusal_carries_its_detail() {
    let response = ProxyError::BudgetExhausted {
        message: "limit".to_string(),
        detail: code_only("API_KEY_LIMIT_REACHED"),
    }
    .into_response();
    let body = document(&response.body);
    assert_eq!(body["error"]["message"], "limit");
    assert_eq!(body["error"]["type"], "cc_switch_usage_limit");
    assert_eq!(body["error"]["code"], "API_KEY_LIMIT_REACHED");
}

#[test]
fn an_upstream_budget_refusal_is_answered_429() {
    let response = ProxyError::UpstreamBudgetExhausted {
        status: 402,
        detail: code_only("UPSTREAM_API_KEY_LIMIT_REACHED"),
    }
    .into_response();
    assert_eq!(response.status, 429);
    assert_eq!(document(&response.body)["error"]["code"], "UPSTREAM_API_KEY_LIMIT_REACHED");
}

#[test]
fn an_upstream_document_is_passed_on() {
    let response = ProxyError::UpstreamError {
        status: 418,
        body: Some("{ \"error\" : { \"b\" : 1 } }".to_string()),
    }
    .into_response();
    assert_eq!(response.status, 418);
    match &response.body {
        JsonValue::Raw(s) => assert_eq!(s, "{\"error\":{\"b\":1}}"),
        other => panic!("unexpected: {:?}", other),
    }
}

#[test]
fn an_upstream_text_is_wrapped() {
    let response =
        ProxyError::UpstreamError { status: 503, body: Some("down".to_string()) }.into_response();
    assert_eq!(response.status, 503);
    let body = document(&response.body);
    assert_eq!(body["error"]["message"], "down");
    assert_eq!(body["error"]["type"], "upstream_error");
}

#[test]
fn an_impossible_upstream_status_becomes_bad_gateway() {
    assert_eq!(ProxyError::UpstreamError { status: 99, body: None }.into_response().status, 502);
    assert_eq!(ProxyError::UpstreamError { status: 1000, body: None }.into_response().status, 502);
    assert_eq!(ProxyError::UpstreamError { status: 100, body: None }.into_response().status, 100);
}

#[test]
fn each_error_has_its_status() {
    let cases = vec![
        (ProxyError::AlreadyRunning, 409),
        (ProxyError::NotRunning, 503),
        (ProxyError::BindFailed("x".to_string()), 500),
        (ProxyError::StopTimeout, 500),
        (ProxyError::StopFailed("x".to_string()), 500),
        (ProxyError::ForwardFailed("x".to_string()), 502),
        (ProxyError::NoAvailableProvider, 503),
        (ProxyError::AllProvidersCircuitOpen, 503),
        (ProxyError::NoProvidersConfigured, 503),
        (ProxyError::ProviderUnhealthy("x".to_string()), 503),
        (ProxyError::MaxRetriesExceeded, 503),
        (ProxyError::DatabaseError("x".to_string()), 500),
        (ProxyError::ConfigError("x".to_string()), 400),
        (ProxyError::TransformError("x".to_string()), 422),
        (ProxyError::InvalidRequest("x".to_string()), 400),
        (ProxyError::Timeout("x".to_string()), 504),
        (ProxyError::StreamIdleTimeout(30), 504),
        (ProxyError::AuthError("x".to_string()), 401),
        (ProxyError::Internal("x".to_string()), 500),
        (ProxyError::ResponseBodyTooLarge(5), 502),
    ];
    for (error, status) in cases {
        let message = error.message();
        let response = error.into_response();
        assert_eq!(response.status, status, "{}", message);
        let body = document(&response.body);
        assert_eq!(body["error"]["message"], message.as_str());
        assert_eq!(body["error"]["type"], "proxy_error");
    }
}

#[test]
fn messages_name_their_cause() {
    assert_eq!(ProxyError::ConfigError("bad".to_string()).message(), "配置错误: bad");
    assert_eq!(ProxyError::StreamIdleTimeout(30).message(), "流式响应空闲超时: 30秒无数据");
    assert_eq!(
        ProxyError::UpstreamError { status: 500, body: Some("a\"b".to_string()) }.message(),
        "上游错误 (状态码 500): Some(\"a\\\"b\")"
    );
    assert_eq!(
        ProxyError::UpstreamError { status: 500, body: None }.message(),
        "上游错误 (状态码 500): None"
    );
}

#[test]
fn only_client_errors_are_final() {
    let error = |is_timeout: bool, is_connect: bool, status: Option<u16>| {
        categorize_error(&TransportError { is_timeout, is_connect, status })
    };
    assert_eq!(error(false, false, Some(400)), ErrorCategory::NonRetryable);
    assert_eq!(error(false, false, Some(499)), ErrorCategory::NonRetryable);
    assert_eq!(error(false, false, Some(399)), ErrorCategory::Retryable);
    assert_eq!(error(false, false, Some(500)), ErrorCategory::Retryable);
    assert_eq!(error(false, false, None), ErrorCategory::Retryable);
    assert_eq!(error(true, false, Some(404)), ErrorCategory::Retryable);
    assert_eq!(error(false, true, Some(404)), ErrorCategory::Retryable);
}
