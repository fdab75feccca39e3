use usage_limit::app_error::AppError;
use usage_limit::credential::{credential_fingerprint, AppType, AuthInfo, Provider};
use usage_limit::decimal::Amount;
use usage_limit::ledger::Database;
use usage_limit::limit::{EnforcementSupport, UsageLimitConfig};
use usage_limit::limit_row::ApiKeyLimitRow;
use usage_limit::save::{SaveAction, SaveReplies, SaveStep};
use usage_limit::status::{
    shown_percentage, BudgetStatus, StatusAction, StatusReplies, StatusStep, ZeroCostModel,
};

fn known() -> Vec<AppType> {
    vec![AppType { name: "codex".to_string() }]
}

fn provider(key: Option<&str>) -> Provider {
    Provider {
        uses_managed_account_auth: false,
        uses_proxy_injected_oauth: false,
        is_codex_oauth: false,
        is_xai_oauth: false,
        auth: key.map(|k| AuthInfo { api_key: k.to_string() }),
    }
}

fn key() -> String {
    credential_fingerprint("codex", "sk-test-ABCD")
}

fn limit(limit_type: &str, currency: Option<&str>, amount: &str) -> ApiKeyLimitRow {
    ApiKeyLimitRow {
        provider_id: "provider-1".to_string(),
        app_type: "codex".to_string(),
        credential_fingerprint: key(),
        enabled: true,
        limit_type: limit_type.to_string(),
        currency: currency.map(|c| c.to_string()),
        limit_amount: amount.to_string(),
        usage_start_at: 1000,
        reset_interval_seconds: Some(3600),
        created_at: 900,
        updated_at: 950,
    }
}

fn replies(row: Option<ApiKeyLimitRow>, tokens: i64, costs: &[&str]) -> StatusReplies {
    let mut seen = StatusReplies::none();
    seen.provider = Some(Ok(Some(provider(Some("sk-test-ABCD")))));
    seen.proxy_flag = Some(Ok(Some(1)));
    seen.rolled = true;
    seen.limit = Some(Ok(row));
    seen.usage.usage = Some(Ok(tokens));
    seen.usage.costs = Some(Ok(costs.iter().map(|c| c.to_string()).collect()));
    seen.zero_cost_models = Some(Ok(vec![]));
    seen
}

fn step(seen: &StatusReplies) -> StatusStep {
    Database::get_budget_status(&known(), "provider-1", "codex", 5000, seen)
}

fn status(seen: &StatusReplies) -> BudgetStatus {
    match step(seen) {
        StatusStep::Done(Ok(status)) => status,
        other => panic!("unexpected: {:?}", other),
    }
}

fn failure(seen: &StatusReplies) -> AppError {
    match step(seen) {
        StatusStep::Done(Err(e)) => e,
        other => panic!("unexpected: {:?}", other),
    }
}

#[test]
fn a_status_is_asked_for_in_order() {
    let mut seen = StatusReplies::none();
    assert!(matches!(step(&seen), StatusStep::Ask(StatusAction::ReadProvider)));
    seen.provider = Some(Ok(Some(provider(Some("sk-test-ABCD")))));
    assert!(matches!(step(&seen), StatusStep::Ask(StatusAction::ReadProxyFlag)));
    seen.proxy_flag = Some(Ok(None));
    assert!(matches!(step(&seen), StatusStep::Ask(StatusAction::RollWindow { now: 5000 })));
    seen.rolled = true;
    assert!(matches!(step(&seen), StatusStep::Ask(StatusAction::ReadLimit)));
    let mut row = limit("money", Some("CNY"), "10");
    row.credential_fingerprint = "old key".to_string();
    seen.limit = Some(Ok(Some(row)));
    match step(&seen) {
        StatusStep::Ask(StatusAction::ReadUsage(query)) => {
            assert_eq!(query.fingerprint, key());
            assert_eq!(query.since, 1000);
        }
        other => panic!("unexpected: {:?}", other),
    }
    seen.usage.usage = Some(Ok(0));
    match step(&seen) {
        StatusStep::Ask(StatusAction::ReadCosts(query)) => assert_eq!(query.fingerprint, key()),
        other => panic!("unexpected: {:?}", other),
    }
    seen.usage.costs = Some(Ok(vec![]));
    match step(&seen) {
        StatusStep::Ask(StatusAction::ReadZeroCostModels(query)) => assert_eq!(query.since, 1000),
        other => panic!("unexpected: {:?}", other),
    }
    seen.zero_cost_models = Some(Ok(vec![]));
    assert!(matches!(step(&seen), StatusStep::Ask(StatusAction::ReadRate)));
    seen.usage.rate_setting = Some(Ok(None));
    assert_eq!(status(&seen).state, "active");
}

#[test]
fn without_a_limit_the_status_is_off() {
    let shown = status(&replies(None, 5, &["1"]));
    assert!(!shown.enabled);
    assert_eq!(shown.state, "off");
    assert_eq!(shown.provider_id, "provider-1");
    assert_eq!(shown.app_type, "codex");
    assert_eq!(shown.limit_type, None);
    assert_eq!(shown.used_money_usd, "0");
    assert_eq!(shown.used_tokens, 0);
    assert_eq!(shown.percent_used, None);
    assert_eq!(shown.enforcement, EnforcementSupport::Active);
    assert_eq!(shown.masked_credential, Some("sk-****ABCD".to_string()));
}

#[test]
fn a_disabled_limit_shows_usage_and_is_off() {
    let mut row = limit("token", None, "10");
    row.enabled = false;
    let shown = status(&replies(Some(row), 5, &["1.50"]));
    assert_eq!(shown.state, "off");
    assert_eq!(shown.percent_used, None);
    assert_eq!(shown.used_tokens, 5);
    assert_eq!(shown.used_money_usd, "1.50");
    assert_eq!(shown.limit_amount, Some("10".to_string()));
    assert_eq!(shown.usage_start_at, Some(1000));
    assert_eq!(shown.reset_interval_seconds, Some(3600));
}

#[test]
fn tokens_move_through_the_states() {
    let shown = |tokens: i64| {
        let s = status(&replies(Some(limit("token", None, "1000")), tokens, &[]));
        (s.state, s.percent_used.unwrap())
    };
    assert_eq!(shown(0), ("active".to_string(), "0".to_string()));
    assert_eq!(shown(799), ("active".to_string(), "79.90".to_string()));
    assert_eq!(shown(800), ("warning".to_string(), "80".to_string()));
    assert_eq!(shown(999), ("warning".to_string(), "99.90".to_string()));
    assert_eq!(shown(1000), ("exhausted".to_string(), "100".to_string()));
    assert_eq!(shown(2500), ("exhausted".to_string(), "250".to_string()));
    let third = status(&replies(Some(limit("token", None, "3")), 1, &[]));
    assert_eq!(third.percent_used, Some("33.33".to_string()));
}

#[test]
fn a_limit_of_nothing_is_exhausted() {
    let shown = status(&replies(Some(limit("token", None, "0")), 0, &[]));
    assert_eq!(shown.state, "exhausted");
    assert_eq!(shown.percent_used, Some("0".to_string()));
}

#[test]
fn money_is_shown_in_the_currency_of_the_limit() {
    let shown = status(&replies(Some(limit("money", Some("USD"), "10")), 1, &["5", "3.5"]));
    assert_eq!(shown.state, "warning");
    assert_eq!(shown.used_money_usd, "8.5");
    assert_eq!(shown.used_money_in_currency, Some("8.5".to_string()));
    let mut seen = replies(Some(limit("money", Some("CNY"), "72")), 1, &["10"]);
    seen.usage.rate_setting = Some(Ok(Some("7.2".to_string())));
    let shown = status(&seen);
    assert_eq!(shown.state, "exhausted");
    assert_eq!(shown.used_money_usd, "10");
    assert_eq!(shown.used_money_in_currency, Some("72.0".to_string()));
    assert_eq!(shown.currency, Some("CNY".to_string()));
}

#[test]
fn requests_without_a_price_are_counted() {
    let model = |name: &str, count: i64, priced: bool, placeholder: bool| ZeroCostModel {
        model: name.to_string(),
        count,
        priced,
        placeholder,
    };
    let mut seen = replies(Some(limit("token", None, "10")), 1, &[]);
    seen.zero_cost_models = Some(Ok(vec![
        model("a", 2, false, false),
        model("b", 4, true, false),
        model("c", 8, false, true),
        model("d", 16, false, false),
    ]));
    let shown = status(&seen);
    assert_eq!(shown.unpriced_request_count, 18);
    assert_eq!(shown.unpriced_models, vec!["a".to_string(), "d".to_string()]);
    seen.zero_cost_models =
        Some(Ok(vec![model("a", i64::MAX, false, false), model("b", 1, false, false)]));
    assert!(matches!(step(&seen), StatusStep::OutOfRange));
}

#[test]
fn enforcement_goes_by_key_and_proxy() {
    let mut seen = replies(None, 0, &[]);
    assert_eq!(status(&seen).enforcement, EnforcementSupport::Active);
    seen.proxy_flag = Some(Ok(Some(0)));
    assert_eq!(status(&seen).enforcement, EnforcementSupport::ProxyDisabled);
    seen.proxy_flag = Some(Ok(None));
    assert_eq!(status(&seen).enforcement, EnforcementSupport::ProxyDisabled);
    seen.proxy_flag = Some(Err(AppError::Database("x".to_string())));
    assert_eq!(status(&seen).enforcement, EnforcementSupport::ProxyDisabled);
    seen.provider = Some(Ok(Some(provider(None))));
    seen.proxy_flag = None;
    seen.limit = Some(Ok(Some(limit("token", None, "10"))));
    let shown = status(&seen);
    assert_eq!(shown.enforcement, EnforcementSupport::UnsupportedCredential);
    assert_eq!(shown.masked_credential, None);
    assert_eq!(shown.limit_amount, Some("10".to_string()));
    assert_eq!(shown.state, "off");
    assert!(Database::is_proxy_enabled_for_app(Some(-1)));
}

#[test]
fn a_status_reports_what_is_wrong() {
    let none = StatusReplies::none();
    match Database::get_budget_status(&known(), "provider-1", "gemini", 5000, &none) {
        StatusStep::Done(Err(AppError::InvalidInput(s))) => assert_eq!(s, "未知应用类型: gemini"),
        other => panic!("unexpected: {:?}", other),
    }
    let mut seen = replies(None, 0, &[]);
    seen.provider = Some(Ok(None));
    match failure(&seen) {
        AppError::InvalidInput(s) => assert_eq!(s, "Provider 不存在: provider-1"),
        other => panic!("unexpected: {:?}", other),
    }
    let fails = |row: ApiKeyLimitRow| match failure(&replies(Some(row), 0, &[])) {
        AppError::Database(s) => s,
        other => panic!("unexpected: {:?}", other),
    };
    assert_eq!(fails(limit("requests", None, "1")), "限额类型非法: requests");
    assert_eq!(fails(limit("token", None, "x")), "限额 Token 数非法: x");
    assert_eq!(fails(limit("money", None, "x")), "限额金额非法: x");
    let mut seen = replies(None, 0, &[]);
    seen.limit = Some(Err(AppError::Database("locked".to_string())));
    match failure(&seen) {
        AppError::Database(s) => assert_eq!(s, "locked"),
        other => panic!("unexpected: {:?}", other),
    }
}

fn config(limit_type: &str, currency: Option<&str>, amount: Option<&str>) -> UsageLimitConfig {
    UsageLimitConfig {
        enabled: true,
        limit_type: limit_type.to_string(),
        currency: currency.map(|c| c.to_string()),
        limit_amount: amount.map(|a| a.to_string()),
        reset_interval_seconds: None,
    }
}

fn save_replies(existing: Option<ApiKeyLimitRow>) -> SaveReplies {
    let mut seen = SaveReplies::none();
    seen.provider = Some(Ok(Some(provider(Some("sk-test-ABCD")))));
    seen.limit = Some(Ok(existing));
    seen
}

fn save(config: &UsageLimitConfig, seen: &SaveReplies) -> SaveStep {
    Database::save_budget_config(&known(), "provider-1", "codex", config, 5000, seen)
}

fn stored(config: &UsageLimitConfig, seen: &SaveReplies) -> ApiKeyLimitRow {
    match save(config, seen) {
        SaveStep::Store(row) => row,
        other => panic!("unexpected: {:?}", other),
    }
}

fn complaint(config: &UsageLimitConfig) -> String {
    match save(config, &save_replies(None)) {
        SaveStep::Reject(AppError::InvalidInput(s)) => s,
        other => panic!("unexpected: {:?}", other),
    }
}

#[test]
fn a_new_limit_counts_from_now() {
    let row = stored(&config("money", Some("CNY"), Some(" 100.00 ")), &save_replies(None));
    assert_eq!(row.provider_id, "provider-1");
    assert_eq!(row.app_type, "codex");
    assert_eq!(row.credential_fingerprint, key());
    assert!(row.enabled);
    assert_eq!(row.limit_type, "money");
    assert_eq!(row.currency, Some("CNY".to_string()));
    assert_eq!(row.limit_amount, "100");
    assert_eq!(row.usage_start_at, 5000);
    assert_eq!(row.created_at, 5000);
    assert_eq!(row.updated_at, 5000);
}

#[test]
fn saving_again_keeps_the_window() {
    let on = config("token", None, Some("20"));
    let row = stored(&on, &save_replies(Some(limit("token", None, "10"))));
    assert!(row.enabled);
    assert_eq!(row.usage_start_at, 1000);
    assert_eq!(row.created_at, 900);
    assert_eq!(row.updated_at, 5000);
    assert_eq!(row.currency, None);
    assert_eq!(row.limit_amount, "20");
    assert_eq!(row.reset_interval_seconds, None);
}

#[test]
fn switching_off_flips_the_switch_alone() {
    let mut off = config("token", None, Some("500"));
    off.enabled = false;
    let existing = limit("money", Some("CNY"), "1000");
    let row = stored(&off, &save_replies(Some(existing.clone())));
    let mut expected = existing;
    expected.enabled = false;
    expected.updated_at = 5000;
    assert_eq!(row, expected);
}

#[test]
fn switching_off_takes_over_another_key() {
    let mut off = config("token", None, Some("500"));
    off.enabled = false;
    let mut old = limit("token", None, "1000");
    old.credential_fingerprint = "old key".to_string();
    let row = stored(&off, &save_replies(Some(old)));
    assert!(!row.enabled);
    assert_eq!(row.limit_amount, "1000");
    assert_eq!(row.credential_fingerprint, key());
    assert_eq!(row.usage_start_at, 5000);
    assert_eq!(row.created_at, 900);
}

#[test]
fn a_new_limit_can_be_stored_switched_off() {
    let mut off = config("token", None, Some("500"));
    off.enabled = false;
    let row = stored(&off, &save_replies(None));
    assert!(!row.enabled);
    assert_eq!(row.limit_amount, "500");
}

#[test]
fn bad_input_is_rejected_also_when_switching_off() {
    let mut off = config("token", None, Some("0"));
    off.enabled = false;
    match save(&off, &save_replies(Some(limit("token", None, "10")))) {
        SaveStep::Reject(AppError::InvalidInput(s)) => assert_eq!(s, "限额 Token 数必须大于 0"),
        other => panic!("unexpected: {:?}", other),
    }
}

#[test]
fn saving_answers_with_the_status() {
    let good = config("token", None, Some("10"));
    let mut seen = save_replies(None);
    seen.stored = Some(Err(AppError::Database("full".to_string())));
    match save(&good, &seen) {
        SaveStep::Reject(AppError::Database(s)) => assert_eq!(s, "full"),
        other => panic!("unexpected: {:?}", other),
    }
    seen.stored = Some(Ok(()));
    assert!(matches!(
        save(&good, &seen),
        SaveStep::Status(StatusStep::Ask(StatusAction::ReadProvider))
    ));
    seen.status = replies(Some(limit("token", None, "10")), 8, &[]);
    match save(&good, &seen) {
        SaveStep::Status(StatusStep::Done(Ok(shown))) => {
            let asked = status(&replies(Some(limit("token", None, "10")), 8, &[]));
            assert_eq!(format!("{:?}", shown), format!("{:?}", asked));
            assert_eq!(shown.state, "warning");
        }
        other => panic!("unexpected: {:?}", other),
    }
}

#[test]
fn another_key_starts_a_new_window() {
    let mut old = limit("token", None, "10");
    old.credential_fingerprint = "old key".to_string();
    let row = stored(&config("token", None, Some("10")), &save_replies(Some(old)));
    assert_eq!(row.usage_start_at, 5000);
    assert_eq!(row.created_at, 900);
    assert_eq!(row.credential_fingerprint, key());
}

#[test]
fn what_makes_no_sense_is_not_saved() {
    assert_eq!(complaint(&config("requests", None, Some("1"))), "限额类型非法: requests");
    assert_eq!(complaint(&config("token", Some("USD"), Some("1"))), "Token 限额不需要币种");
    assert_eq!(complaint(&config("money", None, Some("1"))), "金额限额必须提供币种（USD 或 CNY）");
    assert_eq!(
        complaint(&config("money", Some("EUR"), Some("1"))),
        "金额限额必须提供币种（USD 或 CNY）"
    );
    assert_eq!(complaint(&config("token", None, None)), "缺少限额数值");
    assert_eq!(complaint(&config("token", None, Some("0"))), "限额 Token 数必须大于 0");
    let mut minutes = config("token", None, Some("1"));
    minutes.reset_interval_seconds = Some(60);
    assert_eq!(complaint(&minutes), "自动重置周期必须是至少 1 小时的整小时数");
}

#[test]
fn saving_needs_a_provider_with_a_key() {
    let good = config("token", None, Some("1"));
    let mut seen = SaveReplies::none();
    assert!(matches!(save(&good, &seen), SaveStep::Ask(SaveAction::ReadProvider)));
    seen.provider = Some(Ok(Some(provider(Some("sk-test-ABCD")))));
    assert!(matches!(save(&good, &seen), SaveStep::Ask(SaveAction::ReadLimit)));
    seen.limit = Some(Err(AppError::Database("locked".to_string())));
    assert!(matches!(save(&good, &seen), SaveStep::Reject(AppError::Database(_))));
    let rejected = |seen: &SaveReplies| match save(&good, seen) {
        SaveStep::Reject(AppError::InvalidInput(s)) => s,
        other => panic!("unexpected: {:?}", other),
    };
    seen.provider = Some(Ok(Some(provider(None))));
    assert_eq!(rejected(&seen), "该 Provider 没有可识别的静态 API Key，无法设置使用限额");
    seen.provider = Some(Ok(None));
    assert_eq!(rejected(&seen), "Provider 不存在: provider-1");
    match Database::save_budget_config(&known(), "provider-1", "gemini", &good, 5000, &seen) {
        SaveStep::Reject(AppError::InvalidInput(s)) => assert_eq!(s, "未知应用类型: gemini"),
        other => panic!("unexpected: {:?}", other),
    }
}

#[test]
fn a_percentage_is_shown_with_its_state() {
    let shown = |exhausted: bool, mantissa: i128, scale: u32| {
        shown_percentage(exhausted, &Amount { mantissa, scale })
    };
    let pair = |text: &str, state: &str| (text.to_string(), state.to_string());
    assert_eq!(shown(false, 79999, 3), pair("80.00", "active"));
    assert_eq!(shown(false, 80, 0), pair("80", "warning"));
    assert_eq!(shown(false, 99999, 3), pair("100.00", "warning"));
    assert_eq!(shown(false, 100, 0), pair("100", "exhausted"));
    assert_eq!(shown(true, 0, 0), pair("0", "exhausted"));
    assert_eq!(shown(false, 33335, 3), pair("33.34", "active"));
    assert_eq!(shown(false, 33325, 3), pair("33.32", "active"));
}

#[test]
fn the_warning_starts_at_the_threshold() {
    let state = |tokens: i64| status(&replies(Some(limit("token", None, "7919")), tokens, &[])).state;
    assert_eq!(state(6335), "active");
    assert_eq!(state(6336), "warning");
    assert_eq!(state(7918), "warning");
    assert_eq!(state(7919), "exhausted");
}
