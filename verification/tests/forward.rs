use usage_limit::app_error::AppError;
use usage_limit::decimal::Amount;
use usage_limit::forward::{
    EvaluateStep, ForwardAction, ForwardReplies, ForwardStep, UsageAction, UsageQuery,
    UsageReplies,
};
use usage_limit::json::JsonValue;
use usage_limit::ledger::Database;
use usage_limit::limit_row::ApiKeyLimitRow;

const NOW: i64 = 5000;

fn read_usage(since: i64) -> UsageAction {
    UsageAction::ReadUsage(UsageQuery { fingerprint: "key".to_string(), since })
}

fn read_costs(since: i64) -> UsageAction {
    UsageAction::ReadCosts(UsageQuery { fingerprint: "key".to_string(), since })
}

fn limit(limit_type: &str, currency: Option<&str>, amount: &str) -> ApiKeyLimitRow {
    ApiKeyLimitRow {
        provider_id: "provider-1".to_string(),
        app_type: "codex".to_string(),
        credential_fingerprint: "key".to_string(),
        enabled: true,
        limit_type: limit_type.to_string(),
        currency: currency.map(|c| c.to_string()),
        limit_amount: amount.to_string(),
        usage_start_at: 1000,
        reset_interval_seconds: None,
        created_at: 900,
        updated_at: 900,
    }
}

fn broken() -> AppError {
    AppError::Database("locked".to_string())
}

fn costs(list: &[&str]) -> Vec<String> {
    list.iter().map(|c| c.to_string()).collect()
}

fn ready(row: ApiKeyLimitRow) -> ForwardReplies {
    let mut seen = ForwardReplies::none();
    seen.limit = Some(Ok(Some(row)));
    seen.rolled = Some(Ok(false));
    seen
}

fn check(seen: &ForwardReplies) -> ForwardStep {
    Database::check_budget_before_forward("Test", "key", NOW, seen)
}

fn passes(seen: &ForwardReplies) -> bool {
    matches!(check(seen), ForwardStep::Answer(Ok(())))
}

fn refusal(seen: &ForwardReplies) -> usage_limit::rejection::BudgetRejection {
    match check(seen) {
        ForwardStep::Answer(Err(rejection)) => rejection,
        other => panic!("unexpected: {:?}", other),
    }
}

fn asks(seen: &ForwardReplies, action: ForwardAction) -> bool {
    match check(seen) {
        ForwardStep::Ask(a) => a == action,
        _ => false,
    }
}

fn text(detail: &JsonValue, name: &str) -> String {
    match detail {
        JsonValue::Object(fields) => {
            match fields.iter().rev().find(|f| f.name == name).map(|f| &f.value) {
                Some(JsonValue::Text(s)) => s.clone(),
                other => panic!("unexpected: {:?}", other),
            }
        }
        other => panic!("unexpected: {:?}", other),
    }
}

#[test]
fn a_request_without_an_enabled_limit_passes() {
    let mut seen = ForwardReplies::none();
    assert!(asks(&seen, ForwardAction::ReadLimit));
    seen.limit = Some(Ok(None));
    assert!(passes(&seen));
    seen.limit = Some(Err(broken()));
    assert!(passes(&seen));
    let mut row = limit("token", None, "10");
    row.enabled = false;
    seen.limit = Some(Ok(Some(row)));
    assert!(passes(&seen));
}

#[test]
fn tokens_at_the_limit_are_refused() {
    let mut seen = ready(limit("token", None, "1000"));
    assert!(asks(&seen, ForwardAction::Usage(read_usage(1000))));
    seen.usage.usage = Some(Ok(999));
    assert!(passes(&seen));
    seen.usage.usage = Some(Ok(1000));
    let rejection = refusal(&seen);
    assert_eq!(
        rejection.message,
        "CC Switch token limit reached. Provider: Test. Used: 1,000 / Limit: 1,000"
    );
    assert_eq!(text(&rejection.detail, "code"), "API_KEY_LIMIT_REACHED");
    assert_eq!(text(&rejection.detail, "source"), "local");
    assert_eq!(text(&rejection.detail, "provider"), "Test");
    assert_eq!(text(&rejection.detail, "limitType"), "token");
    assert_eq!(text(&rejection.detail, "currency"), "");
}

#[test]
fn money_at_the_limit_is_refused() {
    let mut seen = ready(limit("money", Some("USD"), "10"));
    seen.usage.usage = Some(Ok(5));
    assert!(asks(&seen, ForwardAction::Usage(read_costs(1000))));
    seen.usage.costs = Some(Ok(costs(&["9.999999999", "nonsense"])));
    assert!(passes(&seen));
    seen.usage.costs = Some(Ok(costs(&["9.999999999", " 0.000000001 "])));
    let rejection = refusal(&seen);
    assert_eq!(
        rejection.message,
        "CC Switch usage limit reached. Provider: Test. Used: $10 / Limit: $10"
    );
    assert_eq!(text(&rejection.detail, "limitType"), "money");
    assert_eq!(text(&rejection.detail, "currency"), "USD");
}

#[test]
fn a_limit_in_yuan_goes_by_the_rate() {
    let mut seen = ready(limit("money", Some("CNY"), "72"));
    seen.usage.usage = Some(Ok(5));
    assert!(asks(&seen, ForwardAction::Usage(UsageAction::ReadRate)));
    seen.usage.rate_setting = Some(Ok(None));
    seen.usage.costs = Some(Ok(costs(&["9.99"])));
    assert!(passes(&seen));
    seen.usage.costs = Some(Ok(costs(&["10.5"])));
    assert_eq!(
        refusal(&seen).message,
        "CC Switch usage limit reached. Provider: Test. Used: ¥75.6 / Limit: ¥72"
    );
    seen.usage.rate_setting = Some(Ok(Some("6".to_string())));
    assert!(passes(&seen));
}

#[test]
fn a_money_limit_without_a_known_currency_is_in_dollars() {
    for currency in vec![None, Some("EUR")] {
        let mut seen = ready(limit("money", currency, "1"));
        seen.usage.usage = Some(Ok(0));
        seen.usage.costs = Some(Ok(costs(&["1"])));
        assert_eq!(text(&refusal(&seen).detail, "currency"), "USD");
    }
}

#[test]
fn what_cannot_be_read_stops_no_request() {
    let mut seen = ready(limit("token", None, "10"));
    seen.usage.usage = Some(Err(broken()));
    assert!(passes(&seen));
    let mut seen = ready(limit("token", None, "many"));
    seen.usage.usage = Some(Ok(50));
    assert!(passes(&seen));
    let mut seen = ready(limit("requests", None, "10"));
    seen.usage.usage = Some(Ok(50));
    assert!(passes(&seen));
    let mut seen = ready(limit("money", None, "much"));
    seen.usage.usage = Some(Ok(50));
    assert!(passes(&seen));
    let mut seen = ready(limit("money", Some("CNY"), "1"));
    seen.usage.usage = Some(Ok(50));
    seen.usage.rate_setting = Some(Err(broken()));
    assert!(passes(&seen));
    let mut seen = ready(limit("money", None, "1"));
    seen.usage.usage = Some(Ok(50));
    seen.usage.costs = Some(Err(broken()));
    assert!(passes(&seen));
}

#[test]
fn a_limit_of_another_key_is_tied_anew() {
    let mut old = limit("token", None, "10");
    old.credential_fingerprint = "old key".to_string();
    let mut seen = ready(old);
    assert!(asks(
        &seen,
        ForwardAction::Rebind { fingerprint: "key".to_string(), now: NOW }
    ));
    seen.rebound = Some(Ok(true));
    assert!(asks(&seen, ForwardAction::ReadLimitAfterRebind));
    let mut fresh = limit("token", None, "10");
    fresh.usage_start_at = 5000;
    seen.limit_after_rebind = Some(Ok(Some(fresh)));
    assert!(asks(&seen, ForwardAction::Usage(read_usage(5000))));
    seen.limit_after_rebind = Some(Err(broken()));
    assert!(asks(&seen, ForwardAction::Usage(read_usage(1000))));
    seen.rebound = Some(Err(broken()));
    seen.limit_after_rebind = None;
    assert!(asks(&seen, ForwardAction::Usage(read_usage(1000))));
}

#[test]
fn an_old_window_is_started_anew() {
    let mut seen = ForwardReplies::none();
    seen.limit = Some(Ok(Some(limit("token", None, "10"))));
    assert!(asks(&seen, ForwardAction::RollWindow { now: NOW }));
    seen.rolled = Some(Err(broken()));
    assert!(asks(&seen, ForwardAction::Usage(read_usage(1000))));
    seen.rolled = Some(Ok(true));
    assert!(asks(&seen, ForwardAction::ReadLimitAfterRoll));
    let mut fresh = limit("token", None, "10");
    fresh.usage_start_at = 7000;
    seen.limit_after_roll = Some(Ok(Some(fresh)));
    assert!(asks(&seen, ForwardAction::Usage(read_usage(7000))));
    seen.limit_after_roll = Some(Ok(None));
    assert!(asks(&seen, ForwardAction::Usage(read_usage(1000))));
}

#[test]
fn amounts_beyond_the_range_are_told_apart() {
    let max = "79228162514264337593543950335";
    let mut seen = ready(limit("money", None, "1"));
    seen.usage.usage = Some(Ok(0));
    seen.usage.costs = Some(Ok(costs(&[max, max])));
    assert!(matches!(check(&seen), ForwardStep::OutOfRange));
    let mut seen = ready(limit("money", Some("CNY"), "1"));
    seen.usage.usage = Some(Ok(0));
    seen.usage.rate_setting = Some(Ok(None));
    seen.usage.costs = Some(Ok(costs(&[max])));
    assert!(matches!(check(&seen), ForwardStep::OutOfRange));
}

#[test]
fn costs_add_up_without_rounding() {
    let total = Database::sum_credential_costs_exact(&costs(&["0.1", "0.2", "x", " 0.30 "]));
    assert_eq!(total, Some(Amount { mantissa: 60, scale: 2 }));
    assert_eq!(
        Database::sum_credential_costs_exact(&costs(&[])),
        Some(Amount { mantissa: 0, scale: 0 })
    );
}

#[test]
fn an_unusable_limit_is_reported() {
    let mut seen = UsageReplies::none();
    seen.usage = Some(Ok(1));
    let fails = |row: &ApiKeyLimitRow| match Database::evaluate_budget(row, "key", &seen) {
        EvaluateStep::Done(Err(AppError::Database(s))) => s,
        other => panic!("unexpected: {:?}", other),
    };
    assert_eq!(fails(&limit("requests", None, "1")), "限额类型非法: requests");
    assert_eq!(fails(&limit("token", None, "1.5")), "限额 Token 数非法: 1.5");
    assert_eq!(
        fails(&limit("token", None, "9223372036854775808")),
        "限额 Token 数非法: 9223372036854775808"
    );
    assert_eq!(fails(&limit("money", None, "a")), "限额金额非法: a");
}

#[test]
fn a_refusal_shows_no_fingerprint() {
    let fingerprint = "fingerprint-of-a-key";
    let mut row = limit("token", None, "10");
    row.credential_fingerprint = fingerprint.to_string();
    let mut seen = ready(row);
    seen.usage.usage = Some(Ok(10));
    match Database::check_budget_before_forward("Test", fingerprint, NOW, &seen) {
        ForwardStep::Answer(Err(rejection)) => {
            assert!(!format!("{:?}", rejection).contains(fingerprint))
        }
        other => panic!("unexpected: {:?}", other),
    }
}

#[test]
fn a_new_key_starts_at_nothing() {
    for (kind, currency) in vec![("token", None), ("money", Some("USD")), ("money", Some("CNY"))] {
        let mut old = limit(kind, currency, "10");
        old.credential_fingerprint = "old key".to_string();
        let mut seen = ready(old);
        seen.rebound = Some(Ok(true));
        let mut fresh = limit(kind, currency, "10");
        fresh.usage_start_at = NOW;
        seen.limit_after_rebind = Some(Ok(Some(fresh)));
        assert!(asks(&seen, ForwardAction::Usage(read_usage(NOW))));
        seen.usage.usage = Some(Ok(0));
        seen.usage.rate_setting = Some(Ok(None));
        seen.usage.costs = Some(Ok(vec![]));
        assert!(passes(&seen));
    }
}
