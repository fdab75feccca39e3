use usage_limit::decimal::Amount;
use usage_limit::forward::UsageQuery;
use usage_limit::json::{Field, JsonValue};
use usage_limit::ledger::{Database, PendingBudgetTotals};
use usage_limit::limit::LimitType;
use usage_limit::limit_row::ApiKeyLimitRow;
use usage_limit::rejection::BudgetRejection;
use usage_limit::reserve::{
    plan_spending, requested_token_reservation, InsertOrder, PlanStep, ReserveAction,
    ReserveReplies, ReserveStep,
};

const NOW: i64 = 10_000;

fn limit(limit_type: &str, currency: Option<&str>, amount: &str) -> ApiKeyLimitRow {
    ApiKeyLimitRow {
        provider_id: "provider-1".to_string(),
        app_type: "codex".to_string(),
        credential_fingerprint: "key".to_string(),
        enabled: true,
        limit_type: limit_type.to_string(),
        currency: currency.map(|c| c.to_string()),
        limit_amount: amount.to_string(),
        usage_start_at: 1000,
        reset_interval_seconds: None,
        created_at: 900,
        updated_at: 900,
    }
}

fn pending(tokens: i64, cost: &str) -> Option<Result<PendingBudgetTotals, String>> {
    Some(Ok(PendingBudgetTotals { tokens, cost_usd: cost.to_string() }))
}

fn prepared(row: ApiKeyLimitRow) -> ReserveReplies {
    let mut seen = ReserveReplies::none();
    seen.limit = Some(Ok(Some(row.clone())));
    seen.rolled = Some(Ok(false));
    seen.limit_after_roll = Some(Ok(Some(row)));
    seen.cleaned = true;
    seen
}

fn token_replies(amount: &str, used: i64, held: i64) -> ReserveReplies {
    let mut seen = prepared(limit("token", None, amount));
    seen.usage = Some(Ok(used));
    seen.pending = pending(held, "0");
    seen.input_tokens = Some(None);
    seen
}

fn money_replies(currency: &str, amount: &str, costs: &[&str], held: &str) -> ReserveReplies {
    let mut seen = prepared(limit("money", Some(currency), amount));
    seen.rate_setting = Some(Ok(None));
    seen.costs = Some(Ok(costs.iter().map(|c| c.to_string()).collect()));
    seen.pending = pending(0, held);
    seen.price_known = Some(Ok(true));
    seen
}

fn request(fields: &[(&str, i64)]) -> JsonValue {
    JsonValue::Object(
        fields
            .iter()
            .map(|(name, n)| Field { name: name.to_string(), value: JsonValue::Integer(*n) })
            .collect(),
    )
}

fn step(request: &JsonValue, seen: &ReserveReplies) -> ReserveStep {
    Database::reserve_budget_for_request(
        "request-1",
        "provider-1",
        "codex",
        "key",
        request,
        NOW,
        seen,
    )
}

fn order(request: &JsonValue, seen: &ReserveReplies) -> InsertOrder {
    match step(request, seen) {
        ReserveStep::Ask(ReserveAction::Insert(order)) => order,
        other => panic!("unexpected: {:?}", other),
    }
}

fn refusal(seen: &ReserveReplies) -> BudgetRejection {
    match step(&request(&[]), seen) {
        ReserveStep::Answer(Err(rejection)) => rejection,
        other => panic!("unexpected: {:?}", other),
    }
}

fn refused(seen: &ReserveReplies) -> (String, String) {
    let rejection = refusal(seen);
    let code = match &rejection.detail {
        JsonValue::Object(fields) => {
            match fields.iter().find(|f| f.name == "code").map(|f| &f.value) {
                Some(JsonValue::Text(s)) => s.clone(),
                other => panic!("unexpected: {:?}", other),
            }
        }
        other => panic!("unexpected: {:?}", other),
    };
    (rejection.message, code)
}

fn failed() -> String {
    "locked".to_string()
}

#[test]
fn without_an_enabled_limit_nothing_is_reserved() {
    let mut seen = ReserveReplies::none();
    assert!(matches!(step(&request(&[]), &seen), ReserveStep::Ask(ReserveAction::ReadLimit)));
    seen.limit = Some(Ok(None));
    assert!(matches!(step(&request(&[]), &seen), ReserveStep::Answer(Ok(None))));
    let mut row = limit("token", None, "10");
    row.enabled = false;
    seen.limit = Some(Ok(Some(row)));
    assert!(matches!(step(&request(&[]), &seen), ReserveStep::Answer(Ok(None))));
}

#[test]
fn the_limit_is_prepared_in_order() {
    let mut row = limit("token", None, "10");
    row.credential_fingerprint = "old key".to_string();
    let mut seen = ReserveReplies::none();
    seen.limit = Some(Ok(Some(row)));
    match step(&request(&[]), &seen) {
        ReserveStep::Ask(ReserveAction::Rebind { fingerprint, now }) => {
            assert_eq!(fingerprint, "key");
            assert_eq!(now, NOW);
        }
        other => panic!("unexpected: {:?}", other),
    }
    seen.rebound = Some(Ok(false));
    assert!(matches!(
        step(&request(&[]), &seen),
        ReserveStep::Ask(ReserveAction::RollWindow { now: NOW })
    ));
    seen.rolled = Some(Ok(false));
    assert!(matches!(
        step(&request(&[]), &seen),
        ReserveStep::Ask(ReserveAction::ReadLimitAfterRoll)
    ));
    seen.limit_after_roll = Some(Ok(Some(limit("token", None, "10"))));
    assert!(matches!(
        step(&request(&[]), &seen),
        ReserveStep::Ask(ReserveAction::CleanUp { now: NOW })
    ));
    seen.cleaned = true;
    match step(&request(&[]), &seen) {
        ReserveStep::Ask(ReserveAction::ReadUsage(query)) => {
            assert_eq!(query, UsageQuery { fingerprint: "key".to_string(), since: 1000 });
        }
        other => panic!("unexpected: {:?}", other),
    }
    seen.usage = Some(Ok(1));
    match step(&request(&[]), &seen) {
        ReserveStep::Ask(ReserveAction::ReadPending { fingerprint, now }) => {
            assert_eq!(fingerprint, "key");
            assert_eq!(now, NOW);
        }
        other => panic!("unexpected: {:?}", other),
    }
    seen.pending = pending(1, "0");
    assert_eq!(order(&request(&[]), &seen).row.reserved_tokens, 8);
}

#[test]
fn storage_failures_refuse_the_request() {
    let code = "BUDGET_STORAGE_ERROR".to_string();
    let mut seen = ReserveReplies::none();
    seen.limit = Some(Err(failed()));
    assert_eq!(refused(&seen), ("无法读取本地预算配置: locked".to_string(), code.clone()));

    let mut row = limit("token", None, "10");
    row.credential_fingerprint = "old key".to_string();
    seen.limit = Some(Ok(Some(row)));
    seen.rebound = Some(Err(failed()));
    assert_eq!(refused(&seen), ("无法重绑 API Key 使用限额: locked".to_string(), code.clone()));

    let mut seen = prepared(limit("token", None, "10"));
    seen.rolled = Some(Err(failed()));
    assert_eq!(refused(&seen), ("无法自动重置预算窗口: locked".to_string(), code.clone()));
    seen.rolled = Some(Ok(true));
    seen.limit_after_roll = Some(Err(failed()));
    assert_eq!(
        refused(&seen),
        ("无法读取自动重置后的预算配置: locked".to_string(), code.clone())
    );
    seen.limit_after_roll = Some(Ok(None));
    assert_eq!(refused(&seen), ("预算配置在自动重置过程中消失".to_string(), code.clone()));

    let mut seen = prepared(limit("token", None, "10"));
    seen.usage = Some(Err(failed()));
    assert_eq!(refused(&seen), ("无法计算预算用量: locked".to_string(), code.clone()));
    seen.usage = Some(Ok(0));
    seen.pending = Some(Err(failed()));
    assert_eq!(refused(&seen), ("无法计算预算 reservation: locked".to_string(), code.clone()));
    seen.pending = pending(0, "0");
    seen.inserted = Some(Err(failed()));
    assert_eq!(refused(&seen), ("无法建立预算 reservation: locked".to_string(), code.clone()));

    let mut seen = money_replies("USD", "10", &[], "0");
    seen.rate_setting = Some(Err(failed()));
    assert_eq!(refused(&seen), ("无法读取 USD/CNY 汇率: locked".to_string(), code.clone()));
    let mut seen = money_replies("USD", "10", &[], "0");
    seen.costs = Some(Err(failed()));
    assert_eq!(refused(&seen), ("无法计算预算用量: locked".to_string(), code.clone()));
    let mut seen = money_replies("USD", "10", &[], "0");
    seen.pending = Some(Err(failed()));
    assert_eq!(refused(&seen), ("无法计算预算 reservation: locked".to_string(), code.clone()));
    let mut seen = money_replies("USD", "10", &[], "0");
    seen.price_known = Some(Err(failed()));
    assert_eq!(refused(&seen), ("无法读取模型定价: locked".to_string(), code));
}

#[test]
fn unusable_limits_refuse_the_request() {
    let code = "INVALID_BUDGET_CONFIG".to_string();
    assert_eq!(
        refused(&prepared(limit("requests", None, "1"))),
        ("限额类型非法: requests".to_string(), code.clone())
    );
    assert_eq!(
        refused(&prepared(limit("token", None, " 1"))),
        ("限额 Token 数非法:  1".to_string(), code.clone())
    );
    assert_eq!(
        refused(&prepared(limit("money", None, "x"))),
        ("限额金额非法: x".to_string(), code)
    );
}

#[test]
fn a_declared_ceiling_is_claimed_in_full() {
    let seen = token_replies("1000", 300, 200);
    let made = order(&request(&[("max_tokens", 400)]), &seen);
    assert_eq!(made.row.reserved_tokens, 400);
    assert_eq!(made.row.reserved_cost_usd, "0");
    assert_eq!(made.row.limit_type, "token");
    assert_eq!(made.row.status, "pending");
    assert_eq!(made.row.created_at, NOW);
    assert_eq!(made.row.expires_at, NOW + 300);
    assert_eq!(made.token_limit, Some(1000));
    assert_eq!(made.cost_limit_usd, None);
    assert_eq!(made.usage_start_at, 1000);
    match step(&request(&[("max_tokens", 501)]), &seen) {
        ReserveStep::Answer(Err(rejection)) => assert_eq!(
            rejection.message,
            "CC Switch token limit reached. Used: 500 / Limit: 1,000"
        ),
        other => panic!("unexpected: {:?}", other),
    }
}

#[test]
fn without_a_ceiling_all_that_remains_is_claimed() {
    let seen = token_replies("1000", 300, 200);
    assert_eq!(order(&request(&[]), &seen).row.reserved_tokens, 500);
    let (message, code) = refused(&token_replies("1000", 900, 100));
    assert_eq!(message, "CC Switch token limit reached. Used: 1,000 / Limit: 1,000");
    assert_eq!(code, "API_KEY_LIMIT_REACHED");
}

#[test]
fn the_larger_declared_ceiling_counts() {
    assert_eq!(
        requested_token_reservation(&request(&[("max_tokens", 5), ("max_output_tokens", 9)]), 100),
        9
    );
    assert_eq!(
        requested_token_reservation(&request(&[("max_tokens", 9), ("max_output_tokens", 5)]), 100),
        9
    );
    assert_eq!(
        requested_token_reservation(&request(&[("max_tokens", 0), ("max_output_tokens", 5)]), 100),
        5
    );
    assert_eq!(requested_token_reservation(&request(&[("max_tokens", -5)]), 100), 100);
    assert_eq!(requested_token_reservation(&request(&[("max_tokens", 500)]), 100), 500);
    assert_eq!(requested_token_reservation(&JsonValue::Raw("1.5".to_string()), 100), 100);
    let texts = JsonValue::Object(vec![Field {
        name: "max_tokens".to_string(),
        value: JsonValue::Text("5".to_string()),
    }]);
    assert_eq!(requested_token_reservation(&texts, 100), 100);
}

#[test]
fn a_money_limit_reserves_all_that_remains() {
    let seen = money_replies("USD", "10.00", &["1.25", "0.75"], "3");
    let made = order(&request(&[("max_tokens", 5)]), &seen);
    assert_eq!(made.row.reserved_cost_usd, "5");
    assert_eq!(made.row.reserved_tokens, 0);
    assert_eq!(made.row.limit_type, "money");
    assert_eq!(made.token_limit, None);
    assert_eq!(made.cost_limit_usd, Some(Amount { mantissa: 1000, scale: 2 }));
}

#[test]
fn a_limit_in_yuan_is_reserved_in_dollars() {
    let seen = money_replies("CNY", "72", &["4"], "1.5");
    let made = order(&request(&[]), &seen);
    assert_eq!(made.row.reserved_cost_usd, "4.5");
    let (message, code) = refused(&money_replies("CNY", "72", &["9"], "1"));
    assert_eq!(message, "CC Switch usage limit reached. Used: $10 / Limit: ¥72");
    assert_eq!(code, "API_KEY_LIMIT_REACHED");
}

#[test]
fn pending_costs_that_are_no_number_count_nothing() {
    let seen = money_replies("USD", "10", &["4"], "nonsense");
    assert_eq!(order(&request(&[]), &seen).row.reserved_cost_usd, "6");
}

#[test]
fn reserved_amounts_beyond_the_range_are_told_apart() {
    let max = "79228162514264337593543950335";
    assert!(matches!(
        step(&request(&[]), &money_replies("USD", "1", &[max, "1"], "0")),
        ReserveStep::OutOfRange
    ));
    let mut seen = money_replies("CNY", max, &[], "0");
    seen.rate_setting = Some(Ok(Some("0.0001".to_string())));
    assert!(matches!(step(&request(&[]), &seen), ReserveStep::OutOfRange));
}

#[test]
fn the_ledger_has_the_last_word() {
    let mut seen = token_replies("1000", 0, 0);
    seen.inserted = Some(Ok(false));
    assert_eq!(
        refused(&seen),
        (
            "并发请求已占用当前 API Key 的剩余额度".to_string(),
            "API_KEY_LIMIT_REACHED".to_string()
        )
    );
    seen.inserted = Some(Ok(true));
    match step(&request(&[("max_tokens", 7)]), &seen) {
        ReserveStep::Answer(Ok(Some(held))) => {
            assert_eq!(held.request_id, "request-1");
            assert_eq!(held.provider_id, "provider-1");
            assert_eq!(held.app_type, "codex");
            assert_eq!(held.credential_fingerprint, "key");
            assert_eq!(held.limit_type, LimitType::Token);
            assert_eq!(held.reserved_tokens, 7);
            assert_eq!(held.reserved_cost_usd, "0");
            assert_eq!(held.expires_at, NOW + 300);
        }
        other => panic!("unexpected: {:?}", other),
    }
}

#[test]
fn an_order_is_admitted_by_a_ledger_that_agrees() {
    let mut db = Database::memory();
    db.save_provider("codex", "provider-1");
    let made = order(&request(&[]), &token_replies("1000", 0, 0));
    let admitted = db.try_insert_pending_budget_reservation(
        &made.row,
        made.usage_start_at,
        made.token_limit,
        made.cost_limit_usd.as_ref(),
        NOW,
    );
    assert!(admitted.unwrap().unwrap());
    let totals =
        db.sum_pending_budget_reservations("provider-1", "codex", "key", NOW).unwrap().unwrap();
    let (message, _) = refused(&token_replies("1000", 0, totals.tokens));
    assert_eq!(message, "CC Switch token limit reached. Used: 1,000 / Limit: 1,000");
}

#[test]
fn the_lifetime_stops_at_the_end_of_time() {
    let made = match Database::reserve_budget_for_request(
        "request-1",
        "provider-1",
        "codex",
        "key",
        &request(&[]),
        i64::MAX - 10,
        &token_replies("1000", 0, 0),
    ) {
        ReserveStep::Ask(ReserveAction::Insert(order)) => order,
        other => panic!("unexpected: {:?}", other),
    };
    assert_eq!(made.row.expires_at, i64::MAX);
}

#[test]
fn a_refused_reservation_shows_no_fingerprint() {
    let fingerprint = "fingerprint-of-a-key";
    let mut seen = token_replies("1000", 1000, 0);
    let mut row = limit("token", None, "1000");
    row.credential_fingerprint = fingerprint.to_string();
    seen.limit = Some(Ok(Some(row)));
    match Database::reserve_budget_for_request(
        "request-1",
        "provider-1",
        "codex",
        fingerprint,
        &request(&[]),
        NOW,
        &seen,
    ) {
        ReserveStep::Answer(Err(rejection)) => {
            let shown = format!("{:?}", rejection);
            assert!(!shown.contains(fingerprint));
            assert!(!shown.contains("request-1"));
        }
        other => panic!("unexpected: {:?}", other),
    }
}

#[test]
fn a_request_without_a_safe_price_is_refused() {
    let mut seen = money_replies("USD", "10", &["4"], "0");
    seen.price_known = None;
    assert!(matches!(
        step(&request(&[]), &seen),
        ReserveStep::Ask(ReserveAction::ReadPrice { model: None })
    ));
    let named = JsonValue::Object(vec![Field {
        name: "model".to_string(),
        value: JsonValue::Text("some-model".to_string()),
    }]);
    match step(&named, &seen) {
        ReserveStep::Ask(ReserveAction::ReadPrice { model }) => {
            assert_eq!(model, Some("some-model".to_string()))
        }
        other => panic!("unexpected: {:?}", other),
    }
    seen.price_known = Some(Ok(false));
    let (message, code) = refused(&seen);
    assert_eq!(message, "无法确定请求模型的定价，金额限额下不转发");
    assert_eq!(code, "PRICING_UNAVAILABLE");
    let mut spent = money_replies("USD", "10", &["10"], "0");
    spent.price_known = Some(Ok(false));
    assert_eq!(refused(&spent).1, "API_KEY_LIMIT_REACHED");
    let mut tokens = token_replies("1000", 0, 0);
    tokens.price_known = Some(Ok(false));
    assert_eq!(order(&request(&[]), &tokens).row.reserved_tokens, 1000);
}

#[test]
fn known_input_counts_beside_a_ceiling() {
    let asked = request(&[("max_tokens", 400)]);
    let mut seen = token_replies("1000", 300, 200);
    seen.input_tokens = None;
    assert!(matches!(step(&asked, &seen), ReserveStep::Ask(ReserveAction::CountInput)));
    assert_eq!(order(&request(&[]), &seen).row.reserved_tokens, 500);
    seen.input_tokens = Some(Some(100));
    assert_eq!(order(&asked, &seen).row.reserved_tokens, 500);
    assert_eq!(order(&request(&[]), &seen).row.reserved_tokens, 500);
    seen.input_tokens = Some(Some(101));
    assert!(matches!(step(&asked, &seen), ReserveStep::Answer(Err(_))));
    seen.input_tokens = Some(Some(i64::MAX));
    assert!(matches!(step(&asked, &seen), ReserveStep::Answer(Err(_))));
    seen.input_tokens = Some(Some(-7));
    assert_eq!(order(&asked, &seen).row.reserved_tokens, 400);
}

#[test]
fn two_requests_cannot_reserve_the_same_money() {
    let mut db = Database::memory();
    db.save_provider("codex", "provider-1");
    let first = order(&request(&[]), &money_replies("USD", "10", &[], "0"));
    let mut second = order(&request(&[]), &money_replies("USD", "10", &[], "0"));
    second.row.request_id = "request-2".to_string();
    let mut take_in = |made: &InsertOrder| {
        db.try_insert_pending_budget_reservation(
            &made.row,
            made.usage_start_at,
            made.token_limit,
            made.cost_limit_usd.as_ref(),
            NOW,
        )
        .unwrap()
        .unwrap()
    };
    assert_eq!(first.row.reserved_cost_usd, "10");
    assert!(take_in(&first));
    assert!(!take_in(&second));
}

#[test]
fn what_remains_goes_by_the_limit_in_dollars() {
    let seen = money_replies("CNY", "72", &["2.5"], "0.5");
    let claim = plan_spending(
        &limit("money", Some("CNY"), "72"),
        "key",
        &request(&[]),
        NOW,
        &Amount { mantissa: 72, scale: 0 },
        &Amount { mantissa: 100, scale: 1 },
        &seen,
    );
    match claim {
        PlanStep::Claim(claim) => {
            assert_eq!(claim.cost_usd, "7");
            assert_eq!(claim.tokens, 0);
            assert_eq!(claim.cost_limit_usd, Some(Amount { mantissa: 100, scale: 1 }));
        }
        other => panic!("unexpected: {:?}", other),
    }
}
