use rusqlite::Connection;
use usage_limit::app_error::AppError;
use usage_limit::decimal::Amount;
use usage_limit::ledger::{
    saturating_add, saturating_sub, BudgetReservationRow, Database, RequestLogRow,
};
use usage_limit::schema::{CREATE_BUDGET_RESERVATIONS_INDEX, CREATE_BUDGET_RESERVATIONS_TABLE};

const MAX_COST: &str = "79228162514264337593543950335";

fn reservation_row() -> BudgetReservationRow {
    BudgetReservationRow {
        request_id: "request-1".to_string(),
        provider_id: "provider-1".to_string(),
        app_type: "codex".to_string(),
        credential_fingerprint: "fingerprint".to_string(),
        limit_type: "token".to_string(),
        reserved_tokens: 100,
        reserved_cost_usd: "0".to_string(),
        consumed_tokens: 0,
        consumed_cost_usd: "0".to_string(),
        status: "pending".to_string(),
        created_at: 1_999_980,
        updated_at: 1_999_980,
        expires_at: 2_000_001,
    }
}

fn named(request_id: &str, tokens: i64, cost: &str) -> BudgetReservationRow {
    let mut row = reservation_row();
    row.request_id = request_id.to_string();
    row.reserved_tokens = tokens;
    row.reserved_cost_usd = cost.to_string();
    row
}

fn usage(request_id: &str, tokens: [i64; 4], cost: &str) -> RequestLogRow {
    RequestLogRow {
        request_id: request_id.to_string(),
        provider_id: "provider-1".to_string(),
        app_type: "codex".to_string(),
        credential_fingerprint: Some("fingerprint".to_string()),
        data_source: "proxy".to_string(),
        created_at: 1_999_990,
        fresh_input_tokens: tokens[0],
        output_tokens: tokens[1],
        cache_creation_tokens: tokens[2],
        cache_read_tokens: tokens[3],
        total_cost_usd: cost.to_string(),
    }
}

fn ledger() -> Database {
    let mut db = Database::memory();
    db.save_provider("codex", "provider-1");
    db
}

fn database_text(e: AppError) -> String {
    match e {
        AppError::Database(s) => s,
        AppError::InvalidInput(s) => panic!("not a database error: {}", s),
    }
}

fn try_tokens(db: &mut Database, row: &BudgetReservationRow, limit: i64) -> bool {
    db.try_insert_pending_budget_reservation(row, 0, Some(limit), None, 2_000_000)
        .unwrap()
        .unwrap()
}

#[test]
fn v21_reservation_table_and_index_exist() {
    let conn = Connection::open_in_memory().unwrap();
    conn.execute(CREATE_BUDGET_RESERVATIONS_TABLE, []).unwrap();
    conn.execute(CREATE_BUDGET_RESERVATIONS_INDEX, []).unwrap();
    let table_count: i64 = conn
        .query_row(
            "SELECT COUNT(*) FROM sqlite_master WHERE type = 'table' AND name = 'budget_reservations'",
            [],
            |row| row.get(0),
        )
        .unwrap();
    let index_count: i64 = conn
        .query_row(
            "SELECT COUNT(*) FROM sqlite_master WHERE type = 'index' AND name = 'idx_budget_reservations_identity'",
            [],
            |row| row.get(0),
        )
        .unwrap();
    assert_eq!(table_count, 1);
    assert_eq!(index_count, 1);
}

#[test]
fn stale_pending_reservations_are_released_without_touching_usage_logs() {
    let mut db = Database::memory();
    db.save_provider("codex", "provider-1");
    let mut log = usage("usage-1", [1, 1, 0, 0], "0");
    log.credential_fingerprint = None;
    db.request_logs.push(log);
    let row = reservation_row();
    db.insert_pending_budget_reservation(&row).unwrap();

    assert_eq!(
        db.sum_pending_budget_reservations("provider-1", "codex", "fingerprint", 2_000_000)
            .unwrap()
            .unwrap()
            .tokens,
        100
    );
    assert_eq!(db.cleanup_stale_budget_reservations(2_000_002).unwrap(), 1);
    assert_eq!(
        db.sum_pending_budget_reservations("provider-1", "codex", "fingerprint", 2_000_002)
            .unwrap()
            .unwrap()
            .tokens,
        0
    );
    let usage_count = db.request_logs.iter().filter(|log| log.request_id == "usage-1").count();
    assert_eq!(usage_count, 1);
}

#[test]
fn a_second_cleanup_finds_nothing() {
    let mut db = ledger();
    db.insert_pending_budget_reservation(&reservation_row()).unwrap();
    assert_eq!(db.cleanup_stale_budget_reservations(2_000_000).unwrap(), 0);
    assert_eq!(db.reservations[0].status, "pending");
    assert_eq!(db.cleanup_stale_budget_reservations(2_000_001).unwrap(), 1);
    assert_eq!(db.reservations[0].status, "released");
    assert_eq!(db.reservations[0].updated_at, 2_000_001);
    assert_eq!(db.cleanup_stale_budget_reservations(2_000_001).unwrap(), 0);
}

#[test]
fn a_request_has_one_reservation() {
    let mut db = ledger();
    db.insert_pending_budget_reservation(&reservation_row()).unwrap();
    let e = db.insert_pending_budget_reservation(&reservation_row()).unwrap_err();
    assert_eq!(
        database_text(e),
        "插入预算 reservation 失败: UNIQUE constraint failed: budget_reservations.request_id"
    );
    assert_eq!(db.reservations.len(), 1);
    assert_eq!(db.reservations[0], reservation_row());
}

#[test]
fn a_reservation_needs_its_provider() {
    let mut db = Database::memory();
    db.save_provider("gemini", "provider-1");
    let e = db.insert_pending_budget_reservation(&reservation_row()).unwrap_err();
    assert_eq!(database_text(e), "插入预算 reservation 失败: FOREIGN KEY constraint failed");
    assert!(db.reservations.is_empty());
}

#[test]
fn the_tables_report_the_same_conflicts() {
    let conn = Connection::open_in_memory().unwrap();
    conn.execute_batch(
        "PRAGMA foreign_keys = ON;
         CREATE TABLE providers (id TEXT, app_type TEXT, PRIMARY KEY (id, app_type));
         INSERT INTO providers VALUES ('provider-1', 'codex');",
    )
    .unwrap();
    conn.execute(CREATE_BUDGET_RESERVATIONS_TABLE, []).unwrap();
    let insert = "INSERT INTO budget_reservations
        (request_id, provider_id, app_type, credential_fingerprint, limit_type, status, created_at, updated_at, expires_at)
        VALUES (?1, ?2, 'codex', 'f', 'token', 'pending', 0, 0, 0)";
    conn.execute(insert, ["r1", "provider-1"]).unwrap();
    assert_eq!(
        conn.execute(insert, ["r1", "provider-1"]).unwrap_err().to_string(),
        "UNIQUE constraint failed: budget_reservations.request_id"
    );
    assert_eq!(
        conn.execute(insert, ["r2", "provider-2"]).unwrap_err().to_string(),
        "FOREIGN KEY constraint failed"
    );
}

#[test]
fn tokens_are_admitted_up_to_the_limit() {
    let mut db = ledger();
    db.request_logs.push(usage("u1", [100, 20, 3, 4], "0"));
    assert!(!try_tokens(&mut db, &named("r1", 874, "0"), 1000));
    assert!(db.reservations.is_empty());
    assert!(try_tokens(&mut db, &named("r1", 873, "0"), 1000));
    assert_eq!(db.reservations.len(), 1);
    assert!(!try_tokens(&mut db, &named("r2", 1, "0"), 1000));
    assert!(try_tokens(&mut db, &named("r2", 1, "0"), 1001));
}

#[test]
fn two_requests_cannot_claim_the_same_room() {
    let mut db = ledger();
    assert!(try_tokens(&mut db, &named("r1", 600, "0"), 1000));
    assert!(!try_tokens(&mut db, &named("r2", 600, "0"), 1000));
    assert!(try_tokens(&mut db, &named("r2", 400, "0"), 1000));
}

#[test]
fn without_a_limit_nothing_is_admitted() {
    let mut db = ledger();
    let r = db.try_insert_pending_budget_reservation(&reservation_row(), 0, None, None, 0);
    assert!(!r.unwrap().unwrap());
}

#[test]
fn an_admitted_row_can_still_conflict() {
    let mut db = ledger();
    assert!(try_tokens(&mut db, &named("r1", 1, "0"), 1000));
    let r = db.try_insert_pending_budget_reservation(&named("r1", 1, "0"), 0, Some(1000), None, 0);
    assert_eq!(
        database_text(r.unwrap().unwrap_err()),
        "插入预算 reservation 失败: UNIQUE constraint failed: budget_reservations.request_id"
    );
}

#[test]
fn only_proxied_usage_of_the_key_in_the_window_counts() {
    let mut db = ledger();
    let mut session = usage("u1", [500, 0, 0, 0], "1");
    session.data_source = "session_log".to_string();
    let mut other_key = usage("u2", [500, 0, 0, 0], "1");
    other_key.credential_fingerprint = Some("other".to_string());
    let mut no_key = usage("u3", [500, 0, 0, 0], "1");
    no_key.credential_fingerprint = None;
    let mut earlier = usage("u4", [500, 0, 0, 0], "1");
    earlier.created_at = 999;
    let mut other_app = usage("u5", [500, 0, 0, 0], "1");
    other_app.app_type = "gemini".to_string();
    db.request_logs = vec![session, other_key, no_key, earlier, other_app];
    let r = db.try_insert_pending_budget_reservation(
        &named("r1", 100, "0"),
        1000,
        Some(100),
        None,
        2_000_000,
    );
    assert!(r.unwrap().unwrap());
}

#[test]
fn keys_do_not_share_room() {
    let mut db = ledger();
    let mut other = named("r1", 1000, "0");
    other.credential_fingerprint = "other".to_string();
    assert!(try_tokens(&mut db, &other, 1000));
    assert!(try_tokens(&mut db, &named("r2", 1000, "0"), 1000));
    assert!(!try_tokens(&mut db, &named("r3", 1, "0"), 1000));
}

#[test]
fn lapsed_reservations_hold_no_room() {
    let mut db = ledger();
    let mut lapsed = named("r1", 1000, "0");
    lapsed.expires_at = 2_000_000;
    db.insert_pending_budget_reservation(&lapsed).unwrap();
    assert!(try_tokens(&mut db, &named("r2", 1000, "0"), 1000));
}

#[test]
fn costs_are_added_exactly() {
    let mut db = ledger();
    for i in 0..10 {
        db.request_logs.push(usage(&format!("u{}", i), [1, 1, 0, 0], " 0.1 "));
    }
    db.insert_pending_budget_reservation(&named("r0", 0, "0.5")).unwrap();
    let limit = Amount { mantissa: 20, scale: 1 };
    let over = db.try_insert_pending_budget_reservation(
        &named("r1", 0, "0.50000001"),
        0,
        None,
        Some(&limit),
        2_000_000,
    );
    assert!(!over.unwrap().unwrap());
    let exact = db.try_insert_pending_budget_reservation(
        &named("r1", 0, "0.5"),
        0,
        None,
        Some(&limit),
        2_000_000,
    );
    assert!(exact.unwrap().unwrap());
    let totals = db
        .sum_pending_budget_reservations("provider-1", "codex", "fingerprint", 2_000_000)
        .unwrap()
        .unwrap();
    assert_eq!(totals.cost_usd, "1");
    assert_eq!(totals.tokens, 0);
}

#[test]
fn costs_that_are_no_numbers_are_reported() {
    let limit = Amount { mantissa: 10, scale: 0 };
    let why = "Invalid decimal: unknown character";

    let mut db = ledger();
    db.insert_pending_budget_reservation(&named("r0", 0, "abc")).unwrap();
    let r = db.try_insert_pending_budget_reservation(&named("r1", 0, "1"), 0, Some(10), None, 0);
    assert_eq!(database_text(r.unwrap().unwrap_err()), format!("pending cost 不是十进制: {}", why));
    let r = db.sum_pending_budget_reservations("provider-1", "codex", "fingerprint", 0);
    assert_eq!(
        database_text(r.unwrap().unwrap_err()),
        format!("预算 reservation cost 不是十进制: {}", why)
    );

    let mut db = ledger();
    db.request_logs.push(usage("u1", [1, 0, 0, 0], "abc"));
    let r = db.try_insert_pending_budget_reservation(&named("r1", 0, "1"), 0, None, Some(&limit), 0);
    assert_eq!(database_text(r.unwrap().unwrap_err()), format!("proxy cost 不是十进制: {}", why));
    assert!(try_tokens(&mut db, &named("r1", 1, "0"), 10));

    let mut db = ledger();
    let r = db.try_insert_pending_budget_reservation(&named("r1", 0, "abc"), 0, None, Some(&limit), 0);
    assert_eq!(
        database_text(r.unwrap().unwrap_err()),
        format!("reservation cost 不是十进制: {}", why)
    );
}

#[test]
fn sums_beyond_the_range_are_told_apart() {
    let limit = Amount { mantissa: 10, scale: 0 };
    let mut db = ledger();
    db.insert_pending_budget_reservation(&named("r0", 0, MAX_COST)).unwrap();
    db.insert_pending_budget_reservation(&named("r1", 0, "1")).unwrap();
    assert!(db.sum_pending_budget_reservations("provider-1", "codex", "fingerprint", 0).is_none());
    assert!(db
        .try_insert_pending_budget_reservation(&named("r2", 1, "0"), 0, Some(10), None, 0)
        .is_none());
    assert_eq!(db.reservations.len(), 2);

    let mut db = ledger();
    db.request_logs.push(usage("u1", [0, 0, 0, 0], MAX_COST));
    assert!(db
        .try_insert_pending_budget_reservation(&named("r2", 1, MAX_COST), 0, None, Some(&limit), 0)
        .is_none());
}

#[test]
fn usage_beyond_64_bits_is_an_error() {
    let mut db = ledger();
    db.request_logs.push(usage("u1", [i64::MAX, 0, 0, 0], "0"));
    db.request_logs.push(usage("u2", [1, 0, 0, 0], "0"));
    let r = db.try_insert_pending_budget_reservation(&named("r1", 1, "0"), 0, Some(10), None, 0);
    assert_eq!(
        database_text(r.unwrap().unwrap_err()),
        "聚合 reservation token 用量失败: integer overflow"
    );
}

#[test]
fn pending_tokens_stop_at_the_end_of_64_bits() {
    let mut db = ledger();
    db.insert_pending_budget_reservation(&named("r0", i64::MAX, "0")).unwrap();
    db.insert_pending_budget_reservation(&named("r1", 5, "0")).unwrap();
    let totals = db
        .sum_pending_budget_reservations("provider-1", "codex", "fingerprint", 0)
        .unwrap()
        .unwrap();
    assert_eq!(totals.tokens, i64::MAX);
    assert_eq!(saturating_add(i64::MIN, -1), i64::MIN);
    assert_eq!(saturating_add(2, 3), 5);
    assert_eq!(saturating_sub(i64::MIN, 1), i64::MIN);
    assert_eq!(saturating_sub(i64::MAX, -1), i64::MAX);
    assert_eq!(saturating_sub(2, 3), -1);
}

#[test]
fn a_release_frees_its_own_room() {
    let mut db = ledger();
    db.insert_pending_budget_reservation(&named("r1", 600, "1.5")).unwrap();
    db.insert_pending_budget_reservation(&named("r2", 400, "2.50")).unwrap();
    db.release_budget_reservation("r1", 7).unwrap();
    let totals = db
        .sum_pending_budget_reservations("provider-1", "codex", "fingerprint", 0)
        .unwrap()
        .unwrap();
    assert_eq!(totals.tokens, 400);
    assert_eq!(totals.cost_usd, "2.5");
    assert_eq!(db.reservations[0].status, "released");
    assert_eq!(db.reservations[0].updated_at, 7);
    assert_eq!(db.reservations[1], named("r2", 400, "2.50"));

    db.release_budget_reservation_row("r1", 8).unwrap();
    assert_eq!(db.reservations[0].updated_at, 7);
    db.release_budget_reservation_row("unknown", 8).unwrap();
    assert_eq!(db.reservations.len(), 2);
}

#[test]
fn a_reservation_is_reconciled_once() {
    let mut db = ledger();
    db.insert_pending_budget_reservation(&reservation_row()).unwrap();
    db.reconcile_budget_reservation("request-1", 42, "0.42", 9).unwrap();
    let closed = db.reservations[0].clone();
    assert_eq!(closed.status, "committed");
    assert_eq!(closed.consumed_tokens, 42);
    assert_eq!(closed.consumed_cost_usd, "0.42");
    assert_eq!(closed.updated_at, 9);
    assert_eq!(closed.reserved_tokens, 100);

    db.reconcile_budget_reservation_row("request-1", 1, "1", 10).unwrap();
    assert_eq!(db.reservations[0], closed);
    db.release_budget_reservation("request-1", 11).unwrap();
    assert_eq!(db.reservations[0], closed);
    let totals = db
        .sum_pending_budget_reservations("provider-1", "codex", "fingerprint", 0)
        .unwrap()
        .unwrap();
    assert_eq!(totals.tokens, 0);
}

#[test]
fn what_was_released_cannot_be_reconciled() {
    let mut db = ledger();
    db.insert_pending_budget_reservation(&reservation_row()).unwrap();
    db.release_budget_reservation("request-1", 5).unwrap();
    match db.reconcile_budget_reservation("request-1", 1, "1", 6) {
        Err(AppError::InvalidInput(s)) => {
            assert_eq!(s, "预算 reservation 不存在或已结束: request-1")
        }
        other => panic!("unexpected: {:?}", other),
    }
    match db.reconcile_budget_reservation("request-2", 1, "1", 6) {
        Err(AppError::InvalidInput(s)) => {
            assert_eq!(s, "预算 reservation 不存在或已结束: request-2")
        }
        other => panic!("unexpected: {:?}", other),
    }
    assert_eq!(db.reservations[0].status, "released");
    assert_eq!(db.reservations[0].consumed_tokens, 0);
}
