//! What holds of the ledger as a whole: a reservation that was admitted keeps the
//! usage within the limit, and closing a reservation frees exactly its own room.

use crate::app_error::AppErrorView;
use crate::decimal::{amount_text, decimal_from_str, decimal_sum, normal_form, Amount};
use crate::ledger::{
    committed_cost, committed_tokens, has_status, pending_cost, pending_report, pending_tokens,
    reconcile_complaint, room, saturated, stale_count, with_committed, with_released, without_stale, CostTotal, Database, RequestLogRow,
    ReservationView, Room, Scope,
};
use crate::text::trimmed;
use vstd::prelude::*;

verus! {

/// Whether every request has at most one reservation.
pub open spec fn distinct_requests(rows: Seq<ReservationView>) -> bool {
    forall|i: int, j: int|
        0 <= i < j < rows.len() ==> (#[trigger] rows[i]).request_id != (
        #[trigger] rows[j]).request_id
}

/// The reservations of the other requests.
pub open spec fn others(rows: Seq<ReservationView>, request_id: Seq<char>) -> Seq<ReservationView> {
    rows.filter(|row: ReservationView| row.request_id != request_id)
}

/// The totals with one more reservation.
pub proof fn lemma_pending_push(
    rows: Seq<ReservationView>,
    row: ReservationView,
    scope: Scope,
    now: int,
)
    ensures
        pending_tokens(rows.push(row), scope, now) == (if row.is_active(scope, now) {
            saturated(pending_tokens(rows, scope, now) + row.reserved_tokens)
        } else {
            pending_tokens(rows, scope, now)
        }),
        pending_cost(rows.push(row), scope, now) == (if row.is_active(scope, now) {
            pending_cost(rows, scope, now).plus(row.reserved_cost_usd)
        } else {
            pending_cost(rows, scope, now)
        }),
{
    assert(rows.push(row).drop_last() =~= rows);
}

/// The tokens of active reservations lie within 64 bits.
pub proof fn lemma_pending_range(rows: Seq<ReservationView>, scope: Scope, now: int)
    ensures
        i64::MIN <= pending_tokens(rows, scope, now) <= i64::MAX,
    decreases rows.len(),
{
    if rows.len() > 0 {
        lemma_pending_range(rows.drop_last(), scope, now);
    }
}

/// A token reservation that was admitted keeps logged usage and active
/// reservations together within the limit. A limit at the end of 64 bits is left
/// out: sums stop there.
pub proof fn law_admitted_tokens_stay_within_limit(
    logs: Seq<RequestLogRow>,
    rows: Seq<ReservationView>,
    row: ReservationView,
    usage_start_at: int,
    limit: i64,
    cost_limit_usd: Option<Amount>,
    now: int,
)
    requires
        room(logs, rows, row, usage_start_at, Some(limit), cost_limit_usd, now) is Fits,
        row.is_active(row.scope(), now),
        limit < i64::MAX,
        row.reserved_tokens >= 0,
    ensures
        committed_tokens(logs, row.scope(), usage_start_at) matches Some(used) && used
            + pending_tokens(rows.push(row), row.scope(), now) <= limit,
{
    lemma_pending_push(rows, row, row.scope(), now);
    lemma_pending_range(rows, row.scope(), now);
    lemma_committed_range(logs, row.scope(), usage_start_at);
}

/// The tokens of logged requests lie within 64 bits.
pub proof fn lemma_committed_range(logs: Seq<RequestLogRow>, scope: Scope, since: int)
    ensures
        committed_tokens(logs, scope, since) matches Some(n) ==> i64::MIN <= n <= i64::MAX,
    decreases logs.len(),
{
    if logs.len() > 0 {
        lemma_committed_range(logs.drop_last(), scope, since);
    }
}

/// Two reservations of one key that were admitted one after the other never claim
/// the same room: together with what was used and held before they stay within
/// the limit.
pub proof fn law_no_room_is_given_twice(
    logs: Seq<RequestLogRow>,
    rows: Seq<ReservationView>,
    first: ReservationView,
    second: ReservationView,
    usage_start_at: int,
    limit: i64,
    cost_limit_usd: Option<Amount>,
    now: int,
)
    requires
        room(logs, rows, first, usage_start_at, Some(limit), cost_limit_usd, now) is Fits,
        room(logs, rows.push(first), second, usage_start_at, Some(limit), cost_limit_usd, now)
            is Fits,
        first.is_active(first.scope(), now),
        second.scope() == first.scope(),
        limit < i64::MAX,
        first.reserved_tokens >= 0,
        second.reserved_tokens >= 0,
        committed_tokens(logs, first.scope(), usage_start_at) matches Some(used) ==> used >= 0,
    ensures
        committed_tokens(logs, first.scope(), usage_start_at) matches Some(used) && used
            + pending_tokens(rows, first.scope(), now) + first.reserved_tokens
            + second.reserved_tokens <= limit,
{
    lemma_pending_push(rows, first, first.scope(), now);
    lemma_pending_range(rows, first.scope(), now);
    lemma_committed_range(logs, first.scope(), usage_start_at);
}

/// Two money reservations of one key that were admitted one after the other never
/// claim the same room: what was spent, what was held before, and both of them add
/// up to no more than the limit.
pub proof fn law_no_money_is_given_twice(
    logs: Seq<RequestLogRow>,
    rows: Seq<ReservationView>,
    first: ReservationView,
    second: ReservationView,
    usage_start_at: int,
    limit: Amount,
    now: int,
)
    requires
        room(logs, rows, first, usage_start_at, None, Some(limit), now) is Fits,
        room(logs, rows.push(first), second, usage_start_at, None, Some(limit), now) is Fits,
        first.is_active(first.scope(), now),
        second.scope() == first.scope(),
    ensures
        costs_within(
            committed_cost(logs, first.scope(), usage_start_at),
            pending_cost(rows, first.scope(), now),
            first.reserved_cost_usd,
            second.reserved_cost_usd,
            limit,
        ),
{
    lemma_pending_push(rows, first, first.scope(), now);
}

/// Whether what was spent, what was held, and two reserved costs add up to no more
/// than a limit.
pub open spec fn costs_within(
    committed: CostTotal,
    pending: CostTotal,
    first: Seq<char>,
    second: Seq<char>,
    limit: Amount,
) -> bool {
    &&& committed matches CostTotal::Sum(spent)
    &&& pending matches CostTotal::Sum(held)
    &&& decimal_from_str(trimmed(first)) matches Ok(a)
    &&& decimal_from_str(trimmed(second)) matches Ok(b)
    &&& decimal_sum(held, a) matches Some(holding)
    &&& decimal_sum(spent, holding) matches Some(taken)
    &&& decimal_sum(taken, b) matches Some(total)
    &&& total.units() <= limit.units()
}

/// Where the limit is used up or held, no further tokens are admitted.
pub proof fn law_full_budget_admits_nothing(
    logs: Seq<RequestLogRow>,
    rows: Seq<ReservationView>,
    row: ReservationView,
    usage_start_at: int,
    limit: i64,
    cost_limit_usd: Option<Amount>,
    now: int,
)
    requires
        committed_tokens(logs, row.scope(), usage_start_at) matches Some(used) && used
            + pending_tokens(rows, row.scope(), now) >= limit,
        row.reserved_tokens > 0,
        limit < i64::MAX,
    ensures
        !(room(logs, rows, row, usage_start_at, Some(limit), cost_limit_usd, now) is Fits),
{
}

/// Cleaning up changes no total, then or later, and leaves nothing stale behind.
pub proof fn law_cleanup_keeps_totals(
    rows: Seq<ReservationView>,
    scope: Scope,
    now: int,
    later: int,
)
    requires
        now <= later,
    ensures
        pending_tokens(without_stale(rows, now), scope, later) == pending_tokens(
            rows,
            scope,
            later,
        ),
        pending_cost(without_stale(rows, now), scope, later) == pending_cost(rows, scope, later),
        stale_count(without_stale(rows, now), now) == 0,
    decreases rows.len(),
{
    lemma_statuses_differ();
    if rows.len() > 0 {
        law_cleanup_keeps_totals(rows.drop_last(), scope, now, later);
        assert(without_stale(rows, now).drop_last() =~= without_stale(rows.drop_last(), now));
    }
}

proof fn lemma_statuses_differ()
    ensures
        "pending"@ != "released"@,
        "pending"@ != "committed"@,
        "released"@ != "committed"@,
{
    reveal_strlit("pending");
    reveal_strlit("released");
    reveal_strlit("committed");
    assert("pending"@[0] != "released"@[0]);
    assert("pending"@[0] != "committed"@[0]);
    assert("released"@[0] != "committed"@[0]);
}

proof fn lemma_others_step(rows: Seq<ReservationView>, request_id: Seq<char>)
    requires
        rows.len() > 0,
    ensures
        others(rows, request_id) == (if rows.last().request_id != request_id {
            others(rows.drop_last(), request_id).push(rows.last())
        } else {
            others(rows.drop_last(), request_id)
        }),
{
    reveal(Seq::filter);
}

/// A release frees the room of that request and of no other: the totals become
/// those of the other requests.
pub proof fn law_release_frees_its_room(
    rows: Seq<ReservationView>,
    request_id: Seq<char>,
    at: int,
    scope: Scope,
    now: int,
)
    ensures
        pending_tokens(with_released(rows, request_id, at), scope, now) == pending_tokens(
            others(rows, request_id),
            scope,
            now,
        ),
        pending_cost(with_released(rows, request_id, at), scope, now) == pending_cost(
            others(rows, request_id),
            scope,
            now,
        ),
    decreases rows.len(),
{
    lemma_statuses_differ();
    if rows.len() > 0 {
        let rest = rows.drop_last();
        law_release_frees_its_room(rest, request_id, at, scope, now);
        lemma_others_step(rows, request_id);
        assert(with_released(rows, request_id, at).drop_last() =~= with_released(
            rest,
            request_id,
            at,
        ));
        lemma_pending_push(others(rest, request_id), rows.last(), scope, now);
    } else {
        reveal(Seq::filter);
        assert(with_released(rows, request_id, at) =~= others(rows, request_id));
    }
}

/// A reservation that was committed holds no room any more: the totals become
/// those of the other requests.
pub proof fn law_reconciled_holds_no_room(
    rows: Seq<ReservationView>,
    request_id: Seq<char>,
    tokens: int,
    cost_usd: Seq<char>,
    at: int,
    scope: Scope,
    now: int,
)
    ensures
        pending_tokens(with_committed(rows, request_id, tokens, cost_usd, at), scope, now)
            == pending_tokens(others(rows, request_id), scope, now),
        pending_cost(with_committed(rows, request_id, tokens, cost_usd, at), scope, now)
            == pending_cost(others(rows, request_id), scope, now),
    decreases rows.len(),
{
    lemma_statuses_differ();
    if rows.len() > 0 {
        let rest = rows.drop_last();
        law_reconciled_holds_no_room(rest, request_id, tokens, cost_usd, at, scope, now);
        lemma_others_step(rows, request_id);
        assert(with_committed(rows, request_id, tokens, cost_usd, at).drop_last()
            =~= with_committed(rest, request_id, tokens, cost_usd, at));
        lemma_pending_push(others(rest, request_id), rows.last(), scope, now);
    } else {
        reveal(Seq::filter);
        assert(with_committed(rows, request_id, tokens, cost_usd, at) =~= others(rows, request_id));
    }
}

/// A reservation is closed once. Whatever is done to it afterwards, it stays as
/// it was closed.
pub proof fn law_closed_stays_closed(
    rows: Seq<ReservationView>,
    request_id: Seq<char>,
    tokens: int,
    cost_usd: Seq<char>,
    at: int,
    tokens_later: int,
    cost_later: Seq<char>,
    later: int,
)
    ensures
        ({
            let released = with_released(rows, request_id, at);
            &&& with_released(released, request_id, later) == released
            &&& with_committed(released, request_id, tokens_later, cost_later, later) == released
        }),
        ({
            let committed = with_committed(rows, request_id, tokens, cost_usd, at);
            &&& with_released(committed, request_id, later) == committed
            &&& with_committed(committed, request_id, tokens_later, cost_later, later) == committed
        }),
{
    lemma_statuses_differ();
    let released = with_released(rows, request_id, at);
    let committed = with_committed(rows, request_id, tokens, cost_usd, at);
    assert(with_released(released, request_id, later) =~= released);
    assert(with_committed(released, request_id, tokens_later, cost_later, later) =~= released);
    assert(with_released(committed, request_id, later) =~= committed);
    assert(with_committed(committed, request_id, tokens_later, cost_later, later) =~= committed);
}

/// After a release a reservation counts neither as pending nor as committed, so
/// that reconciling it is an error; after a commit it counts as committed, so that
/// reconciling it again is none.
pub proof fn law_reconcile_after_closing(
    rows: Seq<ReservationView>,
    request_id: Seq<char>,
    tokens: int,
    cost_usd: Seq<char>,
    at: int,
)
    requires
        distinct_requests(rows),
        has_status(rows, request_id, "pending"@),
    ensures
        ({
            let released = with_released(rows, request_id, at);
            &&& !has_status(released, request_id, "pending"@)
            &&& !has_status(released, request_id, "committed"@)
        }),
        has_status(
            with_committed(rows, request_id, tokens, cost_usd, at),
            request_id,
            "committed"@,
        ),
{
    lemma_statuses_differ();
    let k = choose|k: int|
        0 <= k < rows.len() && (#[trigger] rows[k]).request_id == request_id && rows[k].status
            == "pending"@;
    let committed = with_committed(rows, request_id, tokens, cost_usd, at);
    assert(committed[k].status == "committed"@);
    let released = with_released(rows, request_id, at);
    assert forall|i: int|
        0 <= i < released.len() && (#[trigger] released[i]).request_id
            == request_id implies released[i].status == "released"@ by {
        assert(rows[i].request_id == request_id);
        if i < k {
            assert(rows[i].request_id != rows[k].request_id);
        }
        if k < i {
            assert(rows[k].request_id != rows[i].request_id);
        }
    }
}

pub open spec fn valid_status(status: Seq<char>) -> bool {
    status == "pending"@ || status == "committed"@ || status == "released"@
}

pub open spec fn valid_statuses(rows: Seq<ReservationView>) -> bool {
    forall|i: int| 0 <= i < rows.len() ==> valid_status((#[trigger] rows[i]).status)
}

/// Every operation keeps the statuses among pending, committed and released.
pub proof fn law_statuses_stay_valid(
    rows: Seq<ReservationView>,
    row: ReservationView,
    request_id: Seq<char>,
    tokens: int,
    cost_usd: Seq<char>,
    now: int,
)
    requires
        valid_statuses(rows),
    ensures
        valid_status(row.status) ==> valid_statuses(rows.push(row)),
        valid_statuses(with_released(rows, request_id, now)),
        valid_statuses(with_committed(rows, request_id, tokens, cost_usd, now)),
        valid_statuses(without_stale(rows, now)),
{
}

/// A reservation of one key takes no room from another.
pub proof fn law_keys_are_isolated(
    rows: Seq<ReservationView>,
    row: ReservationView,
    scope: Scope,
    now: int,
)
    requires
        row.scope() != scope,
    ensures
        pending_tokens(rows.push(row), scope, now) == pending_tokens(rows, scope, now),
        pending_cost(rows.push(row), scope, now) == pending_cost(rows, scope, now),
{
    lemma_pending_push(rows, row, scope, now);
}

/// Only requests through the proxy, by the same key and within the window, count.
pub proof fn law_only_proxied_requests_count(
    logs: Seq<RequestLogRow>,
    log: RequestLogRow,
    scope: Scope,
    since: int,
)
    requires
        log.data_source@ != "proxy"@ || log.created_at < since || log.provider_id@
            != scope.provider_id || log.app_type@ != scope.app_type || !(
        log.credential_fingerprint matches Some(f) && f@ == scope.fingerprint),
    ensures
        committed_tokens(logs.push(log), scope, since) == committed_tokens(logs, scope, since),
        committed_cost(logs.push(log), scope, since) == committed_cost(logs, scope, since),
{
    assert(logs.push(log).drop_last() =~= logs);
}

/// Whether a logged request went through the proxy, with the key of `scope`, at
/// `since` or later.
pub open spec fn was_proxied_since(log: RequestLogRow, scope: Scope, since: int) -> bool {
    &&& log.data_source@ == "proxy"@
    &&& log.provider_id@ == scope.provider_id
    &&& log.app_type@ == scope.app_type
    &&& log.credential_fingerprint matches Some(f) && f@ == scope.fingerprint
    &&& since <= log.created_at
}

/// One more logged request raises the tokens used by its fresh input, its output
/// and both kinds of cache use, each in full, if it went through the proxy with the
/// same key in the window; any other one changes nothing. Where the total leaves 64
/// bits there is none.
pub proof fn law_logged_request_adds_its_tokens(
    logs: Seq<RequestLogRow>,
    log: RequestLogRow,
    scope: Scope,
    since: int,
    used: int,
)
    requires
        committed_tokens(logs, scope, since) == Some(used),
    ensures
        ({
            let more = log.fresh_input_tokens + log.output_tokens + log.cache_creation_tokens
                + log.cache_read_tokens;
            let after = committed_tokens(logs.push(log), scope, since);
            &&& !was_proxied_since(log, scope, since) ==> after == Some(used)
            &&& was_proxied_since(log, scope, since) && i64::MIN <= more <= i64::MAX && i64::MIN
                <= used + more <= i64::MAX ==> after == Some(used + more)
            &&& was_proxied_since(log, scope, since) && (more > i64::MAX || more < i64::MIN || used
                + more > i64::MAX || used + more < i64::MIN) ==> after is None
        }),
{
    assert(logs.push(log).drop_last() =~= logs);
}

/// Before any request nothing is used, and a total that left 64 bits does not come
/// back.
pub proof fn law_usage_starts_at_nothing(
    logs: Seq<RequestLogRow>,
    log: RequestLogRow,
    scope: Scope,
    since: int,
)
    ensures
        committed_tokens(Seq::empty(), scope, since) == Some(0int),
        committed_tokens(logs, scope, since) is None ==> committed_tokens(
            logs.push(log),
            scope,
            since,
        ) is None,
        committed_cost(Seq::empty(), scope, since) == CostTotal::Sum(
            Amount { mantissa: 0, scale: 0 },
        ),
        pending_tokens(Seq::empty(), scope, since) == 0,
        pending_cost(Seq::empty(), scope, since) == CostTotal::Sum(
            Amount { mantissa: 0, scale: 0 },
        ),
{
    assert(logs.push(log).drop_last() =~= logs);
}

/// One more logged request raises the money used by its total cost, if it went
/// through the proxy with the same key in the window; any other one changes nothing.
pub proof fn law_logged_request_adds_its_cost(
    logs: Seq<RequestLogRow>,
    log: RequestLogRow,
    scope: Scope,
    since: int,
    spent: Amount,
)
    requires
        committed_cost(logs, scope, since) == CostTotal::Sum(spent),
    ensures
        ({
            let after = committed_cost(logs.push(log), scope, since);
            &&& !was_proxied_since(log, scope, since) ==> after == CostTotal::Sum(spent)
            &&& was_proxied_since(log, scope, since) ==> match decimal_from_str(
                trimmed(log.total_cost_usd@),
            ) {
                Err(why) => after == CostTotal::NotDecimal(why),
                Ok(cost) => match decimal_sum(spent, cost) {
                    Some(total) => after == CostTotal::Sum(total),
                    None => after is OutOfRange,
                },
            }
        }),
{
    assert(logs.push(log).drop_last() =~= logs);
}

/// Whether a reservation of the key of `scope` is pending and lapses only after
/// `now`.
pub open spec fn is_held_at(row: ReservationView, scope: Scope, now: int) -> bool {
    &&& row.provider_id == scope.provider_id
    &&& row.app_type == scope.app_type
    &&& row.credential_fingerprint == scope.fingerprint
    &&& row.status == "pending"@
    &&& now < row.expires_at
}

/// One more reservation raises the totals by what it reserves, as long as it is
/// pending, belongs to the same key and has not lapsed; any other one changes
/// nothing.
pub proof fn law_reservation_adds_what_it_reserves(
    rows: Seq<ReservationView>,
    row: ReservationView,
    scope: Scope,
    now: int,
    held: Amount,
)
    ensures
        ({
            let before = pending_tokens(rows, scope, now);
            let after = pending_tokens(rows.push(row), scope, now);
            &&& !is_held_at(row, scope, now) ==> after == before && pending_cost(
                rows.push(row),
                scope,
                now,
            ) == pending_cost(rows, scope, now)
            &&& is_held_at(row, scope, now) && i64::MIN <= before + row.reserved_tokens <= i64::MAX
                ==> after == before + row.reserved_tokens
            &&& is_held_at(row, scope, now) && before + row.reserved_tokens > i64::MAX ==> after
                == i64::MAX
            &&& is_held_at(row, scope, now) && before + row.reserved_tokens < i64::MIN ==> after
                == i64::MIN
            &&& is_held_at(row, scope, now) && pending_cost(rows, scope, now) == CostTotal::Sum(
                held,
            ) ==> match decimal_from_str(trimmed(row.reserved_cost_usd)) {
                Err(why) => pending_cost(rows.push(row), scope, now) == CostTotal::NotDecimal(why),
                Ok(cost) => match decimal_sum(held, cost) {
                    Some(total) => pending_cost(rows.push(row), scope, now) == CostTotal::Sum(
                        total,
                    ),
                    None => pending_cost(rows.push(row), scope, now) is OutOfRange,
                },
            }
        }),
{
    assert(rows.push(row).drop_last() =~= rows);
}

/// A reservation fits under a token limit exactly where the tokens used, those held
/// by others and its own stay within the limit together. What it costs does not
/// matter there.
pub proof fn law_fits_exactly_within_the_tokens(
    logs: Seq<RequestLogRow>,
    rows: Seq<ReservationView>,
    row: ReservationView,
    usage_start_at: int,
    limit: i64,
    cost_limit_usd: Option<Amount>,
    now: int,
    used: int,
    held: Amount,
)
    requires
        committed_tokens(
            logs,
            Scope {
                provider_id: row.provider_id,
                app_type: row.app_type,
                fingerprint: row.credential_fingerprint,
            },
            usage_start_at,
        ) == Some(used),
        pending_cost(rows, row.scope(), now) == CostTotal::Sum(held),
        i64::MIN <= used + pending_tokens(rows, row.scope(), now) <= i64::MAX,
        i64::MIN <= used + pending_tokens(rows, row.scope(), now) + row.reserved_tokens <= i64::MAX,
    ensures
        room(logs, rows, row, usage_start_at, Some(limit), cost_limit_usd, now) is Fits <==> used
            + pending_tokens(rows, row.scope(), now) + row.reserved_tokens <= limit,
        room(logs, rows, row, usage_start_at, Some(limit), cost_limit_usd, now) is Full <==> used
            + pending_tokens(rows, row.scope(), now) + row.reserved_tokens > limit,
{
}

/// A reservation fits under a money limit exactly where the sum of what is spent,
/// held by others and reserved by it is no more than the limit. Without any limit
/// nothing fits.
pub proof fn law_fits_exactly_within_the_money(
    logs: Seq<RequestLogRow>,
    rows: Seq<ReservationView>,
    row: ReservationView,
    usage_start_at: int,
    limit: Amount,
    now: int,
    used: int,
    spent: Amount,
    held: Amount,
    taken: Amount,
    cost: Amount,
    total: Amount,
)
    requires
        committed_tokens(logs, row.scope(), usage_start_at) == Some(used),
        committed_cost(logs, row.scope(), usage_start_at) == CostTotal::Sum(spent),
        pending_cost(rows, row.scope(), now) == CostTotal::Sum(held),
        decimal_sum(spent, held) == Some(taken),
        decimal_from_str(trimmed(row.reserved_cost_usd)) == Ok::<Amount, Seq<char>>(cost),
        decimal_sum(taken, cost) == Some(total),
    ensures
        room(logs, rows, row, usage_start_at, None, Some(limit), now) is Fits <==> total.units()
            <= limit.units(),
        room(logs, rows, row, usage_start_at, None, Some(limit), now) is Full <==> total.units()
            > limit.units(),
        room(logs, rows, row, usage_start_at, None, None, now) is Full,
{
}

/// Releasing ends the pending reservation of a request as of now and leaves all else
/// as it was, in the same order.
pub proof fn law_release_changes_status_alone(
    rows: Seq<ReservationView>,
    request_id: Seq<char>,
    now: int,
    i: int,
)
    requires
        0 <= i < rows.len(),
    ensures
        with_released(rows, request_id, now).len() == rows.len(),
        ({
            let before = rows[i];
            let after = with_released(rows, request_id, now)[i];
            &&& before.request_id == request_id && before.status == "pending"@ ==> after == (
            ReservationView { status: "released"@, updated_at: now, ..before })
            &&& before.request_id != request_id || before.status != "pending"@ ==> after == before
        }),
{
}

/// Reconciling records what the request of a pending reservation consumed, commits it
/// as of now, and leaves all else as it was: what was reserved and until when too.
pub proof fn law_reconcile_records_consumption_alone(
    rows: Seq<ReservationView>,
    request_id: Seq<char>,
    tokens: int,
    cost_usd: Seq<char>,
    now: int,
    i: int,
)
    requires
        0 <= i < rows.len(),
    ensures
        with_committed(rows, request_id, tokens, cost_usd, now).len() == rows.len(),
        ({
            let before = rows[i];
            let after = with_committed(rows, request_id, tokens, cost_usd, now)[i];
            &&& before.request_id == request_id && before.status == "pending"@ ==> {
                &&& after.status == "committed"@
                &&& after.consumed_tokens == tokens
                &&& after.consumed_cost_usd == cost_usd
                &&& after.updated_at == now
                &&& after.request_id == before.request_id
                &&& after.provider_id == before.provider_id
                &&& after.app_type == before.app_type
                &&& after.credential_fingerprint == before.credential_fingerprint
                &&& after.limit_type == before.limit_type
                &&& after.reserved_tokens == before.reserved_tokens
                &&& after.reserved_cost_usd == before.reserved_cost_usd
                &&& after.created_at == before.created_at
                &&& after.expires_at == before.expires_at
            }
            &&& before.request_id != request_id || before.status != "pending"@ ==> after == before
        }),
{
}

/// Clearing releases exactly the pending reservations whose time is over by now,
/// counts each of them once, and leaves all else as it was.
pub proof fn law_cleanup_releases_the_lapsed(rows: Seq<ReservationView>, now: int, i: int)
    requires
        0 <= i < rows.len(),
    ensures
        without_stale(rows, now).len() == rows.len(),
        ({
            let before = rows[i];
            let after = without_stale(rows, now)[i];
            let lapsed = before.status == "pending"@ && before.expires_at <= now;
            &&& lapsed ==> after == (ReservationView {
                status: "released"@,
                updated_at: now,
                ..before
            })
            &&& !lapsed ==> after == before
            &&& stale_count(rows.take(i + 1), now) == stale_count(rows.take(i), now) + (if lapsed {
                1int
            } else {
                0
            })
        }),
        stale_count(rows.take(0), now) == 0,
{
    assert(rows.take(i + 1).drop_last() =~= rows.take(i));
}

/// A reservation is in conflict with the tables exactly where its request has one
/// already or where they hold no provider with its identifier in its application.
pub proof fn law_conflicts(tables: Database, row: ReservationView)
    ensures
        tables.conflict(row) is None <==> (forall|i: int|
            0 <= i < tables.reservations@.len() ==> (
            #[trigger] tables.reservations@[i]).request_id@ != row.request_id) && (exists|i: int|
            0 <= i < tables.providers@.len() && (#[trigger] tables.providers@[i]).id@
                == row.provider_id && tables.providers@[i].app_type@ == row.app_type),
{
    if tables.has_request(row.request_id) {
        let i = choose|i: int|
            0 <= i < tables.rows().len() && (#[trigger] tables.rows()[i]).request_id
                == row.request_id;
        assert(tables.reservations@[i].request_id@ == row.request_id);
    } else {
        assert forall|i: int| 0 <= i < tables.reservations@.len() implies (
        #[trigger] tables.reservations@[i]).request_id@ != row.request_id by {
            assert(tables.rows()[i].request_id != row.request_id);
        }
    }
}

/// What a request used can be recorded exactly where it has a reservation that is
/// pending or committed: any such row will do, and a released one will not.
pub proof fn law_reconcile_needs_an_open_reservation(
    rows: Seq<ReservationView>,
    request_id: Seq<char>,
    i: int,
)
    ensures
        0 <= i < rows.len() && rows[i].request_id == request_id && (rows[i].status == "pending"@
            || rows[i].status == "committed"@) ==> reconcile_complaint(rows, request_id) is None,
        (forall|k: int|
            0 <= k < rows.len() ==> (#[trigger] rows[k]).request_id != request_id || (rows[k].status
                != "pending"@ && rows[k].status != "committed"@)) ==> reconcile_complaint(
            rows,
            request_id,
        ) == Some(AppErrorView::InvalidInput("预算 reservation 不存在或已结束: "@ + request_id)),
{
}

/// The reservations of a key add up to the sum of their tokens, and to the sum of their
/// costs without trailing zeros; a cost that is no decimal number is reported.
pub proof fn law_pending_is_reported_as_summed(
    rows: Seq<ReservationView>,
    scope: Scope,
    now: int,
    cost: Amount,
    why: Seq<char>,
)
    ensures
        pending_cost(rows, scope, now) == CostTotal::Sum(cost) ==> pending_report(rows, scope, now)
            == Some(
            Ok::<(int, Seq<char>), AppErrorView>(
                (pending_tokens(rows, scope, now), amount_text(normal_form(cost))),
            ),
        ),
        pending_cost(rows, scope, now) == CostTotal::NotDecimal(why) ==> pending_report(
            rows,
            scope,
            now,
        ) == Some(
            Err::<(int, Seq<char>), AppErrorView>(
                AppErrorView::Database("预算 reservation cost 不是十进制: "@ + why),
            ),
        ),
{
}

/// A second reservation of a request, and one of a provider that is not stored, fail as
/// the tables' own rules say; the former comes first.
pub proof fn law_conflicts_are_reported(tables: Database, row: ReservationView, i: int)
    ensures
        0 <= i < tables.reservations@.len() && tables.reservations@[i].request_id@
            == row.request_id ==> tables.conflict(row) == Some(
            AppErrorView::Database(
                "插入预算 reservation 失败: UNIQUE constraint failed: budget_reservations.request_id"@,
            ),
        ),
        !tables.has_request(row.request_id) && tables.conflict(row) is Some ==> tables.conflict(row)
            == Some(
            AppErrorView::Database("插入预算 reservation 失败: FOREIGN KEY constraint failed"@),
        ),
{
    if 0 <= i < tables.reservations@.len() {
        assert(tables.rows()[i].request_id == tables.reservations@[i].request_id@);
    }
}

/// Whether there is room cannot be told where the tokens used leave 64 bits, or where a
/// pending, spent or reserved cost is no decimal number; the failure names which it is.
pub proof fn law_room_failures(
    logs: Seq<RequestLogRow>,
    rows: Seq<ReservationView>,
    row: ReservationView,
    usage_start_at: int,
    token_limit: Option<i64>,
    limit: Amount,
    now: int,
    used: int,
    held: Amount,
    spent: Amount,
    taken: Amount,
    why: Seq<char>,
)
    ensures
        ({
            let counted = committed_tokens(logs, row.scope(), usage_start_at) == Some(used);
            let under_tokens = room(
                logs,
                rows,
                row,
                usage_start_at,
                token_limit,
                Some(limit),
                now,
            );
            let under_money = room(logs, rows, row, usage_start_at, None, Some(limit), now);
            &&& committed_tokens(logs, row.scope(), usage_start_at) is None ==> under_tokens
                == Room::Fails(
                AppErrorView::Database("聚合 reservation token 用量失败: integer overflow"@),
            )
            &&& counted && pending_cost(rows, row.scope(), now) == CostTotal::NotDecimal(why)
                ==> under_tokens == Room::Fails(
                AppErrorView::Database("pending cost 不是十进制: "@ + why),
            )
            &&& counted && pending_cost(rows, row.scope(), now) is OutOfRange ==> under_tokens
                == Room::OutOfRange
            &&& counted && pending_cost(rows, row.scope(), now) == CostTotal::Sum(held) ==> {
                &&& committed_cost(logs, row.scope(), usage_start_at) == CostTotal::NotDecimal(why)
                    ==> under_money == Room::Fails(
                    AppErrorView::Database("proxy cost 不是十进制: "@ + why),
                )
                &&& committed_cost(logs, row.scope(), usage_start_at) == CostTotal::Sum(spent)
                    && decimal_sum(spent, held) == Some(taken) && decimal_from_str(
                    trimmed(row.reserved_cost_usd),
                ) == Err::<Amount, Seq<char>>(why) ==> under_money == Room::Fails(
                    AppErrorView::Database("reservation cost 不是十进制: "@ + why),
                )
            }
        }),
{
}

/// Whether `clamped` is `n`, or the nearer end of 64 bits where `n` lies outside them.
pub open spec fn is_clamped(n: int, clamped: int) -> bool {
    &&& i64::MIN <= clamped <= i64::MAX
    &&& i64::MIN <= n <= i64::MAX ==> clamped == n
    &&& n > i64::MAX ==> clamped == i64::MAX
    &&& n < i64::MIN ==> clamped == i64::MIN
}

/// Sums of tokens stop at the ends of 64 bits: a reservation fits exactly where what is
/// used and held, and then with what it reserves, each so far as 64 bits go, is no more
/// than the limit.
pub proof fn law_token_sums_stop_at_the_ends(
    logs: Seq<RequestLogRow>,
    rows: Seq<ReservationView>,
    row: ReservationView,
    usage_start_at: int,
    limit: i64,
    cost_limit_usd: Option<Amount>,
    now: int,
    used: int,
    held: Amount,
    taken: int,
    total: int,
)
    requires
        committed_tokens(logs, row.scope(), usage_start_at) == Some(used),
        pending_cost(rows, row.scope(), now) == CostTotal::Sum(held),
        is_clamped(used + pending_tokens(rows, row.scope(), now), taken),
        is_clamped(taken + row.reserved_tokens, total),
    ensures
        room(logs, rows, row, usage_start_at, Some(limit), cost_limit_usd, now) is Fits <==> total
            <= limit,
        room(logs, rows, row, usage_start_at, Some(limit), cost_limit_usd, now) is Full <==> total
            > limit,
{
}

} // verus!
