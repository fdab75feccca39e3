//! Reserving room for a request before it is forwarded.
//!
//! As with the decision to forward, the functions here say what to ask the
//! storage next, and what to answer once the replies are in. Unlike there, a
//! failure of the storage stops the request.

use crate::decimal::{
    amount_text, at_most, decimal_difference, decimal_from_str, decimal_quotient, decimal_sum,
    difference, lemma_amount_text_trimmed, lemma_normal_form, lemma_units_sign, normal_form,
    normalize, parse_amount, print_amount, quotient, reads_as, subtracts_exactly, sum, Amount,
};
use crate::forward::{lenient_total, UsageQuery};
use crate::json::{integer_field, text_field, Json, JsonValue};
use crate::ledger::{
    committed_cost, committed_tokens, pending_cost, pending_tokens, room, saturated, saturating_add, saturating_sub,
    zero_amount, BudgetReservationRow, Database, PendingBudgetTotals, RequestLogRow,
    ReservationView,
};
use crate::ledger_laws::{costs_within, lemma_committed_range, lemma_pending_push, lemma_pending_range};
use crate::limit::{exchange_rate, LimitCurrency, LimitType};
use crate::limit_row::{ApiKeyLimitRow, LimitRowView};
use crate::rejection::{
    build_money_rejection, build_token_rejection, coded_rejection, config_rejection,
    money_rejection, reject_config, reject_storage, reject_with_code, storage_rejection,
    token_rejection, BudgetRejection, RejectionView,
};
use crate::text::{same_text, signed_of, signed_value, text_of, trim, trimmed};
use vstd::prelude::*;

verus! {

/// The seconds after which a reservation that was never closed lapses.
pub const BUDGET_RESERVATION_TTL_SECONDS: i64 = 300;

/// Room in a budget that a request holds while it is under way.
#[derive(Clone, Debug, PartialEq, Eq)]
pub struct BudgetReservation {
    pub request_id: String,
    pub provider_id: String,
    pub app_type: String,
    pub credential_fingerprint: String,
    pub limit_type: LimitType,
    pub reserved_tokens: i64,
    pub reserved_cost_usd: String,
    pub expires_at: i64,
}

/// A [`BudgetReservation`] with its texts as sequences of characters.
pub struct HeldView {
    pub request_id: Seq<char>,
    pub provider_id: Seq<char>,
    pub app_type: Seq<char>,
    pub credential_fingerprint: Seq<char>,
    pub limit_type: LimitType,
    pub reserved_tokens: int,
    pub reserved_cost_usd: Seq<char>,
    pub expires_at: int,
}

impl View for BudgetReservation {
    type V = HeldView;

    open spec fn view(&self) -> HeldView {
        HeldView {
            request_id: self.request_id@,
            provider_id: self.provider_id@,
            app_type: self.app_type@,
            credential_fingerprint: self.credential_fingerprint@,
            limit_type: self.limit_type,
            reserved_tokens: self.reserved_tokens as int,
            reserved_cost_usd: self.reserved_cost_usd@,
            expires_at: self.expires_at as int,
        }
    }
}

/// The order to store a reservation if it has room.
#[derive(Debug)]
pub struct InsertOrder {
    pub row: BudgetReservationRow,
    pub usage_start_at: i64,
    pub token_limit: Option<i64>,
    pub cost_limit_usd: Option<Amount>,
}

/// A question to the storage, or an order, on behalf of a reservation.
#[derive(Debug)]
pub enum ReserveAction {
    ReadLimit,
    /// Tie the limit to the key with this fingerprint, and start its window now.
    Rebind { fingerprint: String, now: i64 },
    /// Start the window anew if its interval is over now.
    RollWindow { now: i64 },
    ReadLimitAfterRoll,
    /// Release the reservations that have lapsed by now.
    CleanUp { now: i64 },
    /// The tokens that a key used.
    ReadUsage(UsageQuery),
    /// The stored exchange rate.
    ReadRate,
    /// The costs in US dollars of the requests of a key.
    ReadCosts(UsageQuery),
    /// The reservations of a key that are active now, added up.
    ReadPending { fingerprint: String, now: i64 },
    /// The input tokens of the request.
    CountInput,
    /// Whether the price of the model that the request names is safely known.
    ReadPrice { model: Option<String> },
    Insert(InsertOrder),
}

/// A [`ReserveAction`] with its texts as sequences of characters.
pub enum ReserveQuestion {
    ReadLimit,
    Rebind { fingerprint: Seq<char>, now: i64 },
    RollWindow { now: i64 },
    ReadLimitAfterRoll,
    CleanUp { now: i64 },
    ReadUsage { fingerprint: Seq<char>, since: i64 },
    ReadRate,
    ReadCosts { fingerprint: Seq<char>, since: i64 },
    ReadPending { fingerprint: Seq<char>, now: i64 },
    CountInput,
    ReadPrice { model: Option<Seq<char>> },
    Insert {
        row: ReservationView,
        usage_start_at: i64,
        token_limit: Option<i64>,
        cost_limit_usd: Option<Amount>,
    },
}

impl View for ReserveAction {
    type V = ReserveQuestion;

    open spec fn view(&self) -> ReserveQuestion {
        match self {
            ReserveAction::ReadLimit => ReserveQuestion::ReadLimit,
            ReserveAction::Rebind { fingerprint, now } => ReserveQuestion::Rebind {
                fingerprint: fingerprint@,
                now: *now,
            },
            ReserveAction::RollWindow { now } => ReserveQuestion::RollWindow { now: *now },
            ReserveAction::ReadLimitAfterRoll => ReserveQuestion::ReadLimitAfterRoll,
            ReserveAction::CleanUp { now } => ReserveQuestion::CleanUp { now: *now },
            ReserveAction::ReadUsage(q) => ReserveQuestion::ReadUsage {
                fingerprint: q.fingerprint@,
                since: q.since,
            },
            ReserveAction::ReadRate => ReserveQuestion::ReadRate,
            ReserveAction::ReadCosts(q) => ReserveQuestion::ReadCosts {
                fingerprint: q.fingerprint@,
                since: q.since,
            },
            ReserveAction::ReadPending { fingerprint, now } => ReserveQuestion::ReadPending {
                fingerprint: fingerprint@,
                now: *now,
            },
            ReserveAction::CountInput => ReserveQuestion::CountInput,
            ReserveAction::ReadPrice { model } => ReserveQuestion::ReadPrice {
                model: text_of(*model),
            },
            ReserveAction::Insert(order) => ReserveQuestion::Insert {
                row: order.row@,
                usage_start_at: order.usage_start_at,
                token_limit: order.token_limit,
                cost_limit_usd: order.cost_limit_usd,
            },
        }
    }
}

/// The replies to a reservation, as far as they are in. An error is given by its
/// text.
#[derive(Debug)]
pub struct ReserveReplies {
    pub limit: Option<Result<Option<ApiKeyLimitRow>, String>>,
    pub rebound: Option<Result<bool, String>>,
    pub rolled: Option<Result<bool, String>>,
    pub limit_after_roll: Option<Result<Option<ApiKeyLimitRow>, String>>,
    /// Cleaning up was tried; how it went does not matter.
    pub cleaned: bool,
    pub usage: Option<Result<i64, String>>,
    pub rate_setting: Option<Result<Option<String>, String>>,
    pub costs: Option<Result<Vec<String>, String>>,
    pub pending: Option<Result<PendingBudgetTotals, String>>,
    /// The input tokens of the request; nothing inside where they are not reliably
    /// known.
    pub input_tokens: Option<Option<i64>>,
    pub price_known: Option<Result<bool, String>>,
    pub inserted: Option<Result<bool, String>>,
}

impl ReserveReplies {
    /// No reply yet.
    pub fn none() -> (r: ReserveReplies)
        ensures
            r.limit is None,
            r.rebound is None,
            r.rolled is None,
            r.limit_after_roll is None,
            !r.cleaned,
            r.usage is None,
            r.rate_setting is None,
            r.costs is None,
            r.pending is None,
            r.input_tokens is None,
            r.price_known is None,
            r.inserted is None,
    {
        ReserveReplies {
            limit: None,
            rebound: None,
            rolled: None,
            limit_after_roll: None,
            cleaned: false,
            usage: None,
            rate_setting: None,
            costs: None,
            pending: None,
            input_tokens: None,
            price_known: None,
            inserted: None,
        }
    }
}

pub open spec fn positive(n: Option<int>) -> Option<int> {
    match n {
        Some(k) if k > 0 => Some(k),
        _ => None,
    }
}

/// The output tokens that a request declares as its ceiling: the larger one where
/// it declares two.
pub open spec fn declared_ceiling(request: Json) -> Option<int> {
    match (
        positive(integer_field(request, "max_tokens"@)),
        positive(integer_field(request, "max_output_tokens"@)),
    ) {
        (Some(a), Some(b)) => Some(
            if a >= b {
                a
            } else {
                b
            },
        ),
        (Some(a), None) => Some(a),
        (None, b) => b,
    }
}

/// The output tokens to reserve: the declared ceiling, which is never cut to what
/// remains, or all that remains.
pub open spec fn requested_tokens(request: Json, remaining: int) -> int {
    match declared_ceiling(request) {
        Some(ceiling) => ceiling,
        None => remaining,
    }
}

/// The input tokens that count beside a declared ceiling: those that are reliably
/// known.
pub open spec fn counted_input(request: Json, input: Option<i64>) -> int {
    match (declared_ceiling(request), input) {
        (Some(_), Some(n)) if n > 0 => n as int,
        _ => 0,
    }
}

/// The tokens that a request needs: its known input and its declared ceiling
/// together, or all that remains where it declares none.
pub open spec fn needed_tokens(request: Json, input: Option<i64>, remaining: int) -> int {
    requested_tokens(request, remaining) + counted_input(request, input)
}

fn positive_field(request: &JsonValue, name: &str) -> (r: Option<i64>)
    ensures
        match r {
            Some(n) => positive(integer_field(request@, name@)) == Some(n as int),
            None => positive(integer_field(request@, name@)) is None,
        },
{
    match request.integer(name) {
        Some(n) => if n > 0 {
            Some(n)
        } else {
            None
        },
        None => None,
    }
}

/// The output tokens to reserve for a request where `remaining` tokens are left.
pub fn requested_token_reservation(request: &JsonValue, remaining: i64) -> (r: i64)
    ensures
        r == requested_tokens(request@, remaining as int),
{
    match (positive_field(request, "max_tokens"), positive_field(request, "max_output_tokens")) {
        (Some(a), Some(b)) => if a >= b {
            a
        } else {
            b
        },
        (Some(a), None) => a,
        (None, Some(b)) => b,
        (None, None) => remaining,
    }
}

fn declares_ceiling(request: &JsonValue) -> (r: bool)
    ensures
        r == (declared_ceiling(request@) is Some),
{
    positive_field(request, "max_tokens").is_some() || positive_field(
        request,
        "max_output_tokens",
    ).is_some()
}

/// What a reservation is to claim.
pub struct Claim {
    pub limit_type: LimitType,
    pub tokens: int,
    pub cost_usd: Seq<char>,
    pub token_limit: Option<i64>,
    pub cost_limit_usd: Option<Amount>,
}

/// How far a claim has been worked out.
pub enum Plan {
    /// It takes another reply.
    Ask(ReserveQuestion),
    Refuse(RejectionView),
    /// A sum, difference or quotient of amounts leaves their range.
    OutOfRange,
    Claim(Claim),
}

/// What remains of a token limit.
pub open spec fn remaining_tokens(limit: int, used: int, pending: int) -> int {
    saturated(saturated(limit - used) - pending)
}

/// The claim under a token limit once usage and pending reservations are known.
/// Input is counted only beside a declared ceiling.
pub open spec fn token_claim(
    request: Json,
    input_tokens: Option<Option<i64>>,
    limit: i64,
    used: int,
    pending: int,
) -> Plan {
    let remaining = remaining_tokens(limit as int, used, pending);
    let refusal = Plan::Refuse(token_rejection(saturated(used + pending), limit as int));
    if remaining <= 0 {
        refusal
    } else if declared_ceiling(request) is Some && input_tokens is None {
        Plan::Ask(ReserveQuestion::CountInput)
    } else {
        let needed = needed_tokens(request, known_input(input_tokens), remaining);
        if needed > remaining {
            refusal
        } else {
            Plan::Claim(
                Claim {
                    limit_type: LimitType::Token,
                    tokens: needed,
                    cost_usd: "0"@,
                    token_limit: Some(limit),
                    cost_limit_usd: None,
                },
            )
        }
    }
}

pub open spec fn known_input(reply: Option<Option<i64>>) -> Option<i64> {
    match reply {
        Some(input) => input,
        None => None,
    }
}

pub open spec fn token_plan(
    row: LimitRowView,
    fingerprint: Seq<char>,
    request: Json,
    now: i64,
    seen: ReserveReplies,
) -> Plan {
    match (signed_value(row.limit_amount), seen.usage, seen.pending) {
        (None, _, _) => Plan::Refuse(config_rejection("限额 Token 数非法: "@, row.limit_amount)),
        (Some(_), None, _) => Plan::Ask(
            ReserveQuestion::ReadUsage { fingerprint, since: row.usage_start_at },
        ),
        (Some(_), Some(Err(e)), _) => Plan::Refuse(
            storage_rejection("无法计算预算用量: "@, e@),
        ),
        (Some(_), Some(Ok(_)), None) => Plan::Ask(
            ReserveQuestion::ReadPending { fingerprint, now },
        ),
        (Some(_), Some(Ok(_)), Some(Err(e))) => Plan::Refuse(
            storage_rejection("无法计算预算 reservation: "@, e@),
        ),
        (Some(limit), Some(Ok(used)), Some(Ok(pending))) => token_claim(
            request,
            seen.input_tokens,
            limit as i64,
            used as int,
            pending.tokens as int,
        ),
    }
}

/// A limit in US dollars, at an exchange rate.
pub open spec fn limit_in_usd(limit: Amount, currency: LimitCurrency, rate: Amount) -> Option<
    Amount,
> {
    match currency {
        LimitCurrency::Usd => Some(limit),
        LimitCurrency::Cny => decimal_quotient(limit, rate),
    }
}

/// What remains of a money limit.
pub open spec fn remaining_usd(limit_usd: Amount, used: Amount, pending: Amount) -> Option<Amount> {
    match decimal_difference(limit_usd, used) {
        None => None,
        Some(left) => decimal_difference(left, pending),
    }
}

/// The refusal of a request whose price is not safely known.
pub open spec fn pricing_rejection() -> RejectionView {
    coded_rejection("无法确定请求模型的定价，金额限额下不转发"@, "PRICING_UNAVAILABLE"@)
}

/// The claim under a money limit once usage and pending reservations are known:
/// all that remains, since nothing bounds the cost of a request beforehand. A
/// request whose price is not safely known claims nothing.
pub open spec fn money_claim(
    limit: Amount,
    currency: LimitCurrency,
    limit_usd: Amount,
    used: Amount,
    pending: Amount,
    model: Option<Seq<char>>,
    price_known: Option<Result<bool, String>>,
) -> Plan {
    match remaining_usd(limit_usd, used, pending) {
        None => Plan::OutOfRange,
        Some(remaining) => if remaining.units() <= 0 {
            match decimal_sum(used, pending) {
                None => Plan::OutOfRange,
                Some(taken) => Plan::Refuse(money_rejection(taken, limit, currency)),
            }
        } else {
            match price_known {
                None => Plan::Ask(ReserveQuestion::ReadPrice { model }),
                Some(Err(e)) => Plan::Refuse(storage_rejection("无法读取模型定价: "@, e@)),
                Some(Ok(false)) => Plan::Refuse(pricing_rejection()),
                Some(Ok(true)) => Plan::Claim(
                    Claim {
                        limit_type: LimitType::Money,
                        tokens: 0,
                        cost_usd: amount_text(normal_form(remaining)),
                        token_limit: None,
                        cost_limit_usd: Some(limit_usd),
                    },
                ),
            }
        },
    }
}

/// The cost of pending reservations; nothing where it is no decimal number.
pub open spec fn pending_usd(totals: PendingBudgetTotals) -> Amount {
    match decimal_from_str(totals.cost_usd@) {
        Ok(a) => a,
        Err(_) => zero_amount(),
    }
}

pub open spec fn money_plan(
    row: LimitRowView,
    fingerprint: Seq<char>,
    request: Json,
    now: i64,
    seen: ReserveReplies,
) -> Plan {
    match (decimal_from_str(trimmed(row.limit_amount)), seen.rate_setting) {
        (Err(_), _) => Plan::Refuse(config_rejection("限额金额非法: "@, row.limit_amount)),
        (Ok(_), None) => Plan::Ask(ReserveQuestion::ReadRate),
        (Ok(_), Some(Err(e))) => Plan::Refuse(
            storage_rejection("无法读取 USD/CNY 汇率: "@, e@),
        ),
        (Ok(limit), Some(Ok(setting))) => match limit_in_usd(
            limit,
            row.money_currency(),
            exchange_rate(text_of(setting)),
        ) {
            None => Plan::OutOfRange,
            Some(limit_usd) => spent_plan(
                row,
                fingerprint,
                request,
                now,
                limit,
                limit_usd,
                seen,
            ),
        },
    }
}

/// The plan under a money limit once the limit is known in US dollars.
pub open spec fn spent_plan(
    row: LimitRowView,
    fingerprint: Seq<char>,
    request: Json,
    now: i64,
    limit: Amount,
    limit_usd: Amount,
    seen: ReserveReplies,
) -> Plan {
    match seen.costs {
        None => Plan::Ask(
            ReserveQuestion::ReadCosts { fingerprint, since: row.usage_start_at },
        ),
        Some(Err(e)) => Plan::Refuse(storage_rejection("无法计算预算用量: "@, e@)),
        Some(Ok(costs)) => match (lenient_total(costs@), seen.pending) {
            (None, _) => Plan::OutOfRange,
            (Some(_), None) => Plan::Ask(ReserveQuestion::ReadPending { fingerprint, now }),
            (Some(_), Some(Err(e))) => Plan::Refuse(
                storage_rejection("无法计算预算 reservation: "@, e@),
            ),
            (Some(used), Some(Ok(totals))) => money_claim(
                limit,
                row.money_currency(),
                limit_usd,
                used,
                pending_usd(totals),
                text_field(request, "model"@),
                seen.price_known,
            ),
        },
    }
}

/// What to claim under a stored limit.
pub open spec fn plan(
    row: LimitRowView,
    fingerprint: Seq<char>,
    request: Json,
    now: i64,
    seen: ReserveReplies,
) -> Plan {
    match LimitType::named(row.limit_type) {
        None => Plan::Refuse(config_rejection("限额类型非法: "@, row.limit_type)),
        Some(LimitType::Token) => token_plan(row, fingerprint, request, now, seen),
        Some(LimitType::Money) => money_plan(row, fingerprint, request, now, seen),
    }
}

/// A [`Claim`] to be stored.
#[derive(Debug)]
pub struct ClaimOrder {
    pub limit_type: LimitType,
    pub tokens: i64,
    pub cost_usd: String,
    pub token_limit: Option<i64>,
    pub cost_limit_usd: Option<Amount>,
}

impl View for ClaimOrder {
    type V = Claim;

    open spec fn view(&self) -> Claim {
        Claim {
            limit_type: self.limit_type,
            tokens: self.tokens as int,
            cost_usd: self.cost_usd@,
            token_limit: self.token_limit,
            cost_limit_usd: self.cost_limit_usd,
        }
    }
}

/// What comes of working out a claim.
#[derive(Debug)]
pub enum PlanStep {
    Ask(ReserveAction),
    Refuse(BudgetRejection),
    OutOfRange,
    Claim(ClaimOrder),
}

impl View for PlanStep {
    type V = Plan;

    open spec fn view(&self) -> Plan {
        match self {
            PlanStep::Ask(action) => Plan::Ask(action@),
            PlanStep::Refuse(rejection) => Plan::Refuse(rejection@),
            PlanStep::OutOfRange => Plan::OutOfRange,
            PlanStep::Claim(claim) => Plan::Claim(claim@),
        }
    }
}

fn plan_tokens(
    row: &ApiKeyLimitRow,
    fingerprint: &str,
    request: &JsonValue,
    now: i64,
    seen: &ReserveReplies,
) -> (r: PlanStep)
    ensures
        r@ == token_plan(row@, fingerprint@, request@, now, *seen),
{
    let limit: i64 = match signed_of(row.limit_amount.as_str()) {
        Some(n) => n,
        None => {
            return PlanStep::Refuse(reject_config("限额 Token 数非法: ", row.limit_amount.as_str()));
        },
    };
    let used: i64 = match &seen.usage {
        None => {
            return PlanStep::Ask(
                ReserveAction::ReadUsage(UsageQuery::new(fingerprint, row.usage_start_at)),
            );
        },
        Some(Err(e)) => {
            return PlanStep::Refuse(reject_storage("无法计算预算用量: ", e.as_str()));
        },
        Some(Ok(n)) => *n,
    };
    let pending: i64 = match &seen.pending {
        None => {
            return PlanStep::Ask(
                ReserveAction::ReadPending { fingerprint: fingerprint.to_owned(), now },
            );
        },
        Some(Err(e)) => {
            return PlanStep::Refuse(reject_storage("无法计算预算 reservation: ", e.as_str()));
        },
        Some(Ok(totals)) => totals.tokens,
    };
    let remaining: i64 = saturating_sub(saturating_sub(limit, used), pending);
    if remaining <= 0 {
        return PlanStep::Refuse(build_token_rejection(saturating_add(used, pending), limit));
    }
    let input: i64 = if !declares_ceiling(request) {
        0
    } else {
        match seen.input_tokens {
            None => {
                return PlanStep::Ask(ReserveAction::CountInput);
            },
            Some(Some(n)) => if n > 0 {
                n
            } else {
                0
            },
            Some(None) => 0,
        }
    };
    let needed: i128 = requested_token_reservation(request, remaining) as i128 + input as i128;
    if needed > remaining as i128 {
        return PlanStep::Refuse(build_token_rejection(saturating_add(used, pending), limit));
    }
    PlanStep::Claim(
        ClaimOrder {
            limit_type: LimitType::Token,
            tokens: needed as i64,
            cost_usd: "0".to_owned(),
            token_limit: Some(limit),
            cost_limit_usd: None,
        },
    )
}

/// Whether a reserved cost is what remains of a limit: it reads back as a
/// positive amount that makes up the limit together with what is used and
/// pending, as far as these can be subtracted without rounding.
pub open spec fn is_what_remains(
    reserved: Seq<char>,
    limit_usd: Amount,
    used: Amount,
    pending: Amount,
) -> bool {
    decimal_from_str(trimmed(reserved)) matches Ok(amount) && amount.units() > 0 && (
    decimal_difference(limit_usd, used) matches Some(left) && (subtracts_exactly(limit_usd, used)
        && subtracts_exactly(left, pending) ==> used.units() + pending.units() + amount.units()
        == limit_usd.units()))
}

/// Whether a money claim was worked out from the replies that are in.
pub open spec fn claims_what_remains(
    reserved: Seq<char>,
    limit_usd: Amount,
    seen: ReserveReplies,
) -> bool {
    &&& seen.costs matches Some(Ok(costs))
    &&& seen.pending matches Some(Ok(totals))
    &&& lenient_total(costs@) matches Some(used)
    &&& is_what_remains(reserved, limit_usd, used, pending_usd(totals))
}

fn plan_money(
    row: &ApiKeyLimitRow,
    fingerprint: &str,
    request: &JsonValue,
    now: i64,
    seen: &ReserveReplies,
) -> (r: PlanStep)
    ensures
        r@ == money_plan(row@, fingerprint@, request@, now, *seen),
        r matches PlanStep::Claim(claim) ==> (claim.cost_limit_usd matches Some(limit_usd)
            && limit_usd.wf() && claims_what_remains(claim.cost_usd@, limit_usd, *seen)),
{
    let currency: LimitCurrency = row.currency_of_money();
    let limit: Amount = match parse_amount(trim(row.limit_amount.as_str())) {
        Ok(a) => a,
        Err(_) => {
            return PlanStep::Refuse(reject_config("限额金额非法: ", row.limit_amount.as_str()));
        },
    };
    let rate: Amount = match &seen.rate_setting {
        None => {
            return PlanStep::Ask(ReserveAction::ReadRate);
        },
        Some(Err(e)) => {
            return PlanStep::Refuse(reject_storage("无法读取 USD/CNY 汇率: ", e.as_str()));
        },
        Some(Ok(setting)) => match Database::rate_of_setting(setting) {
            Ok(a) => a,
            Err(_) => {
                return PlanStep::OutOfRange;
            },
        },
    };
    proof {
        lemma_units_sign(rate);
    }
    let limit_usd: Amount = match currency {
        LimitCurrency::Usd => limit,
        LimitCurrency::Cny => match quotient(&limit, &rate) {
            Some(a) => a,
            None => {
                return PlanStep::OutOfRange;
            },
        },
    };
    plan_spending(row, fingerprint, request, now, &limit, &limit_usd, seen)
}

/// Works out the claim under a money limit that is known in US dollars too.
pub fn plan_spending(
    row: &ApiKeyLimitRow,
    fingerprint: &str,
    request: &JsonValue,
    now: i64,
    limit: &Amount,
    limit_usd: &Amount,
    seen: &ReserveReplies,
) -> (r: PlanStep)
    requires
        limit.wf(),
        limit_usd.wf(),
    ensures
        r@ == spent_plan(row@, fingerprint@, request@, now, *limit, *limit_usd, *seen),
        r matches PlanStep::Claim(claim) ==> claim.cost_limit_usd == Some(*limit_usd)
            && claims_what_remains(claim.cost_usd@, *limit_usd, *seen),
{
    let currency: LimitCurrency = row.currency_of_money();
    let used: Amount = match &seen.costs {
        None => {
            return PlanStep::Ask(
                ReserveAction::ReadCosts(UsageQuery::new(fingerprint, row.usage_start_at)),
            );
        },
        Some(Err(e)) => {
            return PlanStep::Refuse(reject_storage("无法计算预算用量: ", e.as_str()));
        },
        Some(Ok(costs)) => match Database::sum_credential_costs_exact(costs) {
            Some(a) => a,
            None => {
                return PlanStep::OutOfRange;
            },
        },
    };
    let pending: Amount = match &seen.pending {
        None => {
            return PlanStep::Ask(
                ReserveAction::ReadPending { fingerprint: fingerprint.to_owned(), now },
            );
        },
        Some(Err(e)) => {
            return PlanStep::Refuse(reject_storage("无法计算预算 reservation: ", e.as_str()));
        },
        Some(Ok(totals)) => match parse_amount(totals.cost_usd.as_str()) {
            Ok(a) => a,
            Err(_) => Amount::whole(0),
        },
    };
    let left: Amount = match difference(limit_usd, &used) {
        Some(a) => a,
        None => {
            return PlanStep::OutOfRange;
        },
    };
    let remaining: Amount = match difference(&left, &pending) {
        Some(a) => a,
        None => {
            return PlanStep::OutOfRange;
        },
    };
    proof {
        lemma_units_sign(zero_amount());
    }
    if at_most(&remaining, &Amount::whole(0)) {
        return match sum(&used, &pending) {
            Some(taken) => PlanStep::Refuse(build_money_rejection(&taken, limit, currency)),
            None => PlanStep::OutOfRange,
        };
    }
    match &seen.price_known {
        None => {
            return PlanStep::Ask(ReserveAction::ReadPrice { model: request.text("model") });
        },
        Some(Err(e)) => {
            return PlanStep::Refuse(reject_storage("无法读取模型定价: ", e.as_str()));
        },
        Some(Ok(false)) => {
            return PlanStep::Refuse(
                reject_with_code(
                    "无法确定请求模型的定价，金额限额下不转发".to_owned(),
                    "PRICING_UNAVAILABLE",
                ),
            );
        },
        Some(Ok(true)) => {},
    }
    proof {
        lemma_normal_form(remaining);
        lemma_amount_text_trimmed(normal_form(remaining));
    }
    let cost_usd: String = print_amount(&normalize(&remaining));
    assert(decimal_from_str(trimmed(cost_usd@)) == reads_as(normal_form(remaining)));
    PlanStep::Claim(
        ClaimOrder {
            limit_type: LimitType::Money,
            tokens: 0,
            cost_usd,
            token_limit: None,
            cost_limit_usd: Some(*limit_usd),
        },
    )
}

/// What a reservation is for.
pub struct Purpose {
    pub request_id: Seq<char>,
    pub provider_id: Seq<char>,
    pub app_type: Seq<char>,
    pub fingerprint: Seq<char>,
}

impl Purpose {
    /// The row that a claim made at the time `now` becomes.
    pub open spec fn row(self, claim: Claim, now: int) -> ReservationView {
        ReservationView {
            request_id: self.request_id,
            provider_id: self.provider_id,
            app_type: self.app_type,
            credential_fingerprint: self.fingerprint,
            limit_type: claim.limit_type.name(),
            reserved_tokens: claim.tokens,
            reserved_cost_usd: claim.cost_usd,
            consumed_tokens: 0,
            consumed_cost_usd: "0"@,
            status: "pending"@,
            created_at: now,
            updated_at: now,
            expires_at: saturated(now + BUDGET_RESERVATION_TTL_SECONDS),
        }
    }

    /// The reservation that a claim made at the time `now` becomes.
    pub open spec fn held(self, claim: Claim, now: int) -> HeldView {
        HeldView {
            request_id: self.request_id,
            provider_id: self.provider_id,
            app_type: self.app_type,
            credential_fingerprint: self.fingerprint,
            limit_type: claim.limit_type,
            reserved_tokens: claim.tokens,
            reserved_cost_usd: claim.cost_usd,
            expires_at: saturated(now + BUDGET_RESERVATION_TTL_SECONDS),
        }
    }
}

/// How far a reservation has come.
pub enum Booking {
    /// It takes another reply.
    Ask(ReserveQuestion),
    /// No enabled limit holds, so nothing is reserved.
    Unlimited,
    Refuse(RejectionView),
    /// A sum, difference or quotient of amounts leaves their range.
    OutOfRange,
    Held(HeldView),
}

/// How far the limit is prepared for a claim.
pub enum Preparation {
    Ask(ReserveQuestion),
    Unlimited,
    Refuse(RejectionView),
    Limit(LimitRowView),
}

impl ReserveReplies {
    /// The enabled limit, tied to the key in use and with its current window, once
    /// lapsed reservations are cleared away.
    pub open spec fn prepared(self, fingerprint: Seq<char>, now: i64) -> Preparation {
        match self.limit {
            None => Preparation::Ask(ReserveQuestion::ReadLimit),
            Some(Err(e)) => Preparation::Refuse(
                storage_rejection("无法读取本地预算配置: "@, e@),
            ),
            Some(Ok(Some(row))) if row.enabled => if row.credential_fingerprint@ == fingerprint {
                self.rolled_limit(now)
            } else {
                match self.rebound {
                    None => Preparation::Ask(ReserveQuestion::Rebind { fingerprint, now }),
                    Some(Err(e)) => Preparation::Refuse(
                        storage_rejection("无法重绑 API Key 使用限额: "@, e@),
                    ),
                    Some(Ok(_)) => self.rolled_limit(now),
                }
            },
            Some(Ok(_)) => Preparation::Unlimited,
        }
    }

    pub open spec fn rolled_limit(self, now: i64) -> Preparation {
        match (self.rolled, self.limit_after_roll) {
            (None, _) => Preparation::Ask(ReserveQuestion::RollWindow { now }),
            (Some(Err(e)), _) => Preparation::Refuse(
                storage_rejection("无法自动重置预算窗口: "@, e@),
            ),
            (Some(Ok(_)), None) => Preparation::Ask(ReserveQuestion::ReadLimitAfterRoll),
            (Some(Ok(_)), Some(Err(e))) => Preparation::Refuse(
                storage_rejection("无法读取自动重置后的预算配置: "@, e@),
            ),
            (Some(Ok(_)), Some(Ok(None))) => Preparation::Refuse(
                coded_rejection("预算配置在自动重置过程中消失"@, "BUDGET_STORAGE_ERROR"@),
            ),
            (Some(Ok(_)), Some(Ok(Some(row)))) => if self.cleaned {
                Preparation::Limit(row@)
            } else {
                Preparation::Ask(ReserveQuestion::CleanUp { now })
            },
        }
    }

    /// What comes of a reservation made at the time `now`.
    pub open spec fn booking(self, purpose: Purpose, request: Json, now: i64) -> Booking {
        match self.prepared(purpose.fingerprint, now) {
            Preparation::Ask(question) => Booking::Ask(question),
            Preparation::Unlimited => Booking::Unlimited,
            Preparation::Refuse(rejection) => Booking::Refuse(rejection),
            Preparation::Limit(row) => match plan(row, purpose.fingerprint, request, now, self) {
                Plan::Ask(question) => Booking::Ask(question),
                Plan::Refuse(rejection) => Booking::Refuse(rejection),
                Plan::OutOfRange => Booking::OutOfRange,
                Plan::Claim(claim) => match self.inserted {
                    None => Booking::Ask(
                        ReserveQuestion::Insert {
                            row: purpose.row(claim, now as int),
                            usage_start_at: row.usage_start_at,
                            token_limit: claim.token_limit,
                            cost_limit_usd: claim.cost_limit_usd,
                        },
                    ),
                    Some(Err(e)) => Booking::Refuse(
                        storage_rejection("无法建立预算 reservation: "@, e@),
                    ),
                    Some(Ok(false)) => Booking::Refuse(
                        coded_rejection(
                            "并发请求已占用当前 API Key 的剩余额度"@,
                            "API_KEY_LIMIT_REACHED"@,
                        ),
                    ),
                    Some(Ok(true)) => Booking::Held(purpose.held(claim, now as int)),
                },
            },
        }
    }

    fn prepared_row(&self, fingerprint: &str, now: i64) -> (r: Prepared<'_>)
        ensures
            r.preparation() == self.prepared(fingerprint@, now),
    {
        let row: &ApiKeyLimitRow = match &self.limit {
            None => {
                return Prepared::Ask(ReserveAction::ReadLimit);
            },
            Some(Err(e)) => {
                return Prepared::Refuse(reject_storage("无法读取本地预算配置: ", e.as_str()));
            },
            Some(Ok(None)) => {
                return Prepared::Unlimited;
            },
            Some(Ok(Some(row))) => row,
        };
        if !row.enabled {
            return Prepared::Unlimited;
        }
        if !same_text(row.credential_fingerprint.as_str(), fingerprint) {
            match &self.rebound {
                None => {
                    return Prepared::Ask(
                        ReserveAction::Rebind { fingerprint: fingerprint.to_owned(), now },
                    );
                },
                Some(Err(e)) => {
                    return Prepared::Refuse(
                        reject_storage("无法重绑 API Key 使用限额: ", e.as_str()),
                    );
                },
                Some(Ok(_)) => {},
            }
        }
        match &self.rolled {
            None => {
                return Prepared::Ask(ReserveAction::RollWindow { now });
            },
            Some(Err(e)) => {
                return Prepared::Refuse(reject_storage("无法自动重置预算窗口: ", e.as_str()));
            },
            Some(Ok(_)) => {},
        }
        match &self.limit_after_roll {
            None => Prepared::Ask(ReserveAction::ReadLimitAfterRoll),
            Some(Err(e)) => Prepared::Refuse(
                reject_storage("无法读取自动重置后的预算配置: ", e.as_str()),
            ),
            Some(Ok(None)) => Prepared::Refuse(
                reject_with_code(
                    "预算配置在自动重置过程中消失".to_owned(),
                    "BUDGET_STORAGE_ERROR",
                ),
            ),
            Some(Ok(Some(current))) => if self.cleaned {
                Prepared::Limit(current)
            } else {
                Prepared::Ask(ReserveAction::CleanUp { now })
            },
        }
    }
}

enum Prepared<'a> {
    Ask(ReserveAction),
    Unlimited,
    Refuse(BudgetRejection),
    Limit(&'a ApiKeyLimitRow),
}

impl<'a> Prepared<'a> {
    spec fn preparation(self) -> Preparation {
        match self {
            Prepared::Ask(action) => Preparation::Ask(action@),
            Prepared::Unlimited => Preparation::Unlimited,
            Prepared::Refuse(rejection) => Preparation::Refuse(rejection@),
            Prepared::Limit(row) => Preparation::Limit(row@),
        }
    }
}

/// What comes of reserving room for a request.
#[derive(Debug)]
pub enum ReserveStep {
    Ask(ReserveAction),
    Answer(Result<Option<BudgetReservation>, BudgetRejection>),
    OutOfRange,
}

impl View for ReserveStep {
    type V = Booking;

    open spec fn view(&self) -> Booking {
        match self {
            ReserveStep::Ask(action) => Booking::Ask(action@),
            ReserveStep::Answer(Ok(Some(held))) => Booking::Held(held@),
            ReserveStep::Answer(Ok(None)) => Booking::Unlimited,
            ReserveStep::Answer(Err(rejection)) => Booking::Refuse(rejection@),
            ReserveStep::OutOfRange => Booking::OutOfRange,
        }
    }
}

impl Database {
    /// Reserves room for a request, or says what has to be asked first.
    ///
    /// Without an enabled limit nothing is reserved, and under a money limit nothing
    /// is reserved for a request whose price is not safely known. The order to insert
    /// leaves the last word to the ledger, which checks again whether there is room.
    pub fn reserve_budget_for_request(
        request_id: &str,
        provider_id: &str,
        app_type: &str,
        fingerprint: &str,
        request: &JsonValue,
        now: i64,
        seen: &ReserveReplies,
    ) -> (r: ReserveStep)
        ensures
            r@ == seen.booking(
                Purpose {
                    request_id: request_id@,
                    provider_id: provider_id@,
                    app_type: app_type@,
                    fingerprint: fingerprint@,
                },
                request@,
                now,
            ),
            r matches ReserveStep::Ask(ReserveAction::Insert(order)) ==> (
            order.cost_limit_usd matches Some(limit_usd) ==> limit_usd.wf() && claims_what_remains(
                order.row.reserved_cost_usd@,
                limit_usd,
                *seen,
            )),
    {
        let row: &ApiKeyLimitRow = match seen.prepared_row(fingerprint, now) {
            Prepared::Ask(action) => {
                return ReserveStep::Ask(action);
            },
            Prepared::Unlimited => {
                return ReserveStep::Answer(Ok(None));
            },
            Prepared::Refuse(rejection) => {
                return ReserveStep::Answer(Err(rejection));
            },
            Prepared::Limit(row) => row,
        };
        let planned: PlanStep = match LimitType::parse(row.limit_type.as_str()) {
            None => PlanStep::Refuse(reject_config("限额类型非法: ", row.limit_type.as_str())),
            Some(LimitType::Token) => plan_tokens(row, fingerprint, request, now, seen),
            Some(LimitType::Money) => plan_money(row, fingerprint, request, now, seen),
        };
        let claim: ClaimOrder = match planned {
            PlanStep::Ask(action) => {
                return ReserveStep::Ask(action);
            },
            PlanStep::Refuse(rejection) => {
                return ReserveStep::Answer(Err(rejection));
            },
            PlanStep::OutOfRange => {
                return ReserveStep::OutOfRange;
            },
            PlanStep::Claim(claim) => claim,
        };
        let expires_at: i64 = saturating_add(now, BUDGET_RESERVATION_TTL_SECONDS);
        match &seen.inserted {
            None => ReserveStep::Ask(
                ReserveAction::Insert(
                    InsertOrder {
                        row: BudgetReservationRow {
                            request_id: request_id.to_owned(),
                            provider_id: provider_id.to_owned(),
                            app_type: app_type.to_owned(),
                            credential_fingerprint: fingerprint.to_owned(),
                            limit_type: claim.limit_type.as_str().to_owned(),
                            reserved_tokens: claim.tokens,
                            reserved_cost_usd: claim.cost_usd,
                            consumed_tokens: 0,
                            consumed_cost_usd: "0".to_owned(),
                            status: "pending".to_owned(),
                            created_at: now,
                            updated_at: now,
                            expires_at,
                        },
                        usage_start_at: row.usage_start_at,
                        token_limit: claim.token_limit,
                        cost_limit_usd: claim.cost_limit_usd,
                    },
                ),
            ),
            Some(Err(e)) => ReserveStep::Answer(
                Err(reject_storage("无法建立预算 reservation: ", e.as_str())),
            ),
            Some(Ok(false)) => ReserveStep::Answer(
                Err(
                    reject_with_code(
                        "并发请求已占用当前 API Key 的剩余额度".to_owned(),
                        "API_KEY_LIMIT_REACHED",
                    ),
                ),
            ),
            Some(Ok(true)) => ReserveStep::Answer(
                Ok(
                    Some(
                        BudgetReservation {
                            request_id: request_id.to_owned(),
                            provider_id: provider_id.to_owned(),
                            app_type: app_type.to_owned(),
                            credential_fingerprint: fingerprint.to_owned(),
                            limit_type: claim.limit_type,
                            reserved_tokens: claim.tokens,
                            reserved_cost_usd: claim.cost_usd,
                            expires_at,
                        },
                    ),
                ),
            ),
        }
    }
}

impl ReserveReplies {
    /// Whether the reply to a question is in.
    pub open spec fn answered(self, question: ReserveQuestion) -> bool {
        match question {
            ReserveQuestion::ReadLimit => self.limit is Some,
            ReserveQuestion::Rebind { .. } => self.rebound is Some,
            ReserveQuestion::RollWindow { .. } => self.rolled is Some,
            ReserveQuestion::ReadLimitAfterRoll => self.limit_after_roll is Some,
            ReserveQuestion::CleanUp { .. } => self.cleaned,
            ReserveQuestion::ReadUsage { .. } => self.usage is Some,
            ReserveQuestion::ReadRate => self.rate_setting is Some,
            ReserveQuestion::ReadCosts { .. } => self.costs is Some,
            ReserveQuestion::ReadPending { .. } => self.pending is Some,
            ReserveQuestion::CountInput => self.input_tokens is Some,
            ReserveQuestion::ReadPrice { .. } => self.price_known is Some,
            ReserveQuestion::Insert { .. } => self.inserted is Some,
        }
    }
}

/// No question is asked again once its reply is in, so that a reservation ends.
pub proof fn law_reservation_asks_nothing_twice(
    seen: ReserveReplies,
    purpose: Purpose,
    request: Json,
    now: i64,
)
    ensures
        seen.booking(purpose, request, now) matches Booking::Ask(question) ==> !seen.answered(
            question,
        ),
{
}

/// What is claimed under a token limit is positive and fits beside what is used
/// and pending, whatever the replies are.
pub proof fn law_token_claim_fits(
    seen: ReserveReplies,
    purpose: Purpose,
    request: Json,
    now: i64,
    row: ReservationView,
    usage_start_at: i64,
    limit: i64,
    cost_limit_usd: Option<Amount>,
)
    requires
        seen.booking(purpose, request, now) == Booking::Ask(
            ReserveQuestion::Insert {
                row,
                usage_start_at,
                token_limit: Some(limit),
                cost_limit_usd,
            },
        ),
    ensures
        row.reserved_tokens > 0,
        seen.usage matches Some(Ok(used)) && seen.pending matches Some(Ok(totals)) && used
            + totals.tokens + row.reserved_tokens <= limit,
{
}

/// What remains of a limit is the limit without what is used and pending, as long
/// as no difference on the way leaves 64 bits.
pub proof fn law_remaining_is_limit_without_usage(limit: int, used: int, pending: int)
    requires
        i64::MIN <= limit - used <= i64::MAX,
        i64::MIN <= limit - used - pending <= i64::MAX,
    ensures
        remaining_tokens(limit, used, pending) == limit - used - pending,
{
}

/// A ceiling that a request declares is claimed in full, together with the input
/// that is known, or not at all.
pub proof fn law_declared_ceiling_is_never_cut(
    request: Json,
    input: Option<i64>,
    limit: i64,
    used: int,
    pending: int,
    ceiling: int,
)
    requires
        declared_ceiling(request) == Some(ceiling),
    ensures
        token_claim(request, Some(input), limit, used, pending) matches Plan::Claim(claim)
            ==> claim.tokens == ceiling + (if input matches Some(n) && n > 0 {
            input->0 as int
        } else {
            0
        }),
        ceiling > remaining_tokens(limit as int, used, pending) ==> token_claim(
            request,
            Some(input),
            limit,
            used,
            pending,
        ) is Refuse,
{
}

/// Without a ceiling all that remains is claimed, whatever the input is, so that
/// nothing is left for a request beside it.
pub proof fn law_undeclared_claims_everything(
    request: Json,
    input_tokens: Option<Option<i64>>,
    limit: i64,
    used: int,
    pending: int,
)
    requires
        declared_ceiling(request) is None,
        remaining_tokens(limit as int, used, pending) > 0,
    ensures
        token_claim(request, input_tokens, limit, used, pending) matches Plan::Claim(claim)
            && claim.tokens == remaining_tokens(limit as int, used, pending),
{
}

/// A request under a money limit whose price is not safely known holds nothing and
/// asks for no insertion. Where budget is left it is refused for want of a price.
pub proof fn law_unpriced_request_is_refused(
    seen: ReserveReplies,
    purpose: Purpose,
    request: Json,
    now: i64,
    row: LimitRowView,
)
    requires
        seen.prepared(purpose.fingerprint, now) == Preparation::Limit(row),
        LimitType::named(row.limit_type) == Some(LimitType::Money),
        seen.price_known == Some(Ok::<bool, String>(false)),
    ensures
        !(seen.booking(purpose, request, now) is Held),
        !(seen.booking(purpose, request, now) matches Booking::Ask(
            ReserveQuestion::Insert { .. },
        )),
        money_left(row, seen) ==> seen.booking(purpose, request, now) == Booking::Refuse(
            pricing_rejection(),
        ),
{
}

/// Whether the replies show that a money limit has budget left.
pub open spec fn money_left(row: LimitRowView, seen: ReserveReplies) -> bool {
    &&& decimal_from_str(trimmed(row.limit_amount)) matches Ok(limit)
    &&& seen.rate_setting matches Some(Ok(setting))
    &&& limit_in_usd(
        limit,
        row.money_currency(),
        exchange_rate(text_of(setting)),
    ) matches Some(limit_usd)
    &&& seen.costs matches Some(Ok(costs))
    &&& lenient_total(costs@) matches Some(used)
    &&& seen.pending matches Some(Ok(totals))
    &&& remaining_usd(limit_usd, used, pending_usd(totals)) matches Some(remaining)
    &&& remaining.units() > 0
}

/// Without an enabled limit nothing is reserved and nothing else is asked.
pub proof fn law_disabled_reserves_nothing(
    seen: ReserveReplies,
    purpose: Purpose,
    request: Json,
    now: i64,
)
    ensures
        seen.limit matches Some(Ok(None)) ==> seen.booking(purpose, request, now) is Unlimited,
        seen.limit matches Some(Ok(Some(row))) && !row.enabled ==> seen.booking(
            purpose,
            request,
            now,
        ) is Unlimited,
{
}

/// A request holds a reservation only if the limit, its window and the ledger
/// were all read and written without a failure.
pub proof fn law_failures_stop_the_reservation(
    seen: ReserveReplies,
    purpose: Purpose,
    request: Json,
    now: i64,
)
    requires
        seen.booking(purpose, request, now) is Held,
    ensures
        seen.limit matches Some(Ok(Some(row))) && row.enabled && (row.credential_fingerprint@
            == purpose.fingerprint || seen.rebound matches Some(Ok(_))),
        seen.rolled matches Some(Ok(_)),
        seen.limit_after_roll matches Some(Ok(Some(_))),
        seen.cleaned,
        seen.pending matches Some(Ok(_)),
        (seen.prepared(purpose.fingerprint, now) matches Preparation::Limit(row) && LimitType::named(
            row.limit_type,
        ) == Some(LimitType::Money)) ==> seen.price_known == Some(Ok::<bool, String>(true)),
        seen.inserted == Some(Ok::<bool, String>(true)),
{
}

/// A refusal gives away nothing of the request or its key: two reservations that
/// find the same limit and the same replies are refused in the same words.
pub proof fn law_refusal_names_no_key(
    seen: ReserveReplies,
    purpose1: Purpose,
    purpose2: Purpose,
    request: Json,
    now1: i64,
    now2: i64,
)
    requires
        seen.prepared(purpose1.fingerprint, now1) == seen.prepared(purpose2.fingerprint, now2),
        seen.booking(purpose1, request, now1) is Refuse,
    ensures
        seen.booking(purpose2, request, now2) == seen.booking(purpose1, request, now1),
{
}

/// What a request holds in the end is what the ledger was told to insert.
pub proof fn law_held_is_what_was_inserted(
    before: ReserveReplies,
    after: ReserveReplies,
    purpose: Purpose,
    request: Json,
    now: i64,
    row: ReservationView,
    usage_start_at: i64,
    token_limit: Option<i64>,
    cost_limit_usd: Option<Amount>,
)
    requires
        before.booking(purpose, request, now) == Booking::Ask(
            ReserveQuestion::Insert { row, usage_start_at, token_limit, cost_limit_usd },
        ),
        after == (ReserveReplies { inserted: Some(Ok::<bool, String>(true)), ..before }),
    ensures
        after.booking(purpose, request, now) matches Booking::Held(held) && held.request_id
            == row.request_id && held.provider_id == row.provider_id && held.app_type
            == row.app_type && held.credential_fingerprint == row.credential_fingerprint
            && held.limit_type.name() == row.limit_type && held.reserved_tokens
            == row.reserved_tokens && held.reserved_cost_usd == row.reserved_cost_usd
            && held.expires_at == row.expires_at,
        row.is_pending(),
{
}

/// A token claim that was worked out on replies which the ledger still agrees
/// with has room there: only a change in between can refuse it.
pub proof fn law_unchanged_ledger_admits_the_claim(
    seen: ReserveReplies,
    purpose: Purpose,
    request: Json,
    now: i64,
    row: ReservationView,
    usage_start_at: i64,
    limit: i64,
    cost_limit_usd: Option<Amount>,
    logs: Seq<RequestLogRow>,
    rows: Seq<ReservationView>,
    used: i64,
    totals: PendingBudgetTotals,
)
    requires
        seen.booking(purpose, request, now) == Booking::Ask(
            ReserveQuestion::Insert {
                row,
                usage_start_at,
                token_limit: Some(limit),
                cost_limit_usd,
            },
        ),
        seen.usage == Some(Ok::<i64, String>(used)),
        seen.pending == Some(Ok::<PendingBudgetTotals, String>(totals)),
        used >= 0,
        totals.tokens >= 0,
        committed_tokens(logs, row.scope(), usage_start_at as int) == Some(used as int),
        pending_tokens(rows, row.scope(), now as int) == totals.tokens,
        pending_cost(rows, row.scope(), now as int) is Sum,
    ensures
        room(logs, rows, row, usage_start_at as int, Some(limit), cost_limit_usd, now as int) is Fits,
{
    law_token_claim_fits(
        seen,
        purpose,
        request,
        now,
        row,
        usage_start_at,
        limit,
        cost_limit_usd,
    );
}

/// Two requests with one key that reserve tokens one after the other never hold the
/// same room. The ledger admits the second beside the first, which has not lapsed;
/// logged usage and everything that is held lie within the limit together. A limit
/// at the end of 64 bits is left out: sums stop there.
pub proof fn law_reservations_share_no_tokens(
    seen1: ReserveReplies,
    seen2: ReserveReplies,
    purpose1: Purpose,
    purpose2: Purpose,
    request1: Json,
    request2: Json,
    now1: i64,
    now2: i64,
    row1: ReservationView,
    row2: ReservationView,
    usage_start_at: i64,
    limit: i64,
    logs: Seq<RequestLogRow>,
    rows: Seq<ReservationView>,
)
    requires
        seen1.booking(purpose1, request1, now1) == Booking::Ask(
            ReserveQuestion::Insert {
                row: row1,
                usage_start_at,
                token_limit: Some(limit),
                cost_limit_usd: None,
            },
        ),
        seen2.booking(purpose2, request2, now2) == Booking::Ask(
            ReserveQuestion::Insert {
                row: row2,
                usage_start_at,
                token_limit: Some(limit),
                cost_limit_usd: None,
            },
        ),
        purpose1.provider_id == purpose2.provider_id,
        purpose1.app_type == purpose2.app_type,
        purpose1.fingerprint == purpose2.fingerprint,
        room(logs, rows, row1, usage_start_at as int, Some(limit), None, now1 as int) is Fits,
        room(
            logs,
            rows.push(row1),
            row2,
            usage_start_at as int,
            Some(limit),
            None,
            now2 as int,
        ) is Fits,
        now2 < row1.expires_at,
        limit < i64::MAX,
        committed_tokens(logs, row1.scope(), usage_start_at as int) matches Some(used) ==> used
            >= 0,
    ensures
        row1.reserved_tokens > 0,
        row2.reserved_tokens > 0,
        committed_tokens(logs, row1.scope(), usage_start_at as int) matches Some(used) && used
            + pending_tokens(rows, row1.scope(), now2 as int) + row1.reserved_tokens
            + row2.reserved_tokens <= limit && used + pending_tokens(
            rows.push(row1).push(row2),
            row1.scope(),
            now2 as int,
        ) <= limit,
{
    law_token_claim_fits(
        seen1,
        purpose1,
        request1,
        now1,
        row1,
        usage_start_at,
        limit,
        None,
    );
    law_token_claim_fits(
        seen2,
        purpose2,
        request2,
        now2,
        row2,
        usage_start_at,
        limit,
        None,
    );
    lemma_pending_push(rows, row1, row1.scope(), now2 as int);
    lemma_pending_push(rows.push(row1), row2, row1.scope(), now2 as int);
    lemma_pending_range(rows, row1.scope(), now2 as int);
    lemma_committed_range(logs, row1.scope(), usage_start_at as int);
}

/// Two requests with one key that reserve money one after the other never hold the
/// same room. The ledger admits the second beside the first, which has not lapsed;
/// what was spent and everything that is held add up to no more than the limit.
pub proof fn law_reservations_share_no_money(
    seen1: ReserveReplies,
    seen2: ReserveReplies,
    purpose1: Purpose,
    purpose2: Purpose,
    request1: Json,
    request2: Json,
    now1: i64,
    now2: i64,
    row1: ReservationView,
    row2: ReservationView,
    usage_start_at: i64,
    limit: Amount,
    logs: Seq<RequestLogRow>,
    rows: Seq<ReservationView>,
)
    requires
        seen1.booking(purpose1, request1, now1) == Booking::Ask(
            ReserveQuestion::Insert {
                row: row1,
                usage_start_at,
                token_limit: None,
                cost_limit_usd: Some(limit),
            },
        ),
        seen2.booking(purpose2, request2, now2) == Booking::Ask(
            ReserveQuestion::Insert {
                row: row2,
                usage_start_at,
                token_limit: None,
                cost_limit_usd: Some(limit),
            },
        ),
        purpose1.provider_id == purpose2.provider_id,
        purpose1.app_type == purpose2.app_type,
        purpose1.fingerprint == purpose2.fingerprint,
        room(logs, rows, row1, usage_start_at as int, None, Some(limit), now1 as int) is Fits,
        room(
            logs,
            rows.push(row1),
            row2,
            usage_start_at as int,
            None,
            Some(limit),
            now2 as int,
        ) is Fits,
        now2 < row1.expires_at,
    ensures
        costs_within(
            committed_cost(logs, row1.scope(), usage_start_at as int),
            pending_cost(rows, row1.scope(), now2 as int),
            row1.reserved_cost_usd,
            row2.reserved_cost_usd,
            limit,
        ),
{
    lemma_pending_push(rows, row1, row1.scope(), now2 as int);
}

} // verus!
