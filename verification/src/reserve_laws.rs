//! What every reservation keeps, said of the fields of the request, of the rows
//! that were read and of the row that is ordered to be inserted.

use crate::decimal::{
    amount_text, decimal_difference, decimal_from_str, decimal_quotient, decimal_sum, normal_form,
    Amount,
};
use crate::forward::lenient_total;
use crate::json::Json;
use crate::ledger::{PendingBudgetTotals, ReservationView};
use crate::ledger_laws::is_clamped;
use crate::limit::{exchange_rate, LimitCurrency};
use crate::limit_laws::lemma_names_differ;
use crate::limit_row::ApiKeyLimitRow;
use crate::rejection::{money_rejection, token_rejection, RejectionView};
use crate::rejection_laws::says;
use crate::reserve::{
    declared_ceiling, pending_usd, requested_tokens, Booking, Purpose, ReserveQuestion,
    ReserveReplies,
};
use crate::text::{signed_value, text_of, trimmed};
use vstd::prelude::*;

verus! {

/// Whether the field `name` of an object holds the whole number `n`.
pub open spec fn holds(fields: Map<Seq<char>, Json>, name: Seq<char>, n: int) -> bool {
    fields.contains_key(name) && fields[name] == Json::Integer(n)
}

/// Whether the field `name` of an object holds no positive whole number.
pub open spec fn holds_none(fields: Map<Seq<char>, Json>, name: Seq<char>) -> bool {
    forall|n: int| n > 0 ==> !#[trigger] holds(fields, name, n)
}

/// A positive whole number in one of the two fields for it is the ceiling of the
/// request, whichever field it is and whatever else the other one holds.
pub proof fn law_either_field_is_a_ceiling(
    fields: Map<Seq<char>, Json>,
    n: int,
    remaining: int,
)
    requires
        n > 0,
    ensures
        holds(fields, "max_tokens"@, n) && holds_none(fields, "max_output_tokens"@)
            ==> requested_tokens(Json::Object(fields), remaining) == n,
        holds(fields, "max_output_tokens"@, n) && holds_none(fields, "max_tokens"@)
            ==> requested_tokens(Json::Object(fields), remaining) == n,
{
    lemma_holds_none(fields, "max_tokens"@);
    lemma_holds_none(fields, "max_output_tokens"@);
}

/// Of two positive whole numbers the larger one is the ceiling, in whichever field
/// it stands.
pub proof fn law_larger_ceiling_counts(
    fields: Map<Seq<char>, Json>,
    a: int,
    b: int,
    remaining: int,
)
    requires
        a > 0,
        b > 0,
        holds(fields, "max_tokens"@, a),
        holds(fields, "max_output_tokens"@, b),
    ensures
        a >= b ==> requested_tokens(Json::Object(fields), remaining) == a,
        b >= a ==> requested_tokens(Json::Object(fields), remaining) == b,
{
}

/// A request without a positive whole number in either field, or one that is no
/// object, asks for all that remains.
pub proof fn law_without_ceiling_all_remains(request: Json, remaining: int)
    ensures
        (request matches Json::Object(fields) ==> holds_none(fields, "max_tokens"@) && holds_none(
            fields,
            "max_output_tokens"@,
        )) ==> requested_tokens(request, remaining) == remaining,
{
    if let Json::Object(fields) = request {
        lemma_holds_none(fields, "max_tokens"@);
        lemma_holds_none(fields, "max_output_tokens"@);
    }
}

proof fn lemma_holds_none(fields: Map<Seq<char>, Json>, name: Seq<char>)
    ensures
        holds_none(fields, name) ==> !(fields.contains_key(name) && (
        fields[name] matches Json::Integer(n) && n > 0)),
{
    if fields.contains_key(name) {
        if let Json::Integer(n) = fields[name] {
            assert(holds(fields, name, n));
        }
    }
}

/// Whether `ceiling` is the largest positive whole number in the two fields for it.
pub open spec fn declares(request: Json, ceiling: int) -> bool {
    &&& ceiling > 0
    &&& request matches Json::Object(fields)
    &&& holds(fields, "max_tokens"@, ceiling) || holds(fields, "max_output_tokens"@, ceiling)
    &&& forall|n: int| n > ceiling ==> !#[trigger] holds(fields, "max_tokens"@, n)
    &&& forall|n: int| n > ceiling ==> !#[trigger] holds(fields, "max_output_tokens"@, n)
}

/// Whether a request is no object, or holds no positive whole number in either field.
pub open spec fn declares_none(request: Json) -> bool {
    request matches Json::Object(fields) ==> holds_none(fields, "max_tokens"@) && holds_none(
        fields,
        "max_output_tokens"@,
    )
}

proof fn lemma_declares(request: Json, ceiling: int, remaining: int)
    ensures
        declares(request, ceiling) ==> requested_tokens(request, remaining) == ceiling
            && declared_ceiling(request) == Some(ceiling),
        declares_none(request) ==> requested_tokens(request, remaining) == remaining
            && declared_ceiling(request) is None,
{
    if let Json::Object(fields) = request {
        lemma_holds_none(fields, "max_tokens"@);
        lemma_holds_none(fields, "max_output_tokens"@);
        if fields.contains_key("max_tokens"@) {
            if let Json::Integer(a) = fields["max_tokens"@] {
                assert(holds(fields, "max_tokens"@, a));
            }
        }
        if fields.contains_key("max_output_tokens"@) {
            if let Json::Integer(b) = fields["max_output_tokens"@] {
                assert(holds(fields, "max_output_tokens"@, b));
            }
        }
    }
}

/// Whatever a reservation asks about usage it asks about the key in use, from the
/// start of the window that was read last, and as of now; the insertion counts from
/// the same start.
pub proof fn law_reservation_counts_the_current_window(
    seen: ReserveReplies,
    purpose: Purpose,
    request: Json,
    now: i64,
)
    ensures
        seen.booking(purpose, request, now) matches Booking::Ask(question) ==> match question {
            ReserveQuestion::ReadUsage { fingerprint, since } => fingerprint == purpose.fingerprint
                && (seen.limit_after_roll matches Some(Ok(Some(row))) && since
                == row.usage_start_at),
            ReserveQuestion::ReadCosts { fingerprint, since } => fingerprint == purpose.fingerprint
                && (seen.limit_after_roll matches Some(Ok(Some(row))) && since
                == row.usage_start_at),
            ReserveQuestion::ReadPending { fingerprint, now: at } => fingerprint
                == purpose.fingerprint && at == now,
            ReserveQuestion::Rebind { fingerprint, now: at } => fingerprint
                == purpose.fingerprint && at == now && (seen.limit matches Some(Ok(Some(row)))
                && row.enabled && row.credential_fingerprint@ != purpose.fingerprint),
            ReserveQuestion::RollWindow { now: at } => at == now,
            ReserveQuestion::CleanUp { now: at } => at == now,
            ReserveQuestion::Insert { usage_start_at, .. } => seen.limit_after_roll matches Some(
                Ok(Some(row)),
            ) && usage_start_at == row.usage_start_at,
            _ => true,
        },
{
}

/// Whether the enabled limit was found tied to the key in use, was rolled, and was
/// read again as `row` before lapsed reservations were cleared away.
pub open spec fn is_ready(
    seen: ReserveReplies,
    fingerprint: Seq<char>,
    row: ApiKeyLimitRow,
) -> bool {
    &&& seen.limit matches Some(Ok(Some(stored)))
    &&& stored.enabled
    &&& (stored.credential_fingerprint@ == fingerprint || (seen.rebound matches Some(Ok(_))))
    &&& (seen.rolled matches Some(Ok(_)))
    &&& seen.limit_after_roll == Some(Ok::<Option<ApiKeyLimitRow>, String>(Some(row)))
    &&& seen.cleaned
}

/// Until it is ready, a reservation asks in this order: the limit, a new tie where
/// it belongs to another key, a new window, the limit again, and a clearing.
pub proof fn law_limit_is_made_ready(
    seen: ReserveReplies,
    purpose: Purpose,
    request: Json,
    now: i64,
    stored: ApiKeyLimitRow,
    row: ApiKeyLimitRow,
)
    requires
        stored.enabled,
    ensures
        seen.limit is None ==> seen.booking(purpose, request, now) == Booking::Ask(
            ReserveQuestion::ReadLimit,
        ),
        seen.limit == Some(Ok::<Option<ApiKeyLimitRow>, String>(Some(stored))) ==> {
            &&& stored.credential_fingerprint@ != purpose.fingerprint && seen.rebound is None
                ==> seen.booking(purpose, request, now) == Booking::Ask(
                ReserveQuestion::Rebind { fingerprint: purpose.fingerprint, now },
            )
            &&& (stored.credential_fingerprint@ == purpose.fingerprint || (
            seen.rebound matches Some(Ok(_)))) ==> {
                &&& seen.rolled is None ==> seen.booking(purpose, request, now) == Booking::Ask(
                    ReserveQuestion::RollWindow { now },
                )
                &&& (seen.rolled matches Some(Ok(_))) && seen.limit_after_roll is None
                    ==> seen.booking(purpose, request, now) == Booking::Ask(
                    ReserveQuestion::ReadLimitAfterRoll,
                )
                &&& (seen.rolled matches Some(Ok(_))) && !seen.cleaned && seen.limit_after_roll
                    == Some(Ok::<Option<ApiKeyLimitRow>, String>(Some(row))) ==> seen.booking(
                    purpose,
                    request,
                    now,
                ) == Booking::Ask(ReserveQuestion::CleanUp { now })
            }
        },
{
}

/// The row that is inserted names the request, its provider, application and key,
/// has consumed nothing, is pending since now, and lapses three hundred seconds
/// from now.
pub proof fn law_inserted_row_is_the_requests(
    seen: ReserveReplies,
    purpose: Purpose,
    request: Json,
    now: i64,
    row: ReservationView,
    usage_start_at: i64,
    token_limit: Option<i64>,
    cost_limit_usd: Option<Amount>,
)
    requires
        seen.booking(purpose, request, now) == Booking::Ask(
            ReserveQuestion::Insert { row, usage_start_at, token_limit, cost_limit_usd },
        ),
    ensures
        row.request_id == purpose.request_id,
        row.provider_id == purpose.provider_id,
        row.app_type == purpose.app_type,
        row.credential_fingerprint == purpose.fingerprint,
        row.consumed_tokens == 0,
        row.consumed_cost_usd == "0"@,
        row.status == "pending"@,
        row.created_at == now,
        row.updated_at == now,
        now + 300 <= i64::MAX ==> row.expires_at == now + 300,
        now + 300 > i64::MAX ==> row.expires_at == i64::MAX,
        (seen.limit_after_roll matches Some(Ok(Some(limit))) && limit.limit_type@
            == row.limit_type),
        row.limit_type == "token"@ || row.limit_type == "money"@,
        row.limit_type == "token"@ ==> row.reserved_cost_usd == "0"@ && cost_limit_usd is None && (
        seen.limit_after_roll matches Some(Ok(Some(limit))) && token_limit is Some && signed_value(
            limit.limit_amount@,
        ) == Some(token_limit->0 as int)),
        row.limit_type == "money"@ ==> row.reserved_tokens == 0 && token_limit is None
            && cost_limit_usd is Some,
{
    lemma_names_differ();
}

/// Under a token limit a request holds exactly the ceiling that it declares and the
/// input that is known beside it, or all that remains where it declares none; where
/// that is more than remains, or nothing remains, it is refused.
pub proof fn law_tokens_claimed_under_a_limit(
    seen: ReserveReplies,
    purpose: Purpose,
    request: Json,
    now: i64,
    row: ApiKeyLimitRow,
    limit: int,
    used: i64,
    totals: PendingBudgetTotals,
    unused: int,
    remaining: int,
    ceiling: int,
    input: int,
)
    requires
        is_ready(seen, purpose.fingerprint, row),
        row.limit_type@ == "token"@,
        signed_value(row.limit_amount@) == Some(limit),
        seen.usage == Some(Ok::<i64, String>(used)),
        seen.pending == Some(Ok::<PendingBudgetTotals, String>(totals)),
        seen.inserted is None,
        is_clamped(limit - used, unused),
        is_clamped(unused - totals.tokens, remaining),
        match seen.input_tokens {
            Some(Some(n)) => n > 0 && input == n || n <= 0 && input == 0,
            _ => input == 0,
        },
    ensures
        ({
            let booking = seen.booking(purpose, request, now);
            &&& remaining <= 0 ==> booking is Refuse
            &&& remaining > 0 && declares_none(request) ==> claims(booking, remaining)
            &&& remaining > 0 && declares(request, ceiling) && seen.input_tokens is None ==> booking
                == Booking::Ask(ReserveQuestion::CountInput)
            &&& remaining > 0 && declares(request, ceiling) && seen.input_tokens is Some && ceiling
                + input <= remaining ==> claims(booking, ceiling + input)
            &&& declares(request, ceiling) && seen.input_tokens is Some && ceiling + input
                > remaining ==> booking is Refuse
        }),
{
    lemma_names_differ();
    lemma_declares(request, ceiling, remaining);
}

/// Whether a reservation is about to insert a row that reserves `tokens` tokens.
pub open spec fn claims(booking: Booking, tokens: int) -> bool {
    booking matches Booking::Ask(question) && (question matches ReserveQuestion::Insert {
        row,
        ..
    } && row.reserved_tokens == tokens)
}

/// Under a money limit a request holds all that remains of it in US dollars: the limit,
/// over the exchange rate where it is in yuan, without what was spent and what others
/// hold. Where nothing remains it is refused with what was spent and held together.
/// Before it holds anything the price of the model that it names is asked for.
pub proof fn law_money_claimed_under_a_limit(
    seen: ReserveReplies,
    purpose: Purpose,
    fields: Map<Seq<char>, Json>,
    now: i64,
    row: ApiKeyLimitRow,
    limit: Amount,
    setting: Option<String>,
    limit_usd: Amount,
    costs: Vec<String>,
    spent: Amount,
    totals: PendingBudgetTotals,
    held: Amount,
    unspent: Amount,
    remaining: Amount,
    taken: Amount,
    model: Seq<char>,
)
    requires
        is_ready(seen, purpose.fingerprint, row),
        row.limit_type@ == "money"@,
        decimal_from_str(trimmed(row.limit_amount@)) == Ok::<Amount, Seq<char>>(limit),
        seen.rate_setting == Some(Ok::<Option<String>, String>(setting)),
        row@.currency == Some("CNY"@) ==> decimal_quotient(
            limit,
            exchange_rate(text_of(setting)),
        ) == Some(limit_usd),
        row@.currency != Some("CNY"@) ==> limit_usd == limit,
        seen.costs == Some(Ok::<Vec<String>, String>(costs)),
        lenient_total(costs@) == Some(spent),
        seen.pending == Some(Ok::<PendingBudgetTotals, String>(totals)),
        decimal_from_str(totals.cost_usd@) == Ok::<Amount, Seq<char>>(held),
        decimal_difference(limit_usd, spent) == Some(unspent),
        decimal_difference(unspent, held) == Some(remaining),
        decimal_sum(spent, held) == Some(taken),
    ensures
        ({
            let booking = seen.booking(purpose, Json::Object(fields), now);
            let currency = if row@.currency == Some("CNY"@) {
                LimitCurrency::Cny
            } else {
                LimitCurrency::Usd
            };
            &&& remaining.units() <= 0 ==> booking == Booking::Refuse(
                money_rejection(taken, limit, currency),
            )
            &&& remaining.units() > 0 && seen.price_known is None && says(
                fields,
                "model"@,
                model,
            ) ==> booking == Booking::Ask(ReserveQuestion::ReadPrice { model: Some(model) })
            &&& remaining.units() > 0 && seen.price_known is None && !fields.contains_key(
                "model"@,
            ) ==> booking == Booking::Ask(ReserveQuestion::ReadPrice { model: None })
            &&& remaining.units() > 0 && seen.price_known == Some(Ok::<bool, String>(true))
                && seen.inserted is None ==> (booking matches Booking::Ask(question) && (
            question matches ReserveQuestion::Insert { row: claimed, cost_limit_usd, .. }
                && claimed.reserved_cost_usd == amount_text(normal_form(remaining))
                && cost_limit_usd == Some(limit_usd)))
            &&& remaining.units() > 0 && seen.price_known == Some(Ok::<bool, String>(false))
                ==> refuses(booking, "无法确定请求模型的定价，金额限额下不转发"@, "PRICING_UNAVAILABLE"@)
        }),
{
    lemma_names_differ();
}

/// Whether a reservation ends in a refusal with a message and a code.
pub open spec fn refuses(booking: Booking, message: Seq<char>, code: Seq<char>) -> bool {
    booking matches Booking::Refuse(refusal) && refusal.message == message && (
    refusal.detail matches Json::Object(fields) && says(fields, "code"@, code))
}

/// Under a token limit with nothing left, or with less than is needed, the refusal
/// shows what was used and what others hold together, and the limit.
pub proof fn law_token_refusal_shows_the_whole_usage(
    seen: ReserveReplies,
    purpose: Purpose,
    request: Json,
    now: i64,
    row: ApiKeyLimitRow,
    limit: int,
    used: i64,
    totals: PendingBudgetTotals,
    taken: int,
    refusal: RejectionView,
)
    requires
        is_ready(seen, purpose.fingerprint, row),
        row.limit_type@ == "token"@,
        signed_value(row.limit_amount@) == Some(limit),
        seen.usage == Some(Ok::<i64, String>(used)),
        seen.pending == Some(Ok::<PendingBudgetTotals, String>(totals)),
        seen.inserted is None,
        is_clamped(used + totals.tokens, taken),
        seen.booking(purpose, request, now) == Booking::Refuse(refusal),
    ensures
        refusal == token_rejection(taken, limit),
{
    lemma_names_differ();
}

/// A failure of the storage on the way to a claim refuses the request as a storage
/// error, in words that name the step and the cause; how the clearing went does not
/// matter.
pub proof fn law_storage_failures_refuse(
    seen: ReserveReplies,
    purpose: Purpose,
    request: Json,
    now: i64,
    stored: ApiKeyLimitRow,
    row: ApiKeyLimitRow,
    e: String,
)
    ensures
        ({
            let booking = seen.booking(purpose, request, now);
            let found = seen.limit == Some(
                Ok::<Option<ApiKeyLimitRow>, String>(Some(stored)),
            ) && stored.enabled;
            let tied = found && (stored.credential_fingerprint@ == purpose.fingerprint || (
            seen.rebound matches Some(Ok(_))));
            let code = "BUDGET_STORAGE_ERROR"@;
            &&& seen.limit == Some(Err::<Option<ApiKeyLimitRow>, String>(e)) ==> refuses(
                booking,
                "无法读取本地预算配置: "@ + e@,
                code,
            )
            &&& found && stored.credential_fingerprint@ != purpose.fingerprint && seen.rebound
                == Some(Err::<bool, String>(e)) ==> refuses(
                booking,
                "无法重绑 API Key 使用限额: "@ + e@,
                code,
            )
            &&& tied && seen.rolled == Some(Err::<bool, String>(e)) ==> refuses(
                booking,
                "无法自动重置预算窗口: "@ + e@,
                code,
            )
            &&& tied && (seen.rolled matches Some(Ok(_))) && seen.limit_after_roll == Some(
                Err::<Option<ApiKeyLimitRow>, String>(e),
            ) ==> refuses(booking, "无法读取自动重置后的预算配置: "@ + e@, code)
            &&& tied && (seen.rolled matches Some(Ok(_))) && seen.limit_after_roll == Some(
                Ok::<Option<ApiKeyLimitRow>, String>(None),
            ) ==> refuses(booking, "预算配置在自动重置过程中消失"@, code)
        }),
{
}

/// A failure of the storage while a claim is worked out or inserted refuses the request
/// as a storage error, and so does losing the room to another request meanwhile; a limit
/// that makes no sense refuses it as a bad configuration.
pub proof fn law_later_failures_refuse(
    seen: ReserveReplies,
    purpose: Purpose,
    request: Json,
    now: i64,
    row: ApiKeyLimitRow,
    limit: int,
    used: i64,
    e: String,
)
    requires
        is_ready(seen, purpose.fingerprint, row),
    ensures
        ({
            let booking = seen.booking(purpose, request, now);
            let code = "BUDGET_STORAGE_ERROR"@;
            let config = "INVALID_BUDGET_CONFIG"@;
            &&& row.limit_type@ != "token"@ && row.limit_type@ != "money"@ ==> refuses(
                booking,
                "限额类型非法: "@ + row.limit_type@,
                config,
            )
            &&& row.limit_type@ == "token"@ && signed_value(row.limit_amount@) is None ==> refuses(
                booking,
                "限额 Token 数非法: "@ + row.limit_amount@,
                config,
            )
            &&& row.limit_type@ == "money"@ && decimal_from_str(trimmed(row.limit_amount@)) is Err
                ==> refuses(booking, "限额金额非法: "@ + row.limit_amount@, config)
            &&& row.limit_type@ == "token"@ && signed_value(row.limit_amount@) == Some(limit) ==> {
                &&& seen.usage == Some(Err::<i64, String>(e)) ==> refuses(
                    booking,
                    "无法计算预算用量: "@ + e@,
                    code,
                )
                &&& seen.usage == Some(Ok::<i64, String>(used)) && seen.pending == Some(
                    Err::<PendingBudgetTotals, String>(e),
                ) ==> refuses(booking, "无法计算预算 reservation: "@ + e@, code)
            }
            &&& row.limit_type@ == "money"@ && decimal_from_str(trimmed(row.limit_amount@)) is Ok
                ==> {
                &&& seen.rate_setting is None ==> booking == Booking::Ask(
                    ReserveQuestion::ReadRate,
                )
                &&& seen.rate_setting == Some(Err::<Option<String>, String>(e)) ==> refuses(
                    booking,
                    "无法读取 USD/CNY 汇率: "@ + e@,
                    code,
                )
                &&& (seen.rate_setting matches Some(Ok(_))) && row@.currency != Some("CNY"@)
                    && seen.costs == Some(Err::<Vec<String>, String>(e)) ==> refuses(
                    booking,
                    "无法计算预算用量: "@ + e@,
                    code,
                )
            }
        }),
{
    lemma_names_differ();
}

/// Once a row was ordered to be inserted, the reply decides: it is held, the room went to
/// another request meanwhile, or the storage failed.
pub proof fn law_insertion_decides(
    before: ReserveReplies,
    after: ReserveReplies,
    purpose: Purpose,
    request: Json,
    now: i64,
    row: ReservationView,
    usage_start_at: i64,
    token_limit: Option<i64>,
    cost_limit_usd: Option<Amount>,
    e: String,
)
    requires
        before.booking(purpose, request, now) == Booking::Ask(
            ReserveQuestion::Insert { row, usage_start_at, token_limit, cost_limit_usd },
        ),
        after == (ReserveReplies { inserted: after.inserted, ..before }),
    ensures
        after.inserted == Some(Ok::<bool, String>(true)) ==> (after.booking(
            purpose,
            request,
            now,
        ) matches Booking::Held(held) && held.request_id == purpose.request_id
            && held.credential_fingerprint == purpose.fingerprint && held.reserved_tokens
            == row.reserved_tokens && held.reserved_cost_usd == row.reserved_cost_usd && (now + 300
            <= i64::MAX ==> held.expires_at == now + 300)),
        after.inserted == Some(Ok::<bool, String>(false)) ==> refuses(
            after.booking(purpose, request, now),
            "并发请求已占用当前 API Key 的剩余额度"@,
            "API_KEY_LIMIT_REACHED"@,
        ),
        after.inserted == Some(Err::<bool, String>(e)) ==> refuses(
            after.booking(purpose, request, now),
            "无法建立预算 reservation: "@ + e@,
            "BUDGET_STORAGE_ERROR"@,
        ),
{
}

/// Costs held by other requests that are no decimal number count nothing.
pub proof fn law_unreadable_pending_cost_counts_nothing(totals: PendingBudgetTotals)
    ensures
        decimal_from_str(totals.cost_usd@) is Err ==> pending_usd(totals) == (Amount {
            mantissa: 0,
            scale: 0,
        }),
        decimal_from_str(totals.cost_usd@) matches Ok(held) ==> pending_usd(totals) == held,
{
}

/// Where an amount on the way to a money claim leaves the range of amounts, the
/// reservation says so instead of claiming anything.
pub proof fn law_amounts_out_of_range(
    seen: ReserveReplies,
    purpose: Purpose,
    request: Json,
    now: i64,
    row: ApiKeyLimitRow,
    limit: Amount,
    setting: Option<String>,
    limit_usd: Amount,
    costs: Vec<String>,
    spent: Amount,
    totals: PendingBudgetTotals,
    held: Amount,
    unspent: Amount,
)
    requires
        is_ready(seen, purpose.fingerprint, row),
        row.limit_type@ == "money"@,
        decimal_from_str(trimmed(row.limit_amount@)) == Ok::<Amount, Seq<char>>(limit),
        seen.rate_setting == Some(Ok::<Option<String>, String>(setting)),
        seen.costs == Some(Ok::<Vec<String>, String>(costs)),
        seen.pending == Some(Ok::<PendingBudgetTotals, String>(totals)),
        decimal_from_str(totals.cost_usd@) == Ok::<Amount, Seq<char>>(held),
    ensures
        ({
            let booking = seen.booking(purpose, request, now);
            let yuan = row@.currency == Some("CNY"@);
            let quotient = decimal_quotient(limit, exchange_rate(text_of(setting)));
            let known = if yuan {
                quotient == Some(limit_usd)
            } else {
                limit_usd == limit
            };
            &&& yuan && quotient is None ==> booking is OutOfRange
            &&& known && lenient_total(costs@) is None ==> booking is OutOfRange
            &&& known && lenient_total(costs@) == Some(spent) ==> {
                &&& decimal_difference(limit_usd, spent) is None ==> booking is OutOfRange
                &&& decimal_difference(limit_usd, spent) == Some(unspent) && decimal_difference(
                    unspent,
                    held,
                ) is None ==> booking is OutOfRange
            }
        }),
{
    lemma_names_differ();
}

/// Under a money limit these are asked in this order: the exchange rate, what was spent
/// in the window, what others hold, and the price.
pub proof fn law_money_questions_in_order(
    seen: ReserveReplies,
    purpose: Purpose,
    request: Json,
    now: i64,
    row: ApiKeyLimitRow,
    limit: Amount,
    setting: Option<String>,
    costs: Vec<String>,
    spent: Amount,
    e: String,
)
    requires
        is_ready(seen, purpose.fingerprint, row),
        row.limit_type@ == "money"@,
        decimal_from_str(trimmed(row.limit_amount@)) == Ok::<Amount, Seq<char>>(limit),
        seen.rate_setting == Some(Ok::<Option<String>, String>(setting)),
        row@.currency == Some("CNY"@) ==> decimal_quotient(
            limit,
            exchange_rate(text_of(setting)),
        ) is Some,
    ensures
        ({
            let booking = seen.booking(purpose, request, now);
            &&& seen.costs is None ==> booking == Booking::Ask(
                ReserveQuestion::ReadCosts {
                    fingerprint: purpose.fingerprint,
                    since: row.usage_start_at,
                },
            )
            &&& seen.costs == Some(Err::<Vec<String>, String>(e)) ==> refuses(
                booking,
                "无法计算预算用量: "@ + e@,
                "BUDGET_STORAGE_ERROR"@,
            )
            &&& seen.costs == Some(Ok::<Vec<String>, String>(costs)) && lenient_total(costs@)
                == Some(spent) ==> {
                &&& seen.pending is None ==> booking == Booking::Ask(
                    ReserveQuestion::ReadPending { fingerprint: purpose.fingerprint, now },
                )
                &&& seen.pending == Some(Err::<PendingBudgetTotals, String>(e)) ==> refuses(
                    booking,
                    "无法计算预算 reservation: "@ + e@,
                    "BUDGET_STORAGE_ERROR"@,
                )
            }
        }),
{
    lemma_names_differ();
}

/// Under a token limit the tokens used in the window are asked for, and what others hold
/// after that.
pub proof fn law_token_questions_in_order(
    seen: ReserveReplies,
    purpose: Purpose,
    request: Json,
    now: i64,
    row: ApiKeyLimitRow,
    limit: int,
    used: i64,
)
    requires
        is_ready(seen, purpose.fingerprint, row),
        row.limit_type@ == "token"@,
        signed_value(row.limit_amount@) == Some(limit),
    ensures
        seen.usage is None ==> seen.booking(purpose, request, now) == Booking::Ask(
            ReserveQuestion::ReadUsage {
                fingerprint: purpose.fingerprint,
                since: row.usage_start_at,
            },
        ),
        seen.usage == Some(Ok::<i64, String>(used)) && seen.pending is None ==> seen.booking(
            purpose,
            request,
            now,
        ) == Booking::Ask(ReserveQuestion::ReadPending { fingerprint: purpose.fingerprint, now }),
{
    lemma_names_differ();
}

} // verus!
