//! What every check of a request keeps, said of the rows and replies that were read.

use crate::app_error::{AppError, AppErrorView};
use crate::decimal::{decimal_from_str, decimal_product, decimal_sum, Amount};
use crate::forward::{
    evaluation, lenient_total, used_in_currency, Evaluation, ForwardQuestion, ForwardReplies,
    Holding, UsageQuestion, UsageReplies, Verdict,
};
use crate::json::Json;
use crate::limit::{exchange_rate, LimitCurrency, LimitType};
use crate::limit_laws::lemma_names_differ;
use crate::limit_row::{ApiKeyLimitRow, LimitRowView};
use crate::rejection::{money_text, tokens_text};
use crate::rejection_laws::{lemma_field_names, says};
use crate::text::{signed_value, text_of, trimmed};
use vstd::prelude::*;

verus! {

/// Whatever a check asks about usage it asks about the key in use, from the start of
/// the window of the limit that holds, whenever that limit was last changed.
pub proof fn law_check_counts_the_window_that_holds(
    seen: ForwardReplies,
    provider_name: Seq<char>,
    fingerprint: Seq<char>,
    now: i64,
    key: Seq<char>,
    since: i64,
)
    requires
        seen.verdict(provider_name, fingerprint, now) == Verdict::Ask(
            ForwardQuestion::Usage(UsageQuestion::ReadUsage { fingerprint: key, since }),
        ) || seen.verdict(provider_name, fingerprint, now) == Verdict::Ask(
            ForwardQuestion::Usage(UsageQuestion::ReadCosts { fingerprint: key, since }),
        ),
    ensures
        key == fingerprint,
        seen.current(fingerprint, now) matches Holding::Limit(row) && since == row.usage_start_at,
{
}

/// The tokens are asked for first. The costs are asked for under a money limit alone,
/// and the exchange rate under one in yuan, before the costs.
pub proof fn law_check_asks_for_what_the_limit_counts(
    seen: ForwardReplies,
    provider_name: Seq<char>,
    fingerprint: Seq<char>,
    now: i64,
    row: LimitRowView,
    tokens: i64,
    limit: Amount,
)
    requires
        seen.current(fingerprint, now) == Holding::Limit(row),
    ensures
        ({
            let verdict = seen.verdict(provider_name, fingerprint, now);
            &&& seen.usage.usage is None ==> verdict == Verdict::Ask(
                ForwardQuestion::Usage(
                    UsageQuestion::ReadUsage { fingerprint, since: row.usage_start_at },
                ),
            )
            &&& seen.usage.usage == Some(Ok::<i64, AppError>(tokens)) && row.limit_type == "money"@
                && decimal_from_str(trimmed(row.limit_amount)) == Ok::<Amount, Seq<char>>(limit)
                ==> {
                &&& row.currency == Some("CNY"@) && seen.usage.rate_setting is None ==> verdict
                    == Verdict::Ask(ForwardQuestion::Usage(UsageQuestion::ReadRate))
                &&& seen.usage.costs is None && (row.currency != Some("CNY"@) || (
                seen.usage.rate_setting matches Some(Ok(_)))) ==> verdict == Verdict::Ask(
                    ForwardQuestion::Usage(
                        UsageQuestion::ReadCosts { fingerprint, since: row.usage_start_at },
                    ),
                )
            }
        }),
{
    lemma_names_differ();
}

/// The limit that holds is the one that was stored for the key, unless it was tied to
/// another key or its window was started anew: where that changed it, it is the one
/// that was read afterwards, as far as there is one.
pub proof fn law_limit_that_holds(
    seen: ForwardReplies,
    fingerprint: Seq<char>,
    now: i64,
    stored: ApiKeyLimitRow,
    again: ApiKeyLimitRow,
)
    requires
        seen.limit == Some(Ok::<Option<ApiKeyLimitRow>, AppError>(Some(stored))),
        stored.enabled,
        stored.credential_fingerprint@ == fingerprint,
    ensures
        seen.rolled is None ==> seen.current(fingerprint, now) == Holding::Ask(
            ForwardQuestion::RollWindow { now },
        ),
        seen.rolled == Some(Ok::<bool, AppError>(false)) || (seen.rolled matches Some(Err(_)))
            ==> seen.current(fingerprint, now) == Holding::Limit(stored@),
        seen.rolled == Some(Ok::<bool, AppError>(true)) ==> {
            &&& seen.limit_after_roll is None ==> seen.current(fingerprint, now) == Holding::Ask(
                ForwardQuestion::ReadLimitAfterRoll,
            )
            &&& seen.limit_after_roll == Some(
                Ok::<Option<ApiKeyLimitRow>, AppError>(Some(again)),
            ) ==> seen.current(fingerprint, now) == Holding::Limit(again@)
            &&& (seen.limit_after_roll matches Some(Err(_))) || (
            seen.limit_after_roll matches Some(Ok(None))) ==> seen.current(fingerprint, now)
                == Holding::Limit(stored@)
        },
{
}

/// A limit that is tied to another key is tied to the key in use before anything else.
/// Where that changed it, the limit that holds is the one that was read afterwards, as
/// far as there is one; its window is started anew like any other.
pub proof fn law_limit_of_another_key(
    seen: ForwardReplies,
    fingerprint: Seq<char>,
    now: i64,
    stored: ApiKeyLimitRow,
    tied: ApiKeyLimitRow,
    again: ApiKeyLimitRow,
)
    requires
        seen.limit == Some(Ok::<Option<ApiKeyLimitRow>, AppError>(Some(stored))),
        stored.enabled,
        stored.credential_fingerprint@ != fingerprint,
    ensures
        seen.rebound is None ==> seen.current(fingerprint, now) == Holding::Ask(
            ForwardQuestion::Rebind { fingerprint, now },
        ),
        seen.rebound == Some(Ok::<bool, AppError>(true)) && seen.limit_after_rebind is None
            ==> seen.current(fingerprint, now) == Holding::Ask(
            ForwardQuestion::ReadLimitAfterRebind,
        ),
        seen.rebound == Some(Ok::<bool, AppError>(true)) && seen.limit_after_rebind == Some(
            Ok::<Option<ApiKeyLimitRow>, AppError>(Some(tied)),
        ) ==> {
            &&& seen.rolled is None ==> seen.current(fingerprint, now) == Holding::Ask(
                ForwardQuestion::RollWindow { now },
            )
            &&& seen.rolled == Some(Ok::<bool, AppError>(false)) ==> seen.current(fingerprint, now)
                == Holding::Limit(tied@)
            &&& seen.rolled == Some(Ok::<bool, AppError>(true)) && seen.limit_after_roll == Some(
                Ok::<Option<ApiKeyLimitRow>, AppError>(Some(again)),
            ) ==> seen.current(fingerprint, now) == Holding::Limit(again@)
        },
        (seen.rebound == Some(Ok::<bool, AppError>(false)) || (seen.rebound matches Some(Err(_))))
            && seen.rolled == Some(Ok::<bool, AppError>(false)) ==> seen.current(fingerprint, now)
            == Holding::Limit(stored@),
{
}

/// One more recorded cost raises the money used by itself, without the white space
/// around it; one that is no decimal number raises it by nothing.
pub proof fn law_recorded_cost_adds_up(costs: Seq<String>, cost: String, total: Amount)
    requires
        lenient_total(costs) == Some(total),
    ensures
        lenient_total(Seq::empty()) == Some(Amount { mantissa: 0, scale: 0 }),
        match decimal_from_str(trimmed(cost@)) {
            Ok(amount) => lenient_total(costs.push(cost)) == decimal_sum(total, amount),
            Err(_) => lenient_total(costs.push(cost)) == decimal_sum(
                total,
                Amount { mantissa: 0, scale: 0 },
            ),
        },
{
    assert(costs.push(cost).drop_last() =~= costs);
}

/// What was used in US dollars is compared with a limit in dollars as it is, and with
/// one in yuan times the exchange rate.
pub proof fn law_usage_in_the_currency_of_the_limit(used_usd: Amount, rate: Amount)
    ensures
        used_in_currency(LimitCurrency::Usd, used_usd, rate) == Some(used_usd),
        used_in_currency(LimitCurrency::Cny, used_usd, rate) == decimal_product(used_usd, rate),
{
}

/// Whether a refusal names the provider, the usage and the limit, in words and in
/// fields.
pub open spec fn refuses_with(
    verdict: Verdict,
    lead: Seq<char>,
    provider_name: Seq<char>,
    kind: Seq<char>,
    currency: Seq<char>,
    used: Seq<char>,
    limit: Seq<char>,
) -> bool {
    &&& verdict matches Verdict::Refuse(refusal)
    &&& refusal.message == lead + provider_name + ". Used: "@ + used + " / Limit: "@ + limit
    &&& refusal.detail matches Json::Object(fields)
    &&& says(fields, "code"@, "API_KEY_LIMIT_REACHED"@)
    &&& says(fields, "source"@, "local"@)
    &&& says(fields, "limitType"@, kind)
    &&& says(fields, "currency"@, currency)
    &&& says(fields, "used"@, used)
    &&& says(fields, "limit"@, limit)
    &&& says(fields, "provider"@, provider_name)
}

/// A request under a token limit is refused exactly once the tokens used have reached
/// the limit, and the refusal shows both numbers.
pub proof fn law_token_refusal(
    seen: ForwardReplies,
    provider_name: Seq<char>,
    fingerprint: Seq<char>,
    now: i64,
    row: LimitRowView,
    used: i64,
    limit: int,
)
    requires
        seen.current(fingerprint, now) == Holding::Limit(row),
        row.limit_type == "token"@,
        seen.usage.usage == Some(Ok::<i64, AppError>(used)),
        signed_value(row.limit_amount) == Some(limit),
    ensures
        used < limit ==> seen.verdict(provider_name, fingerprint, now) is Pass,
        used >= limit ==> refuses_with(
            seen.verdict(provider_name, fingerprint, now),
            "CC Switch token limit reached. Provider: "@,
            provider_name,
            "token"@,
            ""@,
            tokens_text(used as int),
            tokens_text(limit),
        ),
{
    lemma_names_differ();
    lemma_field_names();
}

/// A request under a money limit is refused exactly once the money used, in the
/// currency of the limit, has reached it, and the refusal shows both amounts in that
/// currency.
pub proof fn law_money_refusal(
    seen: ForwardReplies,
    provider_name: Seq<char>,
    fingerprint: Seq<char>,
    now: i64,
    row: LimitRowView,
    tokens: i64,
    setting: Option<String>,
    costs: Vec<String>,
    used_usd: Amount,
    used: Amount,
    limit: Amount,
)
    requires
        seen.current(fingerprint, now) == Holding::Limit(row),
        row.limit_type == "money"@,
        seen.usage.usage == Some(Ok::<i64, AppError>(tokens)),
        seen.usage.rate_setting == Some(Ok::<Option<String>, AppError>(setting)),
        seen.usage.costs == Some(Ok::<Vec<String>, AppError>(costs)),
        decimal_from_str(trimmed(row.limit_amount)) == Ok::<Amount, Seq<char>>(limit),
        lenient_total(costs@) == Some(used_usd),
        row.currency == Some("CNY"@) ==> decimal_product(
            used_usd,
            exchange_rate(text_of(setting)),
        ) == Some(used),
        row.currency != Some("CNY"@) ==> used == used_usd,
    ensures
        used.units() < limit.units() ==> seen.verdict(provider_name, fingerprint, now) is Pass,
        used.units() >= limit.units() && row.currency == Some("CNY"@) ==> refuses_with(
            seen.verdict(provider_name, fingerprint, now),
            "CC Switch usage limit reached. Provider: "@,
            provider_name,
            "money"@,
            "CNY"@,
            money_text(used, LimitCurrency::Cny),
            money_text(limit, LimitCurrency::Cny),
        ),
        used.units() >= limit.units() && row.currency != Some("CNY"@) ==> refuses_with(
            seen.verdict(provider_name, fingerprint, now),
            "CC Switch usage limit reached. Provider: "@,
            provider_name,
            "money"@,
            "USD"@,
            money_text(used, LimitCurrency::Usd),
            money_text(limit, LimitCurrency::Usd),
        ),
{
    lemma_names_differ();
    lemma_field_names();
}

/// A stored limit of an unknown kind, or with an amount that cannot be read, stops no
/// request.
pub proof fn law_unreadable_limit_stops_no_request(
    seen: ForwardReplies,
    provider_name: Seq<char>,
    fingerprint: Seq<char>,
    now: i64,
    row: LimitRowView,
    used: i64,
)
    requires
        seen.current(fingerprint, now) == Holding::Limit(row),
        seen.usage.usage == Some(Ok::<i64, AppError>(used)),
        (row.limit_type != "token"@ && row.limit_type != "money"@) || (row.limit_type == "token"@
            && signed_value(row.limit_amount) is None) || (row.limit_type == "money"@
            && decimal_from_str(trimmed(row.limit_amount)) is Err),
    ensures
        seen.verdict(provider_name, fingerprint, now) is Pass,
{
    lemma_names_differ();
}

/// A limit is found to be of its kind, and shown with the usage in the same unit: tokens
/// in groups of digits, money in the currency of the limit.
pub proof fn law_findings(
    row: LimitRowView,
    fingerprint: Seq<char>,
    seen: UsageReplies,
    tokens: i64,
    token_limit: int,
    costs: Vec<String>,
    used_usd: Amount,
    money_limit: Amount,
)
    requires
        seen.usage == Some(Ok::<i64, AppError>(tokens)),
    ensures
        row.limit_type == "token"@ && signed_value(row.limit_amount) == Some(token_limit) ==> (
        evaluation(row, fingerprint, seen) matches Evaluation::Found(found) && found.limit_type
            == LimitType::Token && found.currency is None && found.used_display == tokens_text(
            tokens as int,
        ) && found.limit_display == tokens_text(token_limit) && found.exhausted == (tokens
            >= token_limit)),
        row.limit_type == "money"@ && row.currency != Some("CNY"@) && decimal_from_str(
            trimmed(row.limit_amount),
        ) == Ok::<Amount, Seq<char>>(money_limit) && seen.costs == Some(
            Ok::<Vec<String>, AppError>(costs),
        ) && lenient_total(costs@) == Some(used_usd) ==> (evaluation(
            row,
            fingerprint,
            seen,
        ) matches Evaluation::Found(found) && found.limit_type == LimitType::Money && found.currency
            == Some(LimitCurrency::Usd) && found.used_display == money_text(
            used_usd,
            LimitCurrency::Usd,
        ) && found.limit_display == money_text(money_limit, LimitCurrency::Usd) && found.exhausted
            == (used_usd.units() >= money_limit.units())),
{
    lemma_names_differ();
}

/// A finding on a limit in yuan shows what was used times the exchange rate.
pub proof fn law_findings_in_yuan(
    row: LimitRowView,
    fingerprint: Seq<char>,
    seen: UsageReplies,
    tokens: i64,
    setting: Option<String>,
    costs: Vec<String>,
    used_usd: Amount,
    used: Amount,
    limit: Amount,
)
    requires
        seen.usage == Some(Ok::<i64, AppError>(tokens)),
        row.limit_type == "money"@,
        row.currency == Some("CNY"@),
        decimal_from_str(trimmed(row.limit_amount)) == Ok::<Amount, Seq<char>>(limit),
        seen.rate_setting == Some(Ok::<Option<String>, AppError>(setting)),
        seen.costs == Some(Ok::<Vec<String>, AppError>(costs)),
        lenient_total(costs@) == Some(used_usd),
    ensures
        decimal_product(used_usd, exchange_rate(text_of(setting))) == Some(used) ==> (evaluation(
            row,
            fingerprint,
            seen,
        ) matches Evaluation::Found(found) && found.limit_type == LimitType::Money && found.currency
            == Some(LimitCurrency::Cny) && found.used_display == money_text(
            used,
            LimitCurrency::Cny,
        ) && found.limit_display == money_text(limit, LimitCurrency::Cny) && found.exhausted == (
        used.units() >= limit.units())),
        decimal_product(used_usd, exchange_rate(text_of(setting))) is None ==> evaluation(
            row,
            fingerprint,
            seen,
        ) is OutOfRange,
{
    lemma_names_differ();
}

/// What cannot be read is reported as it is, and a stored limit that makes no sense is
/// reported with what is stored.
pub proof fn law_evaluation_failures(
    row: LimitRowView,
    fingerprint: Seq<char>,
    seen: UsageReplies,
    tokens: i64,
    limit: Amount,
    costs: Vec<String>,
    e: AppError,
)
    ensures
        ({
            let outcome = evaluation(row, fingerprint, seen);
            let money = row.limit_type == "money"@ && decimal_from_str(trimmed(row.limit_amount))
                == Ok::<Amount, Seq<char>>(limit);
            &&& seen.usage == Some(Err::<i64, AppError>(e)) ==> outcome == Evaluation::Failed(e@)
            &&& seen.usage == Some(Ok::<i64, AppError>(tokens)) ==> {
                &&& row.limit_type != "token"@ && row.limit_type != "money"@ ==> outcome
                    == Evaluation::Failed(
                    AppErrorView::Database("限额类型非法: "@ + row.limit_type),
                )
                &&& row.limit_type == "token"@ && signed_value(row.limit_amount) is None ==> outcome
                    == Evaluation::Failed(
                    AppErrorView::Database("限额 Token 数非法: "@ + row.limit_amount),
                )
                &&& row.limit_type == "money"@ && decimal_from_str(trimmed(row.limit_amount)) is Err
                    ==> outcome == Evaluation::Failed(
                    AppErrorView::Database("限额金额非法: "@ + row.limit_amount),
                )
                &&& money && row.currency == Some("CNY"@) && seen.rate_setting == Some(
                    Err::<Option<String>, AppError>(e),
                ) ==> outcome == Evaluation::Failed(e@)
                &&& money && row.currency != Some("CNY"@) && seen.costs == Some(
                    Err::<Vec<String>, AppError>(e),
                ) ==> outcome == Evaluation::Failed(e@)
                &&& money && row.currency != Some("CNY"@) && seen.costs == Some(
                    Ok::<Vec<String>, AppError>(costs),
                ) && lenient_total(costs@) is None ==> outcome is OutOfRange
            }
        }),
{
    lemma_names_differ();
}

/// The limit that is tied to the key in use is the stored one if it is tied to it already
/// or could not be tied anew, and otherwise the one that was read afterwards, as far as
/// there is one.
pub proof fn law_tied_limit(
    seen: ForwardReplies,
    fingerprint: Seq<char>,
    now: i64,
    stored: ApiKeyLimitRow,
    again: ApiKeyLimitRow,
)
    requires
        seen.limit == Some(Ok::<Option<ApiKeyLimitRow>, AppError>(Some(stored))),
        stored.enabled,
    ensures
        stored.credential_fingerprint@ == fingerprint ==> seen.tied(fingerprint, now)
            == Holding::Limit(stored@),
        stored.credential_fingerprint@ != fingerprint ==> {
            &&& (seen.rebound matches Some(Err(_))) || seen.rebound == Some(
                Ok::<bool, AppError>(false),
            ) ==> seen.tied(fingerprint, now) == Holding::Limit(stored@)
            &&& seen.rebound == Some(Ok::<bool, AppError>(true)) ==> {
                &&& seen.limit_after_rebind == Some(
                    Ok::<Option<ApiKeyLimitRow>, AppError>(Some(again)),
                ) ==> seen.tied(fingerprint, now) == Holding::Limit(again@)
                &&& (seen.limit_after_rebind matches Some(Err(_))) || seen.limit_after_rebind
                    == Some(Ok::<Option<ApiKeyLimitRow>, AppError>(None)) ==> seen.tied(
                    fingerprint,
                    now,
                ) == Holding::Limit(stored@)
            }
        },
{
}

/// The limit that holds is the tied one if its window was not or could not be started
/// anew, and otherwise the one that was read afterwards, as far as there is one.
pub proof fn law_rolled_limit(
    seen: ForwardReplies,
    fingerprint: Seq<char>,
    now: i64,
    tied: LimitRowView,
    again: ApiKeyLimitRow,
)
    requires
        seen.tied(fingerprint, now) == Holding::Limit(tied),
    ensures
        seen.rolled is None ==> seen.current(fingerprint, now) == Holding::Ask(
            ForwardQuestion::RollWindow { now },
        ),
        (seen.rolled matches Some(Err(_))) || seen.rolled == Some(Ok::<bool, AppError>(false))
            ==> seen.current(fingerprint, now) == Holding::Limit(tied),
        seen.rolled == Some(Ok::<bool, AppError>(true)) ==> {
            &&& seen.limit_after_roll is None ==> seen.current(fingerprint, now) == Holding::Ask(
                ForwardQuestion::ReadLimitAfterRoll,
            )
            &&& seen.limit_after_roll == Some(
                Ok::<Option<ApiKeyLimitRow>, AppError>(Some(again)),
            ) ==> seen.current(fingerprint, now) == Holding::Limit(again@)
            &&& (seen.limit_after_roll matches Some(Err(_))) || seen.limit_after_roll == Some(
                Ok::<Option<ApiKeyLimitRow>, AppError>(None),
            ) ==> seen.current(fingerprint, now) == Holding::Limit(tied)
        },
{
}

} // verus!
