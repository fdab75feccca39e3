//! What every status shows, said of the stored limit and the replies that were read.

use crate::app_error::{AppError, AppErrorView};
use crate::credential::{is_known_app, resolved, AppType, CredentialView, Provider};
use crate::decimal::{
    amount_text, decimal_from_str, decimal_product, decimal_quotient, lemma_units_sign, rounded_to,
    Amount,
};
use crate::forward::lenient_total;
use crate::limit::{exchange_rate, EnforcementSupport};
use crate::limit_laws::lemma_names_differ;
use crate::limit_row::ApiKeyLimitRow;
use crate::status::{
    unpriced_count, unpriced_names, Showing, StatusQuestion, StatusReplies, StatusView,
    ZeroCostModel,
};
use crate::text::{signed_value, text_of, trimmed};
use vstd::prelude::*;

verus! {

/// Whether a status shows a percentage of 100 times `used` over a positive `limit`,
/// rounded to two places.
pub open spec fn shows_percentage(status: StatusView, used: Amount, limit: Amount) -> bool {
    &&& decimal_product(used, Amount { mantissa: 100, scale: 0 }) matches Some(hundredfold)
    &&& decimal_quotient(hundredfold, limit) matches Some(percent)
    &&& status.percent_used == Some(amount_text(rounded_to(percent, 2)))
    &&& status.state == "exhausted"@ <==> used.units() >= limit.units() || percent.units()
        >= (Amount { mantissa: 100, scale: 0 }).units()
    &&& status.state == "warning"@ <==> used.units() < limit.units() && percent.units() < (Amount {
        mantissa: 100,
        scale: 0,
    }).units() && percent.units() >= (Amount { mantissa: 80, scale: 0 }).units()
    &&& status.state == "exhausted"@ || status.state == "warning"@ || status.state == "active"@
}

proof fn lemma_states()
    ensures
        "exhausted"@ != "warning"@,
        "exhausted"@ != "active"@,
        "warning"@ != "active"@,
{
    reveal_strlit("exhausted");
    reveal_strlit("warning");
    reveal_strlit("active");
    assert("exhausted"@[0] == 'e' && "warning"@[0] == 'w' && "active"@[0] == 'a');
}

/// The status of an enabled money limit above zero shows what was spent, in US dollars
/// and in the currency of the limit, and the percentage that the latter is of it.
pub proof fn law_money_status(
    seen: StatusReplies,
    known: Seq<AppType>,
    provider_id: Seq<char>,
    app_type: Seq<char>,
    now: i64,
    provider: Provider,
    row: ApiKeyLimitRow,
    costs: Vec<String>,
    used_usd: Amount,
    limit: Amount,
    status: StatusView,
)
    requires
        seen.showing(known, provider_id, app_type, now) == Showing::Shown(status),
        seen.provider == Some(Ok::<Option<Provider>, AppError>(Some(provider))),
        resolved(provider, app_type) is StaticKey,
        seen.limit == Some(Ok::<Option<ApiKeyLimitRow>, AppError>(Some(row))),
        row.enabled,
        row.limit_type@ == "money"@,
        seen.usage.costs == Some(Ok::<Vec<String>, AppError>(costs)),
        lenient_total(costs@) == Some(used_usd),
        decimal_from_str(trimmed(row.limit_amount@)) == Ok::<Amount, Seq<char>>(limit),
    ensures
        status.used_money_usd == amount_text(used_usd),
        row@.currency != Some("CNY"@) ==> status.used_money_in_currency == Some(
            amount_text(used_usd),
        ) && (limit.units() > 0 ==> shows_percentage(status, used_usd, limit)),
        row@.currency == Some("CNY"@) ==> (seen.usage.rate_setting matches Some(Ok(setting)) && (
        decimal_product(used_usd, exchange_rate(text_of(setting))) matches Some(used)
            && status.used_money_in_currency == Some(amount_text(used)) && (limit.units() > 0
            ==> shows_percentage(status, used, limit)))),
        limit.units() <= 0 ==> status.percent_used == Some(
            amount_text(Amount { mantissa: 0, scale: 0 }),
        ),
{
    lemma_names_differ();
    lemma_states();
}

/// The status of an enabled token limit above zero shows the tokens used, and the
/// percentage that they are of the limit; it shows no amount in the currency.
pub proof fn law_token_status(
    seen: StatusReplies,
    known: Seq<AppType>,
    provider_id: Seq<char>,
    app_type: Seq<char>,
    now: i64,
    provider: Provider,
    row: ApiKeyLimitRow,
    tokens: i64,
    limit: int,
    status: StatusView,
)
    requires
        seen.showing(known, provider_id, app_type, now) == Showing::Shown(status),
        seen.provider == Some(Ok::<Option<Provider>, AppError>(Some(provider))),
        resolved(provider, app_type) is StaticKey,
        seen.limit == Some(Ok::<Option<ApiKeyLimitRow>, AppError>(Some(row))),
        row.enabled,
        row.limit_type@ == "token"@,
        seen.usage.usage == Some(Ok::<i64, AppError>(tokens)),
        signed_value(row.limit_amount@) == Some(limit),
    ensures
        status.used_tokens == tokens,
        status.used_money_in_currency is None,
        limit > 0 ==> shows_percentage(
            status,
            Amount { mantissa: tokens as i128, scale: 0 },
            Amount { mantissa: limit as i128, scale: 0 },
        ),
{
    lemma_units_sign(Amount { mantissa: limit as i128, scale: 0 });
    lemma_names_differ();
    lemma_states();
}

/// A status names its provider and application, and shows the settings of the stored
/// limit as they are; without a stored limit it shows none.
pub proof fn law_status_shows_the_settings(
    seen: StatusReplies,
    known: Seq<AppType>,
    provider_id: Seq<char>,
    app_type: Seq<char>,
    now: i64,
    status: StatusView,
)
    requires
        seen.showing(known, provider_id, app_type, now) == Showing::Shown(status),
    ensures
        status.provider_id == provider_id,
        status.app_type == app_type,
        seen.limit matches Some(Ok(Some(row))) ==> status.enabled == row.enabled
            && status.limit_type == Some(row.limit_type@) && status.currency == text_of(
            row.currency,
        ) && status.limit_amount == Some(row.limit_amount@) && status.usage_start_at == Some(
            row.usage_start_at,
        ) && status.reset_interval_seconds == row.reset_interval_seconds,
        seen.limit matches Some(Ok(None)) ==> !status.enabled && status.limit_type is None
            && status.currency is None && status.limit_amount is None && status.usage_start_at
            is None && status.reset_interval_seconds is None && status.state == "off"@
            && status.used_tokens == 0 && status.used_money_usd == "0"@ && status.percent_used
            is None && status.unpriced_request_count == 0,
        seen.rolled,
{
}

/// A status shows the usage of the key in the window, also while the limit is switched
/// off; without a static key it shows none.
pub proof fn law_status_shows_the_usage(
    seen: StatusReplies,
    known: Seq<AppType>,
    provider_id: Seq<char>,
    app_type: Seq<char>,
    now: i64,
    provider: Provider,
    row: ApiKeyLimitRow,
    status: StatusView,
)
    requires
        seen.showing(known, provider_id, app_type, now) == Showing::Shown(status),
        seen.provider == Some(Ok::<Option<Provider>, AppError>(Some(provider))),
        seen.limit == Some(Ok::<Option<ApiKeyLimitRow>, AppError>(Some(row))),
    ensures
        resolved(provider, app_type) is StaticKey ==> (seen.usage.usage matches Some(Ok(tokens))
            && status.used_tokens == tokens) && (seen.usage.costs matches Some(Ok(costs)) && (
        lenient_total(costs@) matches Some(used_usd) && status.used_money_usd == amount_text(
            used_usd,
        ))) && (seen.zero_cost_models matches Some(Ok(models)) && unpriced_count(models@) == Some(
            status.unpriced_request_count,
        ) && status.unpriced_models == unpriced_names(models@)),
        resolved(provider, app_type) is Unsupported ==> status.used_tokens == 0
            && status.used_money_usd == "0"@ && status.percent_used is None && status.state
            == "off"@,
{
}

/// A status tells whether the limit is enforced: with a static key exactly where the
/// proxy was found switched on, and never without one. It shows the masked key alone.
pub proof fn law_status_tells_whether_it_is_enforced(
    seen: StatusReplies,
    known: Seq<AppType>,
    provider_id: Seq<char>,
    app_type: Seq<char>,
    now: i64,
    provider: Provider,
    status: StatusView,
)
    requires
        seen.showing(known, provider_id, app_type, now) == Showing::Shown(status),
        seen.provider == Some(Ok::<Option<Provider>, AppError>(Some(provider))),
    ensures
        match resolved(provider, app_type) {
            CredentialView::Unsupported => status.enforcement
                == EnforcementSupport::UnsupportedCredential && status.masked_credential is None,
            CredentialView::StaticKey { masked_key, .. } => {
                &&& status.masked_credential == Some(masked_key)
                &&& status.enforcement == EnforcementSupport::Active <==> (
                seen.proxy_flag matches Some(Ok(Some(flag))) && flag != 0)
                &&& status.enforcement != EnforcementSupport::UnsupportedCredential
            },
        },
{
}

/// Before a status is shown these are asked, in this order: the provider, the switch
/// of the proxy for a static key, a new window as of now, and the limit. An unknown
/// application or provider ends it at once.
pub proof fn law_status_asks_in_order(
    seen: StatusReplies,
    known: Seq<AppType>,
    provider_id: Seq<char>,
    app_type: Seq<char>,
    now: i64,
    provider: Provider,
)
    ensures
        ({
            let showing = seen.showing(known, provider_id, app_type, now);
            &&& (forall|i: int| 0 <= i < known.len() ==> (#[trigger] known[i]).name@ != app_type)
                ==> showing is Failed
            &&& is_known_app(known, app_type) ==> {
                &&& seen.provider is None ==> showing == Showing::Ask(StatusQuestion::ReadProvider)
                &&& seen.provider matches Some(Ok(None)) ==> showing is Failed
                &&& seen.provider == Some(Ok::<Option<Provider>, AppError>(Some(provider))) ==> {
                    &&& resolved(provider, app_type) is StaticKey && seen.proxy_flag is None
                        ==> showing == Showing::Ask(StatusQuestion::ReadProxyFlag)
                    &&& (resolved(provider, app_type) is Unsupported || seen.proxy_flag is Some)
                        && !seen.rolled ==> showing == Showing::Ask(
                        StatusQuestion::RollWindow { now },
                    )
                    &&& (resolved(provider, app_type) is Unsupported || seen.proxy_flag is Some)
                        && seen.rolled && seen.limit is None ==> showing == Showing::Ask(
                        StatusQuestion::ReadLimit,
                    )
                }
            }
        }),
{
}

/// Requests of one more model are counted, and the model is named last, exactly where
/// no price is known for it and it is no placeholder.
pub proof fn law_unpriced_models_are_counted(
    models: Seq<ZeroCostModel>,
    model: ZeroCostModel,
    n: int,
)
    requires
        unpriced_count(models) == Some(n),
    ensures
        unpriced_count(Seq::empty()) == Some(0int),
        unpriced_names(Seq::empty()).len() == 0,
        model.priced || model.placeholder ==> unpriced_count(models.push(model)) == Some(n)
            && unpriced_names(models.push(model)) == unpriced_names(models),
        !model.priced && !model.placeholder ==> (i64::MIN <= n + model.count <= i64::MAX
            ==> unpriced_count(models.push(model)) == Some(n + model.count)) && unpriced_names(
            models.push(model),
        ) == unpriced_names(models).push(model.model@),
{
    assert(models.push(model).drop_last() =~= models);
}

/// What cannot be read ends a status with the error as it is; an unknown application or
/// provider, and a stored limit that makes no sense, end it with what was found.
pub proof fn law_status_failures(
    seen: StatusReplies,
    known: Seq<AppType>,
    provider_id: Seq<char>,
    app_type: Seq<char>,
    now: i64,
    provider: Provider,
    row: ApiKeyLimitRow,
    e: AppError,
)
    ensures
        ({
            let showing = seen.showing(known, provider_id, app_type, now);
            let has_key = is_known_app(known, app_type) && seen.provider == Some(
                Ok::<Option<Provider>, AppError>(Some(provider)),
            ) && resolved(provider, app_type) is StaticKey && seen.proxy_flag is Some
                && seen.rolled;
            let has_limit = has_key && seen.limit == Some(
                Ok::<Option<ApiKeyLimitRow>, AppError>(Some(row)),
            );
            let has_usage = has_limit && (seen.usage.usage matches Some(Ok(_))) && (
            seen.usage.costs matches Some(Ok(costs)) && lenient_total(costs@) is Some) && (
            seen.zero_cost_models matches Some(Ok(models)) && unpriced_count(models@) is Some);
            &&& !is_known_app(known, app_type) ==> showing == Showing::Failed(
                AppErrorView::InvalidInput("未知应用类型: "@ + app_type),
            )
            &&& is_known_app(known, app_type) && seen.provider == Some(
                Ok::<Option<Provider>, AppError>(None),
            ) ==> showing == Showing::Failed(
                AppErrorView::InvalidInput("Provider 不存在: "@ + provider_id),
            )
            &&& is_known_app(known, app_type) && seen.provider == Some(
                Err::<Option<Provider>, AppError>(e),
            ) ==> showing == Showing::Failed(e@)
            &&& has_key && seen.limit == Some(Err::<Option<ApiKeyLimitRow>, AppError>(e))
                ==> showing == Showing::Failed(e@)
            &&& has_limit && seen.usage.usage == Some(Err::<i64, AppError>(e)) ==> showing
                == Showing::Failed(e@)
            &&& has_limit && (seen.usage.usage matches Some(Ok(_))) && seen.usage.costs == Some(
                Err::<Vec<String>, AppError>(e),
            ) ==> showing == Showing::Failed(e@)
            &&& has_usage && row.enabled && row.limit_type@ != "token"@ && row.limit_type@
                != "money"@ ==> showing == Showing::Failed(
                AppErrorView::Database("限额类型非法: "@ + row.limit_type@),
            )
            &&& has_usage && row.enabled && row.limit_type@ == "token"@ && signed_value(
                row.limit_amount@,
            ) is None ==> showing == Showing::Failed(
                AppErrorView::Database("限额 Token 数非法: "@ + row.limit_amount@),
            )
            &&& has_usage && row.enabled && row.limit_type@ == "money"@ && decimal_from_str(
                trimmed(row.limit_amount@),
            ) is Err ==> showing == Showing::Failed(
                AppErrorView::Database("限额金额非法: "@ + row.limit_amount@),
            )
            &&& has_usage && !row.enabled ==> showing is Shown
            &&& has_usage && row.enabled && row.limit_type@ == "token"@ && (signed_value(
                row.limit_amount@,
            ) matches Some(limit) && limit <= 0) ==> showing is Shown
        }),
{
    lemma_names_differ();
    if let Some(limit) = signed_value(row.limit_amount@) {
        lemma_units_sign(Amount { mantissa: limit as i128, scale: 0 });
    }
}

/// Once the limit is read these are asked, in this order, of the key in use and from the
/// start of the window: the tokens, the costs, the models without a price, and for an
/// enabled limit in yuan the exchange rate.
pub proof fn law_status_asks_for_usage_in_order(
    seen: StatusReplies,
    known: Seq<AppType>,
    provider_id: Seq<char>,
    app_type: Seq<char>,
    now: i64,
    provider: Provider,
    row: ApiKeyLimitRow,
    fingerprint: Seq<char>,
    limit: Amount,
    e: AppError,
)
    requires
        is_known_app(known, app_type),
        seen.provider == Some(Ok::<Option<Provider>, AppError>(Some(provider))),
        resolved(provider, app_type) matches CredentialView::StaticKey { fingerprint: f, .. } && f
            == fingerprint,
        seen.proxy_flag is Some,
        seen.rolled,
        seen.limit == Some(Ok::<Option<ApiKeyLimitRow>, AppError>(Some(row))),
    ensures
        ({
            let showing = seen.showing(known, provider_id, app_type, now);
            let since = row.usage_start_at;
            &&& seen.usage.usage is None ==> showing == Showing::Ask(
                StatusQuestion::ReadUsage { fingerprint, since },
            )
            &&& seen.usage.usage matches Some(Ok(_)) ==> {
                &&& seen.usage.costs is None ==> showing == Showing::Ask(
                    StatusQuestion::ReadCosts { fingerprint, since },
                )
                &&& seen.usage.costs matches Some(Ok(costs)) ==> {
                    &&& lenient_total(costs@) is None ==> showing is OutOfRange
                    &&& lenient_total(costs@) is Some ==> {
                        &&& seen.zero_cost_models is None ==> showing == Showing::Ask(
                            StatusQuestion::ReadZeroCostModels { fingerprint, since },
                        )
                        &&& seen.zero_cost_models == Some(Err::<Vec<ZeroCostModel>, AppError>(e))
                            ==> showing == Showing::Failed(e@)
                        &&& seen.zero_cost_models matches Some(Ok(models)) ==> {
                            &&& unpriced_count(models@) is None ==> showing is OutOfRange
                            &&& unpriced_count(models@) is Some && row.enabled && row.limit_type@
                                == "money"@ && row@.currency == Some("CNY"@) && decimal_from_str(
                                trimmed(row.limit_amount@),
                            ) == Ok::<Amount, Seq<char>>(limit) ==> {
                                &&& seen.usage.rate_setting is None ==> showing == Showing::Ask(
                                    StatusQuestion::ReadRate,
                                )
                                &&& seen.usage.rate_setting == Some(
                                    Err::<Option<String>, AppError>(e),
                                ) ==> showing == Showing::Failed(e@)
                            }
                        }
                    }
                }
            }
        }),
{
    lemma_names_differ();
}

/// A status is shown wherever the usage and the limit are known and the percentage can be
/// formed: nothing else holds it back.
pub proof fn law_status_is_shown(
    seen: StatusReplies,
    known: Seq<AppType>,
    provider_id: Seq<char>,
    app_type: Seq<char>,
    now: i64,
    provider: Provider,
    row: ApiKeyLimitRow,
    tokens: i64,
    costs: Vec<String>,
    used_usd: Amount,
    models: Vec<ZeroCostModel>,
    limit: Amount,
    hundredfold: Amount,
)
    requires
        is_known_app(known, app_type),
        seen.provider == Some(Ok::<Option<Provider>, AppError>(Some(provider))),
        resolved(provider, app_type) is StaticKey,
        seen.proxy_flag is Some,
        seen.rolled,
        seen.limit == Some(Ok::<Option<ApiKeyLimitRow>, AppError>(Some(row))),
        seen.usage.usage == Some(Ok::<i64, AppError>(tokens)),
        seen.usage.costs == Some(Ok::<Vec<String>, AppError>(costs)),
        lenient_total(costs@) == Some(used_usd),
        seen.zero_cost_models == Some(Ok::<Vec<ZeroCostModel>, AppError>(models)),
        unpriced_count(models@) is Some,
        row.enabled,
        row.limit_type@ == "money"@,
        row@.currency != Some("CNY"@),
        decimal_from_str(trimmed(row.limit_amount@)) == Ok::<Amount, Seq<char>>(limit),
        limit.units() > 0 ==> decimal_product(used_usd, Amount { mantissa: 100, scale: 0 }) == Some(
            hundredfold,
        ) && decimal_quotient(hundredfold, limit) is Some,
    ensures
        seen.showing(known, provider_id, app_type, now) is Shown,
{
    lemma_names_differ();
}

} // verus!
