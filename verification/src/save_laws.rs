//! Which limits are stored and which are turned down, said of what the user submits.

use crate::app_error::{AppError, AppErrorView};
use crate::credential::{resolved, AppType, CredentialView, Provider};
use crate::limit::{limit_amount_outcome, LimitType, UsageLimitConfig};
use crate::limit_laws::lemma_names_differ;
use crate::limit_row::{ApiKeyLimitRow, LimitRowView};
use crate::save::{saving, SaveAction, SaveReplies, Saving};
use crate::text::text_of;
use vstd::prelude::*;

verus! {

/// Whether one of the known applications has the name, and its provider was read and
/// has a static key with the fingerprint.
pub open spec fn has_key(
    known: Seq<AppType>,
    i: int,
    app_type: Seq<char>,
    seen: SaveReplies,
    fingerprint: Seq<char>,
) -> bool {
    &&& 0 <= i < known.len()
    &&& known[i].name@ == app_type
    &&& seen.provider matches Some(Ok(Some(provider)))
    &&& resolved(provider, app_type) matches CredentialView::StaticKey { fingerprint: f, .. }
    &&& f == fingerprint
}

/// Whether an interval is none, or `hours` whole hours and at least one.
pub open spec fn lasts(interval: Option<i64>, hours: int) -> bool {
    interval matches Some(seconds) ==> hours >= 1 && seconds == 3600 * hours
}

/// Every sound limit is stored for a static key, once the limit so far is read: one of
/// tokens without a currency or one of money in dollars or yuan, with an amount that is
/// taken, and with any whole number of hours as its interval or none. It counts for
/// that key, and from now on unless a window of the same key runs already.
pub proof fn law_every_sound_limit_is_stored(
    known: Seq<AppType>,
    i: int,
    provider_id: Seq<char>,
    app_type: Seq<char>,
    config: UsageLimitConfig,
    now: i64,
    seen: SaveReplies,
    fingerprint: Seq<char>,
    raw: String,
    amount: Seq<char>,
    hours: int,
    existing: ApiKeyLimitRow,
)
    requires
        has_key(known, i, app_type, seen, fingerprint),
        (config.limit_type@ == "token"@ && config.currency is None && limit_amount_outcome(
            LimitType::Token,
            raw@,
        ) == Ok::<Seq<char>, AppErrorView>(amount)) || (config.limit_type@ == "money"@ && (text_of(
            config.currency,
        ) == Some("USD"@) || text_of(config.currency) == Some("CNY"@)) && limit_amount_outcome(
            LimitType::Money,
            raw@,
        ) == Ok::<Seq<char>, AppErrorView>(amount)),
        config.limit_amount == Some(raw),
        lasts(config.reset_interval_seconds, hours),
        seen.stored is None,
    ensures
        ({
            let outcome = saving(known, provider_id, app_type, config, now, seen);
            let submitted = LimitRowView {
                provider_id,
                app_type,
                credential_fingerprint: fingerprint,
                enabled: config.enabled,
                limit_type: config.limit_type@,
                currency: text_of(config.currency),
                limit_amount: amount,
                usage_start_at: now,
                reset_interval_seconds: config.reset_interval_seconds,
                created_at: now,
                updated_at: now,
            };
            &&& seen.limit is None ==> outcome == Saving::Ask(SaveAction::ReadLimit)
            &&& seen.limit == Some(Ok::<Option<ApiKeyLimitRow>, AppError>(None)) ==> outcome
                == Saving::Store(submitted)
            &&& seen.limit == Some(Ok::<Option<ApiKeyLimitRow>, AppError>(Some(existing)))
                && existing.credential_fingerprint@ != fingerprint && config.enabled ==> outcome
                == Saving::Store(LimitRowView { created_at: existing.created_at, ..submitted })
            &&& seen.limit == Some(Ok::<Option<ApiKeyLimitRow>, AppError>(Some(existing)))
                && existing.credential_fingerprint@ == fingerprint && config.enabled ==> outcome
                == Saving::Store(
                LimitRowView {
                    created_at: existing.created_at,
                    usage_start_at: existing.usage_start_at,
                    ..submitted
                },
            )
            &&& seen.limit == Some(Ok::<Option<ApiKeyLimitRow>, AppError>(Some(existing)))
                && existing.credential_fingerprint@ == fingerprint && !config.enabled ==> outcome
                == Saving::Store(
                LimitRowView { enabled: false, updated_at: now, ..existing@ },
            )
            &&& seen.limit == Some(Ok::<Option<ApiKeyLimitRow>, AppError>(Some(existing)))
                && existing.credential_fingerprint@ != fingerprint && !config.enabled ==> outcome
                == Saving::Store(
                LimitRowView {
                    enabled: false,
                    updated_at: now,
                    usage_start_at: now,
                    credential_fingerprint: fingerprint,
                    ..existing@
                },
            )
        }),
{
    lemma_names_differ();
}

/// Whether saving ends in a complaint about what was submitted.
pub open spec fn complains(outcome: Saving, about: Seq<char>) -> bool {
    outcome == Saving::Reject(AppErrorView::InvalidInput(about))
}

/// What is wrong with a submitted limit is said in this order: its kind, its currency,
/// a missing amount, its amount, and its interval. Nothing is read or stored then.
pub proof fn law_complaints(
    known: Seq<AppType>,
    i: int,
    provider_id: Seq<char>,
    app_type: Seq<char>,
    config: UsageLimitConfig,
    now: i64,
    seen: SaveReplies,
    fingerprint: Seq<char>,
    raw: String,
    amount: Seq<char>,
    hours: int,
)
    requires
        has_key(known, i, app_type, seen, fingerprint),
    ensures
        ({
            let outcome = saving(known, provider_id, app_type, config, now, seen);
            let currency = text_of(config.currency);
            let token = config.limit_type@ == "token"@ && currency is None;
            let money = config.limit_type@ == "money"@ && (currency == Some("USD"@) || currency
                == Some("CNY"@));
            &&& config.limit_type@ != "token"@ && config.limit_type@ != "money"@ ==> complains(
                outcome,
                "限额类型非法: "@ + config.limit_type@,
            )
            &&& config.limit_type@ == "token"@ && currency is Some ==> complains(
                outcome,
                "Token 限额不需要币种"@,
            )
            &&& config.limit_type@ == "money"@ && !money ==> complains(
                outcome,
                "金额限额必须提供币种（USD 或 CNY）"@,
            )
            &&& (token || money) && config.limit_amount is None ==> complains(
                outcome,
                "缺少限额数值"@,
            )
            &&& token && config.limit_amount == Some(raw) && limit_amount_outcome(
                LimitType::Token,
                raw@,
            ) is Err ==> outcome is Reject
            &&& money && config.limit_amount == Some(raw) && limit_amount_outcome(
                LimitType::Money,
                raw@,
            ) is Err ==> outcome is Reject
            &&& (token && limit_amount_outcome(LimitType::Token, raw@) == Ok::<
                Seq<char>,
                AppErrorView,
            >(amount) || money && limit_amount_outcome(LimitType::Money, raw@) == Ok::<
                Seq<char>,
                AppErrorView,
            >(amount)) && config.limit_amount == Some(raw) && (
            config.reset_interval_seconds matches Some(seconds) && (seconds < 3600 || 3600 * hours
                < seconds < 3600 * (hours + 1))) ==> complains(
                outcome,
                "自动重置周期必须是至少 1 小时的整小时数"@,
            )
        }),
{
    lemma_names_differ();
    if let Some(seconds) = config.reset_interval_seconds {
        if 3600 * hours < seconds < 3600 * (hours + 1) {
            assert(seconds as int / 3600 == hours);
        }
    }
}

/// An unknown application, an unknown provider and a provider without a static key end
/// it before what was submitted is looked at.
pub proof fn law_saving_needs_a_key(
    known: Seq<AppType>,
    i: int,
    provider_id: Seq<char>,
    app_type: Seq<char>,
    config: UsageLimitConfig,
    now: i64,
    seen: SaveReplies,
    provider: Provider,
)
    ensures
        ({
            let outcome = saving(known, provider_id, app_type, config, now, seen);
            &&& (forall|k: int| 0 <= k < known.len() ==> (#[trigger] known[k]).name@ != app_type)
                ==> complains(outcome, "未知应用类型: "@ + app_type)
            &&& 0 <= i < known.len() && known[i].name@ == app_type ==> {
                &&& seen.provider is None ==> outcome == Saving::Ask(SaveAction::ReadProvider)
                &&& seen.provider == Some(Ok::<Option<Provider>, AppError>(None)) ==> complains(
                    outcome,
                    "Provider 不存在: "@ + provider_id,
                )
                &&& seen.provider == Some(Ok::<Option<Provider>, AppError>(Some(provider)))
                    && resolved(provider, app_type) is Unsupported ==> complains(
                    outcome,
                    "该 Provider 没有可识别的静态 API Key，无法设置使用限额"@,
                )
            }
        }),
{
}

/// A failure to read the provider or the limit so far, or to store the row, ends it with
/// the error as it is.
pub proof fn law_saving_failures(
    known: Seq<AppType>,
    i: int,
    provider_id: Seq<char>,
    app_type: Seq<char>,
    config: UsageLimitConfig,
    now: i64,
    before: SaveReplies,
    after: SaveReplies,
    e: AppError,
)
    requires
        0 <= i < known.len(),
        known[i].name@ == app_type,
    ensures
        before.provider == Some(Err::<Option<Provider>, AppError>(e)) ==> saving(
            known,
            provider_id,
            app_type,
            config,
            now,
            before,
        ) == Saving::Reject(e@),
        saving(known, provider_id, app_type, config, now, before) == Saving::Ask(
            SaveAction::ReadLimit,
        ) && after == (SaveReplies {
            limit: Some(Err::<Option<ApiKeyLimitRow>, AppError>(e)),
            ..before
        }) ==> saving(known, provider_id, app_type, config, now, after) == Saving::Reject(e@),
        saving(known, provider_id, app_type, config, now, before) is Store && after == (
        SaveReplies { stored: Some(Err::<(), AppError>(e)), ..before }) ==> saving(
            known,
            provider_id,
            app_type,
            config,
            now,
            after,
        ) == Saving::Reject(e@),
{
}

} // verus!
