//! Saving a limit.

use crate::app_error::{outcome, AppError, AppErrorView};
use crate::credential::{
    is_known_app, parse_app_type, resolve_credential, resolved, AppType, CredentialResolution,
    CredentialView, Provider,
};
use crate::decimal::decimal_from_str;
use crate::ledger::Database;
use crate::limit::{
    acceptable_interval, law_currency_names, law_limit_type_names, limit_amount_outcome,
    validate_limit_amount, validate_reset_interval_seconds, LimitCurrency, LimitType,
    UsageLimitConfig,
};
use crate::limit_row::{ApiKeyLimitRow, LimitRowView};
use crate::status::{copy_text, Showing, StatusReplies, StatusStep};
use crate::text::{
    concat, digits, digits_value, is_digit, lemma_digits_denote, same_text, signed_value, text_of,
    trimmed,
};
use vstd::prelude::*;

verus! {

/// A question to the storage on the way to saving a limit.
#[derive(Clone, Copy, Debug, PartialEq, Eq, Structural)]
pub enum SaveAction {
    ReadProvider,
    ReadLimit,
}

/// The replies to saving a limit, as far as they are in.
#[derive(Debug)]
pub struct SaveReplies {
    pub provider: Option<Result<Option<Provider>, AppError>>,
    /// The limit that is stored so far.
    pub limit: Option<Result<Option<ApiKeyLimitRow>, AppError>>,
    /// How storing the row went.
    pub stored: Option<Result<(), AppError>>,
    /// The replies to the status that is read afterwards.
    pub status: StatusReplies,
}

/// How far saving a limit has come.
pub enum Saving {
    /// It takes another reply.
    Ask(SaveAction),
    /// The row to store.
    Store(LimitRowView),
    Reject(AppErrorView),
    /// The row is stored; the answer is the status of the limit.
    Status(Showing),
}

/// What comes of saving a limit.
#[derive(Debug)]
pub enum SaveStep {
    Ask(SaveAction),
    Store(ApiKeyLimitRow),
    Reject(AppError),
    /// The next step to the status of the stored limit.
    Status(StatusStep),
}

impl View for SaveStep {
    type V = Saving;

    open spec fn view(&self) -> Saving {
        match self {
            SaveStep::Ask(action) => Saving::Ask(*action),
            SaveStep::Store(row) => Saving::Store(row@),
            SaveStep::Reject(e) => Saving::Reject(e@),
            SaveStep::Status(step) => Saving::Status(step@),
        }
    }
}

/// The part of a row that the user submits.
pub struct Settings {
    pub limit_type: LimitType,
    pub currency: Option<LimitCurrency>,
    pub limit_amount: Seq<char>,
    pub reset_interval_seconds: Option<i64>,
}

/// What is submitted, checked: a money limit names its currency and a token limit
/// names none, the amount is in canonical notation, and an interval is a whole
/// number of hours.
pub open spec fn checked(config: UsageLimitConfig) -> Result<Settings, AppErrorView> {
    match LimitType::named(config.limit_type@) {
        None => Err(AppErrorView::InvalidInput("限额类型非法: "@ + config.limit_type@)),
        Some(limit_type) => match submitted_currency(limit_type, text_of(config.currency)) {
            Err(e) => Err(e),
            Ok(currency) => match text_of(config.limit_amount) {
                None => Err(AppErrorView::InvalidInput("缺少限额数值"@)),
                Some(raw) => match limit_amount_outcome(limit_type, raw) {
                    Err(e) => Err(e),
                    Ok(limit_amount) => match config.reset_interval_seconds {
                        Some(seconds) if !acceptable_interval(seconds as int) => Err(
                            AppErrorView::InvalidInput("自动重置周期必须是至少 1 小时的整小时数"@),
                        ),
                        reset_interval_seconds => Ok(
                            Settings { limit_type, currency, limit_amount, reset_interval_seconds },
                        ),
                    },
                },
            },
        },
    }
}

pub open spec fn submitted_currency(limit_type: LimitType, raw: Option<Seq<char>>) -> Result<
    Option<LimitCurrency>,
    AppErrorView,
> {
    match (limit_type, raw) {
        (LimitType::Token, None) => Ok(None),
        (LimitType::Token, Some(_)) => Err(AppErrorView::InvalidInput("Token 限额不需要币种"@)),
        (LimitType::Money, Some(name)) if LimitCurrency::named(name) is Some => Ok(
            LimitCurrency::named(name),
        ),
        (LimitType::Money, _) => Err(
            AppErrorView::InvalidInput("金额限额必须提供币种（USD 或 CNY）"@),
        ),
    }
}

/// The start of the window: a new limit, and one whose key has changed, starts now;
/// any other keeps its window.
pub open spec fn window_start(
    fingerprint: Seq<char>,
    existing: Option<LimitRowView>,
    now: i64,
) -> i64 {
    match existing {
        Some(row) if row.credential_fingerprint == fingerprint => row.usage_start_at,
        _ => now,
    }
}

/// The row that settings become. Switching a limit off flips the switch alone: what
/// is stored of it stays, and only a changed key is taken over.
pub open spec fn stored_row(
    provider_id: Seq<char>,
    app_type: Seq<char>,
    fingerprint: Seq<char>,
    enabled: bool,
    settings: Settings,
    existing: Option<LimitRowView>,
    now: i64,
) -> LimitRowView {
    let usage_start_at = window_start(fingerprint, existing, now);
    match existing {
        Some(row) if !enabled => LimitRowView {
            credential_fingerprint: fingerprint,
            enabled: false,
            usage_start_at,
            updated_at: now,
            ..row
        },
        _ => LimitRowView {
            provider_id,
            app_type,
            credential_fingerprint: fingerprint,
            enabled,
            limit_type: settings.limit_type.name(),
            currency: match settings.currency {
                Some(c) => Some(c.name()),
                None => None,
            },
            limit_amount: settings.limit_amount,
            usage_start_at,
            reset_interval_seconds: settings.reset_interval_seconds,
            created_at: match existing {
                Some(row) => row.created_at,
                None => now,
            },
            updated_at: now,
        },
    }
}

pub open spec fn row_view(row: Option<ApiKeyLimitRow>) -> Option<LimitRowView> {
    match row {
        Some(r) => Some(r@),
        None => None,
    }
}

/// What comes of saving a limit on the replies that are in.
pub open spec fn saving(
    known: Seq<AppType>,
    provider_id: Seq<char>,
    app_type: Seq<char>,
    config: UsageLimitConfig,
    now: i64,
    seen: SaveReplies,
) -> Saving {
    if !is_known_app(known, app_type) {
        Saving::Reject(AppErrorView::InvalidInput("未知应用类型: "@ + app_type))
    } else {
        match seen.provider {
            None => Saving::Ask(SaveAction::ReadProvider),
            Some(Err(e)) => Saving::Reject(e@),
            Some(Ok(None)) => Saving::Reject(
                AppErrorView::InvalidInput("Provider 不存在: "@ + provider_id),
            ),
            Some(Ok(Some(provider))) => match (resolved(provider, app_type), checked(config)) {
                (CredentialView::Unsupported, _) => Saving::Reject(
                    AppErrorView::InvalidInput(
                        "该 Provider 没有可识别的静态 API Key，无法设置使用限额"@,
                    ),
                ),
                (CredentialView::StaticKey { .. }, Err(e)) => Saving::Reject(e),
                (CredentialView::StaticKey { fingerprint, .. }, Ok(settings)) => match seen.limit {
                    None => Saving::Ask(SaveAction::ReadLimit),
                    Some(Err(e)) => Saving::Reject(e@),
                    Some(Ok(existing)) => match seen.stored {
                        None => Saving::Store(
                            stored_row(
                                provider_id,
                                app_type,
                                fingerprint,
                                config.enabled,
                                settings,
                                row_view(existing),
                                now,
                            ),
                        ),
                        Some(Err(e)) => Saving::Reject(e@),
                        Some(Ok(_)) => Saving::Status(
                            seen.status.showing(known, provider_id, app_type, now),
                        ),
                    },
                },
            },
        }
    }
}

impl SaveReplies {
    /// No reply yet.
    pub fn none() -> (r: SaveReplies)
        ensures
            r.provider is None,
            r.limit is None,
            r.stored is None,
            r.status.provider is None,
            r.status.proxy_flag is None,
            !r.status.rolled,
            r.status.limit is None,
            r.status.usage.usage is None,
            r.status.usage.rate_setting is None,
            r.status.usage.costs is None,
            r.status.zero_cost_models is None,
    {
        SaveReplies { provider: None, limit: None, stored: None, status: StatusReplies::none() }
    }
}

struct CheckedSettings {
    limit_type: LimitType,
    currency: Option<LimitCurrency>,
    limit_amount: String,
    reset_interval_seconds: Option<i64>,
}

impl CheckedSettings {
    spec fn settings(self) -> Settings {
        Settings {
            limit_type: self.limit_type,
            currency: self.currency,
            limit_amount: self.limit_amount@,
            reset_interval_seconds: self.reset_interval_seconds,
        }
    }
}

fn check_currency(limit_type: LimitType, raw: &Option<String>) -> (r: Result<
    Option<LimitCurrency>,
    AppError,
>)
    ensures
        outcome(r) == submitted_currency(limit_type, text_of(*raw)),
{
    match limit_type {
        LimitType::Token => match raw {
            Some(_) => Err(AppError::InvalidInput("Token 限额不需要币种".to_owned())),
            None => Ok(None),
        },
        LimitType::Money => match raw {
            Some(name) => match LimitCurrency::parse(name.as_str()) {
                Some(c) => Ok(Some(c)),
                None => Err(
                    AppError::InvalidInput("金额限额必须提供币种（USD 或 CNY）".to_owned()),
                ),
            },
            None => Err(AppError::InvalidInput("金额限额必须提供币种（USD 或 CNY）".to_owned())),
        },
    }
}

fn check_config(config: &UsageLimitConfig) -> (r: Result<CheckedSettings, AppError>)
    ensures
        match r {
            Ok(s) => checked(*config) == Ok::<Settings, AppErrorView>(s.settings())
                && limit_amount_outcome(s.limit_type, s.limit_amount@) == Ok::<
                Seq<char>,
                AppErrorView,
            >(s.limit_amount@),
            Err(e) => checked(*config) == Err::<Settings, AppErrorView>(e@),
        },
{
    let limit_type: LimitType = match LimitType::parse(config.limit_type.as_str()) {
        Some(t) => t,
        None => {
            return Err(
                AppError::InvalidInput(concat("限额类型非法: ", config.limit_type.as_str())),
            );
        },
    };
    let currency: Option<LimitCurrency> = match check_currency(limit_type, &config.currency) {
        Ok(c) => c,
        Err(e) => {
            return Err(e);
        },
    };
    let limit_amount: String = match &config.limit_amount {
        None => {
            return Err(AppError::InvalidInput("缺少限额数值".to_owned()));
        },
        Some(raw) => match validate_limit_amount(limit_type, raw.as_str()) {
            Ok(amount) => amount,
            Err(e) => {
                return Err(e);
            },
        },
    };
    match validate_reset_interval_seconds(config.reset_interval_seconds) {
        Ok(reset_interval_seconds) => Ok(
            CheckedSettings { limit_type, currency, limit_amount, reset_interval_seconds },
        ),
        Err(e) => Err(e),
    }
}

impl Database {
    /// Checks a limit that the user submits and says what to store, or what has to
    /// be asked first. Once the row is stored the answer is the status of the limit.
    ///
    /// Switching a limit off keeps its settings and its window.
    pub fn save_budget_config(
        known: &Vec<AppType>,
        provider_id: &str,
        app_type: &str,
        config: &UsageLimitConfig,
        now: i64,
        seen: &SaveReplies,
    ) -> (r: SaveStep)
        ensures
            r@ == saving(known@, provider_id@, app_type@, *config, now, *seen),
            r matches SaveStep::Store(row) ==> ((config.enabled || seen.limit == Some(
                Ok::<Option<ApiKeyLimitRow>, AppError>(None),
            )) ==> (LimitType::named(row.limit_type@) matches Some(t) && limit_amount_outcome(
                t,
                row.limit_amount@,
            ) == Ok::<Seq<char>, AppErrorView>(row.limit_amount@))),
    {
        let app: AppType = match parse_app_type(known, app_type) {
            Some(app) => app,
            None => {
                return SaveStep::Reject(
                    AppError::InvalidInput(concat("未知应用类型: ", app_type)),
                );
            },
        };
        let provider: &Provider = match &seen.provider {
            None => {
                return SaveStep::Ask(SaveAction::ReadProvider);
            },
            Some(Err(e)) => {
                return SaveStep::Reject(e.duplicate());
            },
            Some(Ok(None)) => {
                return SaveStep::Reject(
                    AppError::InvalidInput(concat("Provider 不存在: ", provider_id)),
                );
            },
            Some(Ok(Some(provider))) => provider,
        };
        let fingerprint: String = match resolve_credential(provider, &app) {
            CredentialResolution::StaticKey { fingerprint, masked_key: _ } => fingerprint,
            CredentialResolution::Unsupported => {
                return SaveStep::Reject(
                    AppError::InvalidInput(
                        "该 Provider 没有可识别的静态 API Key，无法设置使用限额".to_owned(),
                    ),
                );
            },
        };
        let settings: CheckedSettings = match check_config(config) {
            Ok(settings) => settings,
            Err(e) => {
                return SaveStep::Reject(e);
            },
        };
        let existing: &Option<ApiKeyLimitRow> = match &seen.limit {
            None => {
                return SaveStep::Ask(SaveAction::ReadLimit);
            },
            Some(Err(e)) => {
                return SaveStep::Reject(e.duplicate());
            },
            Some(Ok(existing)) => existing,
        };
        match &seen.stored {
            None => {},
            Some(Err(e)) => {
                return SaveStep::Reject(e.duplicate());
            },
            Some(Ok(_)) => {
                return SaveStep::Status(
                    Database::get_budget_status(known, provider_id, app_type, now, &seen.status),
                );
            },
        }
        let (usage_start_at, created_at): (i64, i64) = match existing {
            None => (now, now),
            Some(row) => {
                if same_text(row.credential_fingerprint.as_str(), fingerprint.as_str()) {
                    (row.usage_start_at, row.created_at)
                } else {
                    (now, row.created_at)
                }
            },
        };
        if !config.enabled {
            match existing {
                None => {},
                Some(row) => {
                    return SaveStep::Store(
                        ApiKeyLimitRow {
                            provider_id: row.provider_id.clone(),
                            app_type: row.app_type.clone(),
                            credential_fingerprint: fingerprint,
                            enabled: false,
                            limit_type: row.limit_type.clone(),
                            currency: copy_text(&row.currency),
                            limit_amount: row.limit_amount.clone(),
                            usage_start_at,
                            reset_interval_seconds: row.reset_interval_seconds,
                            created_at: row.created_at,
                            updated_at: now,
                        },
                    );
                },
            }
        }
        let currency: Option<String> = match settings.currency {
            Some(c) => Some(c.as_str().to_owned()),
            None => None,
        };
        proof {
            law_limit_type_names(settings.limit_type, settings.limit_type.name());
        }
        SaveStep::Store(
            ApiKeyLimitRow {
                provider_id: provider_id.to_owned(),
                app_type: app_type.to_owned(),
                credential_fingerprint: fingerprint,
                enabled: config.enabled,
                limit_type: settings.limit_type.as_str().to_owned(),
                currency,
                limit_amount: settings.limit_amount,
                usage_start_at,
                reset_interval_seconds: settings.reset_interval_seconds,
                created_at,
                updated_at: now,
            },
        )
    }
}

/// No question is asked again once its reply is in, so that saving ends.
pub proof fn law_saving_asks_nothing_twice(
    known: Seq<AppType>,
    provider_id: Seq<char>,
    app_type: Seq<char>,
    config: UsageLimitConfig,
    now: i64,
    seen: SaveReplies,
)
    ensures
        saving(known, provider_id, app_type, config, now, seen) matches Saving::Ask(action)
            ==> match action {
            SaveAction::ReadProvider => seen.provider is None,
            SaveAction::ReadLimit => seen.limit is None,
        },
        saving(known, provider_id, app_type, config, now, seen) is Store ==> seen.stored is None,
        saving(known, provider_id, app_type, config, now, seen) matches Saving::Status(
            Showing::Ask(question),
        ) ==> !seen.status.answered(question),
{
}

/// Once the row is stored, saving answers with the status of the limit, as it is
/// asked for on its own.
pub proof fn law_saving_answers_with_the_status(
    known: Seq<AppType>,
    provider_id: Seq<char>,
    app_type: Seq<char>,
    config: UsageLimitConfig,
    now: i64,
    before: SaveReplies,
    after: SaveReplies,
)
    requires
        saving(known, provider_id, app_type, config, now, before) is Store,
        after.provider == before.provider,
        after.limit == before.limit,
        after.stored == Some(Ok::<(), AppError>(())),
    ensures
        saving(known, provider_id, app_type, config, now, after) == Saving::Status(
            after.status.showing(known, provider_id, app_type, now),
        ),
{
}

/// Switching a stored limit off keeps its kind, currency, amount and interval, and
/// as long as the key is the same its window too.
pub proof fn law_switching_off_keeps_the_settings(
    known: Seq<AppType>,
    provider_id: Seq<char>,
    app_type: Seq<char>,
    config: UsageLimitConfig,
    now: i64,
    seen: SaveReplies,
    existing: ApiKeyLimitRow,
    row: LimitRowView,
)
    requires
        saving(known, provider_id, app_type, config, now, seen) == Saving::Store(row),
        seen.limit == Some(Ok::<Option<ApiKeyLimitRow>, AppError>(Some(existing))),
        !config.enabled,
    ensures
        !row.enabled,
        row.limit_type == existing@.limit_type,
        row.currency == existing@.currency,
        row.limit_amount == existing@.limit_amount,
        row.reset_interval_seconds == existing@.reset_interval_seconds,
        row.credential_fingerprint == existing@.credential_fingerprint ==> row == (LimitRowView {
            enabled: false,
            updated_at: now,
            ..existing@
        }),
{
}

/// Saving a limit anew keeps its window as long as the key is the same, whatever
/// else changes; with another key the window starts now, so that what the old key
/// used does not count.
pub proof fn law_window_survives_saving(
    known: Seq<AppType>,
    provider_id: Seq<char>,
    app_type: Seq<char>,
    config: UsageLimitConfig,
    now: i64,
    seen: SaveReplies,
    existing: ApiKeyLimitRow,
    row: LimitRowView,
)
    requires
        saving(known, provider_id, app_type, config, now, seen) == Saving::Store(row),
        seen.limit == Some(Ok::<Option<ApiKeyLimitRow>, AppError>(Some(existing))),
    ensures
        row.credential_fingerprint == existing.credential_fingerprint@ ==> row.usage_start_at
            == existing.usage_start_at,
        row.credential_fingerprint != existing.credential_fingerprint@ ==> row.usage_start_at
            == now,
        row.created_at == existing.created_at,
{
}

/// A limit that is saved for the first time counts from then on.
pub proof fn law_new_limit_starts_now(
    known: Seq<AppType>,
    provider_id: Seq<char>,
    app_type: Seq<char>,
    config: UsageLimitConfig,
    now: i64,
    seen: SaveReplies,
    row: LimitRowView,
)
    requires
        saving(known, provider_id, app_type, config, now, seen) == Saving::Store(row),
        seen.limit == Some(Ok::<Option<ApiKeyLimitRow>, AppError>(None)),
    ensures
        row.usage_start_at == now,
        row.created_at == now,
{
}

/// A stored limit is tied to the static key of the provider, by its fingerprint.
pub proof fn law_stored_limit_is_tied_to_the_key(
    known: Seq<AppType>,
    provider_id: Seq<char>,
    app_type: Seq<char>,
    config: UsageLimitConfig,
    now: i64,
    seen: SaveReplies,
    row: LimitRowView,
)
    requires
        saving(known, provider_id, app_type, config, now, seen) == Saving::Store(row),
    ensures
        seen.provider matches Some(Ok(Some(provider))) && (resolved(
            provider,
            app_type,
        ) matches CredentialView::StaticKey { fingerprint, .. } && row.credential_fingerprint
            == fingerprint),
{
}

/// A limit that is switched on, or new, is stored as it was submitted, with its
/// amount in canonical notation.
pub proof fn law_limit_is_stored_as_submitted(
    known: Seq<AppType>,
    provider_id: Seq<char>,
    app_type: Seq<char>,
    config: UsageLimitConfig,
    now: i64,
    seen: SaveReplies,
    row: LimitRowView,
)
    requires
        saving(known, provider_id, app_type, config, now, seen) == Saving::Store(row),
        config.enabled || seen.limit == Some(Ok::<Option<ApiKeyLimitRow>, AppError>(None)),
    ensures
        row.provider_id == provider_id,
        row.app_type == app_type,
        row.enabled == config.enabled,
        row.limit_type == config.limit_type@,
        row.currency == text_of(config.currency),
        LimitType::named(row.limit_type) matches Some(t) && config.limit_amount matches Some(raw)
            && limit_amount_outcome(t, raw@) == Ok::<Seq<char>, AppErrorView>(row.limit_amount),
        row.reset_interval_seconds == config.reset_interval_seconds,
        row.updated_at == now,
{
    law_limit_type_names(LimitType::Money, config.limit_type@);
    law_limit_type_names(LimitType::Token, config.limit_type@);
    if let Some(c) = config.currency {
        law_currency_names(LimitCurrency::Usd, c@);
        law_currency_names(LimitCurrency::Cny, c@);
    }
}

/// Only what makes sense is newly stored: a limit of a known kind, with a currency
/// exactly if it is a money limit, and with no interval or one of whole hours.
pub proof fn law_only_sound_limits_are_stored(
    known: Seq<AppType>,
    provider_id: Seq<char>,
    app_type: Seq<char>,
    config: UsageLimitConfig,
    now: i64,
    seen: SaveReplies,
    row: LimitRowView,
)
    requires
        saving(known, provider_id, app_type, config, now, seen) == Saving::Store(row),
        config.enabled || seen.limit == Some(Ok::<Option<ApiKeyLimitRow>, AppError>(None)),
    ensures
        is_known_app(known, row.app_type),
        LimitType::named(row.limit_type) is Some,
        LimitType::named(row.limit_type) == Some(LimitType::Money) <==> row.currency is Some,
        row.currency matches Some(c) ==> LimitCurrency::named(c) is Some,
        row.reset_interval_seconds matches Some(seconds) ==> acceptable_interval(seconds as int),
{
    law_limit_type_names(LimitType::Money, row.limit_type);
    law_limit_type_names(LimitType::Token, row.limit_type);
    law_currency_names(LimitCurrency::Usd, LimitCurrency::Usd.name());
    law_currency_names(LimitCurrency::Cny, LimitCurrency::Cny.name());
}

/// An amount in canonical notation can be enforced: a money amount reads as a
/// positive number, and so does a number of tokens of at most 63 bits. A larger
/// number of tokens can be stored, and cannot be enforced.
pub proof fn law_canonical_amount_can_be_enforced(limit_type: LimitType, amount: Seq<char>)
    requires
        limit_amount_outcome(limit_type, amount) == Ok::<Seq<char>, AppErrorView>(amount),
        limit_type == LimitType::Token ==> digits_value(amount) <= i64::MAX,
    ensures
        limit_type == LimitType::Money ==> (decimal_from_str(trimmed(amount)) matches Ok(a)
            && a.units() > 0),
        limit_type == LimitType::Token ==> (signed_value(amount) matches Some(n) && n > 0),
{
    if limit_type == LimitType::Token {
        let n = digits_value(trimmed(amount));
        lemma_digits_denote(n);
        assert(amount == digits(n));
        assert(is_digit(amount[0]));
    }
}

} // verus!
