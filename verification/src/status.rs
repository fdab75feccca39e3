//! The state of a limit as it is shown to the user.

use crate::app_error::{AppError, AppErrorView};
use crate::credential::{
    is_known_app, parse_app_type, resolve_credential, resolved, AppType, CredentialResolution,
    CredentialView, Provider,
};
use crate::decimal::{
    amount_text, at_most, decimal_from_str, decimal_product, decimal_quotient, fits_mantissa,
    lemma_units_sign, multiplies_exactly, parse_amount, pow10, print_amount, product, quotient, reaches,
    round_places, rounded_to, stays_within, Amount, MAX_SCALE,
};
use crate::decimal_laws::{law_rounding_is_nearest, law_rounding_stays_between_whole_numbers};
use crate::forward::{
    evaluation, lenient_total, used_in_currency, Evaluation, UsageQuery, UsageReplies,
};
use crate::ledger::{zero_amount, Database};
use crate::limit::{
    exchange_rate, EnforcementSupport, LimitCurrency, LimitType, WARNING_THRESHOLD_PERCENT,
};
use crate::limit_row::{ApiKeyLimitRow, LimitRowView};
use crate::text::{concat, signed_of, signed_value, text_of, trim, trimmed};
use vstd::prelude::*;

verus! {

/// The state of the limit of a provider.
#[derive(Clone, Debug)]
pub struct BudgetStatus {
    pub provider_id: String,
    pub app_type: String,
    pub enabled: bool,
    pub limit_type: Option<String>,
    pub currency: Option<String>,
    pub limit_amount: Option<String>,
    pub usage_start_at: Option<i64>,
    /// The seconds after which usage is reset; nothing for never.
    pub reset_interval_seconds: Option<i64>,
    /// What was used within the window, in US dollars.
    pub used_money_usd: String,
    /// What was used, in the currency of the limit.
    pub used_money_in_currency: Option<String>,
    pub used_tokens: i64,
    /// The percentage of the limit, which can go beyond 100.
    pub percent_used: Option<String>,
    /// `off`, `active`, `warning` or `exhausted`.
    pub state: String,
    /// The requests within the window that used tokens and have no price.
    pub unpriced_request_count: i64,
    /// The models of those requests.
    pub unpriced_models: Vec<String>,
    pub enforcement: EnforcementSupport,
    /// The masked key, where there is a static one.
    pub masked_credential: Option<String>,
}

/// A [`BudgetStatus`] with its texts as sequences of characters.
pub struct StatusView {
    pub provider_id: Seq<char>,
    pub app_type: Seq<char>,
    pub enabled: bool,
    pub limit_type: Option<Seq<char>>,
    pub currency: Option<Seq<char>>,
    pub limit_amount: Option<Seq<char>>,
    pub usage_start_at: Option<i64>,
    pub reset_interval_seconds: Option<i64>,
    pub used_money_usd: Seq<char>,
    pub used_money_in_currency: Option<Seq<char>>,
    pub used_tokens: i64,
    pub percent_used: Option<Seq<char>>,
    pub state: Seq<char>,
    pub unpriced_request_count: int,
    pub unpriced_models: Seq<Seq<char>>,
    pub enforcement: EnforcementSupport,
    pub masked_credential: Option<Seq<char>>,
}

pub open spec fn texts(list: Seq<String>) -> Seq<Seq<char>> {
    Seq::new(list.len(), |i: int| list[i]@)
}

impl View for BudgetStatus {
    type V = StatusView;

    open spec fn view(&self) -> StatusView {
        StatusView {
            provider_id: self.provider_id@,
            app_type: self.app_type@,
            enabled: self.enabled,
            limit_type: text_of(self.limit_type),
            currency: text_of(self.currency),
            limit_amount: text_of(self.limit_amount),
            usage_start_at: self.usage_start_at,
            reset_interval_seconds: self.reset_interval_seconds,
            used_money_usd: self.used_money_usd@,
            used_money_in_currency: text_of(self.used_money_in_currency),
            used_tokens: self.used_tokens,
            percent_used: text_of(self.percent_used),
            state: self.state@,
            unpriced_request_count: self.unpriced_request_count as int,
            unpriced_models: texts(self.unpriced_models@),
            enforcement: self.enforcement,
            masked_credential: text_of(self.masked_credential),
        }
    }
}

/// A model whose requests used tokens and were recorded without a cost.
#[derive(Clone, Debug)]
pub struct ZeroCostModel {
    pub model: String,
    pub count: i64,
    /// A price is known for the model.
    pub priced: bool,
    /// The name stands for no real model.
    pub placeholder: bool,
}

impl ZeroCostModel {
    pub open spec fn is_unpriced(self) -> bool {
        !self.priced && !self.placeholder
    }
}

/// A question to the storage, or an order, on the way to a status.
#[derive(Clone, Debug)]
pub enum StatusAction {
    ReadProvider,
    /// Whether the proxy is on for the application.
    ReadProxyFlag,
    /// Start the window anew if its interval is over now.
    RollWindow { now: i64 },
    ReadLimit,
    ReadUsage(UsageQuery),
    ReadCosts(UsageQuery),
    ReadZeroCostModels(UsageQuery),
    ReadRate,
}

/// A [`StatusAction`] with its texts as sequences of characters.
pub enum StatusQuestion {
    ReadProvider,
    ReadProxyFlag,
    RollWindow { now: i64 },
    ReadLimit,
    ReadUsage { fingerprint: Seq<char>, since: i64 },
    ReadCosts { fingerprint: Seq<char>, since: i64 },
    ReadZeroCostModels { fingerprint: Seq<char>, since: i64 },
    ReadRate,
}

impl View for StatusAction {
    type V = StatusQuestion;

    open spec fn view(&self) -> StatusQuestion {
        match self {
            StatusAction::ReadProvider => StatusQuestion::ReadProvider,
            StatusAction::ReadProxyFlag => StatusQuestion::ReadProxyFlag,
            StatusAction::RollWindow { now } => StatusQuestion::RollWindow { now: *now },
            StatusAction::ReadLimit => StatusQuestion::ReadLimit,
            StatusAction::ReadUsage(q) => StatusQuestion::ReadUsage {
                fingerprint: q.fingerprint@,
                since: q.since,
            },
            StatusAction::ReadCosts(q) => StatusQuestion::ReadCosts {
                fingerprint: q.fingerprint@,
                since: q.since,
            },
            StatusAction::ReadZeroCostModels(q) => StatusQuestion::ReadZeroCostModels {
                fingerprint: q.fingerprint@,
                since: q.since,
            },
            StatusAction::ReadRate => StatusQuestion::ReadRate,
        }
    }
}

/// The replies to a status, as far as they are in.
#[derive(Debug)]
pub struct StatusReplies {
    pub provider: Option<Result<Option<Provider>, AppError>>,
    /// The stored flag of the proxy, where there is one.
    pub proxy_flag: Option<Result<Option<i64>, AppError>>,
    /// Starting the window anew was tried; how it went does not matter.
    pub rolled: bool,
    pub limit: Option<Result<Option<ApiKeyLimitRow>, AppError>>,
    pub usage: UsageReplies,
    pub zero_cost_models: Option<Result<Vec<ZeroCostModel>, AppError>>,
}

impl StatusReplies {
    /// No reply yet.
    pub fn none() -> (r: StatusReplies)
        ensures
            r.provider is None,
            r.proxy_flag is None,
            !r.rolled,
            r.limit is None,
            r.usage.usage is None,
            r.usage.rate_setting is None,
            r.usage.costs is None,
            r.zero_cost_models is None,
    {
        StatusReplies {
            provider: None,
            proxy_flag: None,
            rolled: false,
            limit: None,
            usage: UsageReplies::none(),
            zero_cost_models: None,
        }
    }
}

/// How far a status has come.
pub enum Showing {
    /// It takes another reply.
    Ask(StatusQuestion),
    Shown(StatusView),
    Failed(AppErrorView),
    /// A sum, product or quotient leaves its range.
    OutOfRange,
}

/// What comes of asking for a status.
#[derive(Debug)]
pub enum StatusStep {
    Ask(StatusAction),
    Done(Result<BudgetStatus, AppError>),
    OutOfRange,
}

impl View for StatusStep {
    type V = Showing;

    open spec fn view(&self) -> Showing {
        match self {
            StatusStep::Ask(action) => Showing::Ask(action@),
            StatusStep::Done(Ok(status)) => Showing::Shown(status@),
            StatusStep::Done(Err(e)) => Showing::Failed(e@),
            StatusStep::OutOfRange => Showing::OutOfRange,
        }
    }
}

/// The requests without a price, counted; nothing where the count leaves 64 bits.
pub open spec fn unpriced_count(models: Seq<ZeroCostModel>) -> Option<int>
    decreases models.len(),
{
    if models.len() == 0 {
        Some(0)
    } else {
        match unpriced_count(models.drop_last()) {
            None => None,
            Some(n) => if !models.last().is_unpriced() {
                Some(n)
            } else if i64::MIN <= n + models.last().count <= i64::MAX {
                Some(n + models.last().count)
            } else {
                None
            },
        }
    }
}

/// The models without a price.
pub open spec fn unpriced_names(models: Seq<ZeroCostModel>) -> Seq<Seq<char>>
    decreases models.len(),
{
    if models.len() == 0 {
        Seq::empty()
    } else if models.last().is_unpriced() {
        unpriced_names(models.drop_last()).push(models.last().model@)
    } else {
        unpriced_names(models.drop_last())
    }
}

pub open spec fn hundred() -> Amount {
    Amount { mantissa: 100, scale: 0 }
}

pub open spec fn whole_amount(n: int) -> Amount {
    Amount { mantissa: n as i128, scale: 0 }
}

/// `used` as a percentage of `limit`; 0 of a limit that is not positive.
pub open spec fn percentage(used: Amount, limit: Amount) -> Option<Amount> {
    if limit.units() <= 0 {
        Some(zero_amount())
    } else {
        match decimal_product(used, hundred()) {
            None => None,
            Some(p) => decimal_quotient(p, limit),
        }
    }
}

/// The state that is shown for an enabled limit.
pub open spec fn state_name(exhausted: bool, percent: Amount) -> Seq<char> {
    if exhausted || percent.units() >= hundred().units() {
        "exhausted"@
    } else if percent.units() >= whole_amount(WARNING_THRESHOLD_PERCENT as int).units() {
        "warning"@
    } else {
        "active"@
    }
}

/// A status with the percentage and the state of an enabled limit.
pub open spec fn measured(status: StatusView, used: Amount, limit: Amount) -> Showing {
    match percentage(used, limit) {
        None => Showing::OutOfRange,
        Some(percent) => Showing::Shown(
            StatusView {
                percent_used: Some(amount_text(rounded_to(percent, 2))),
                state: state_name(used.units() >= limit.units(), percent),
                ..status
            },
        ),
    }
}

/// Whether the limit of a credential can be enforced.
pub open spec fn enforceability(
    credential: CredentialView,
    flag: Option<Result<Option<i64>, AppError>>,
) -> EnforcementSupport {
    match credential {
        CredentialView::Unsupported => EnforcementSupport::UnsupportedCredential,
        CredentialView::StaticKey { .. } => match flag {
            Some(Ok(Some(n))) if n != 0 => EnforcementSupport::Active,
            _ => EnforcementSupport::ProxyDisabled,
        },
    }
}

/// The status where no limit is stored.
pub open spec fn unlimited_status(
    provider_id: Seq<char>,
    app_type: Seq<char>,
    credential: CredentialView,
    enforcement: EnforcementSupport,
) -> StatusView {
    StatusView {
        provider_id,
        app_type,
        enabled: false,
        limit_type: None,
        currency: None,
        limit_amount: None,
        usage_start_at: None,
        reset_interval_seconds: None,
        used_money_usd: "0"@,
        used_money_in_currency: None,
        used_tokens: 0,
        percent_used: None,
        state: "off"@,
        unpriced_request_count: 0,
        unpriced_models: Seq::empty(),
        enforcement,
        masked_credential: match credential {
            CredentialView::StaticKey { masked_key, .. } => Some(masked_key),
            CredentialView::Unsupported => None,
        },
    }
}

/// A status with the settings of a stored limit.
pub open spec fn configured(status: StatusView, row: LimitRowView) -> StatusView {
    StatusView {
        enabled: row.enabled,
        limit_type: Some(row.limit_type),
        currency: row.currency,
        limit_amount: Some(row.limit_amount),
        usage_start_at: Some(row.usage_start_at),
        reset_interval_seconds: row.reset_interval_seconds,
        ..status
    }
}

impl StatusReplies {
    /// The status on the replies that are in. Usage is that of the key in use, also
    /// where the limit is still tied to another one.
    pub open spec fn showing(
        self,
        known: Seq<AppType>,
        provider_id: Seq<char>,
        app_type: Seq<char>,
        now: i64,
    ) -> Showing {
        if !is_known_app(known, app_type) {
            Showing::Failed(AppErrorView::InvalidInput("未知应用类型: "@ + app_type))
        } else {
            match self.provider {
                None => Showing::Ask(StatusQuestion::ReadProvider),
                Some(Err(e)) => Showing::Failed(e@),
                Some(Ok(None)) => Showing::Failed(
                    AppErrorView::InvalidInput("Provider 不存在: "@ + provider_id),
                ),
                Some(Ok(Some(provider))) => self.credential_showing(
                    provider_id,
                    app_type,
                    resolved(provider, app_type),
                    now,
                ),
            }
        }
    }

    pub open spec fn credential_showing(
        self,
        provider_id: Seq<char>,
        app_type: Seq<char>,
        credential: CredentialView,
        now: i64,
    ) -> Showing {
        let bare = unlimited_status(
            provider_id,
            app_type,
            credential,
            enforceability(credential, self.proxy_flag),
        );
        if credential is StaticKey && self.proxy_flag is None {
            Showing::Ask(StatusQuestion::ReadProxyFlag)
        } else if !self.rolled {
            Showing::Ask(StatusQuestion::RollWindow { now })
        } else {
            match (self.limit, credential) {
                (None, _) => Showing::Ask(StatusQuestion::ReadLimit),
                (Some(Err(e)), _) => Showing::Failed(e@),
                (Some(Ok(None)), _) => Showing::Shown(bare),
                (Some(Ok(Some(row))), CredentialView::Unsupported) => Showing::Shown(
                    configured(bare, row@),
                ),
                (
                    Some(Ok(Some(row))),
                    CredentialView::StaticKey { fingerprint, .. },
                ) => self.usage_showing(configured(bare, row@), row@, fingerprint),
            }
        }
    }

    pub open spec fn usage_showing(
        self,
        status: StatusView,
        row: LimitRowView,
        fingerprint: Seq<char>,
    ) -> Showing {
        match (self.usage.usage, self.usage.costs, self.zero_cost_models) {
            (None, _, _) => Showing::Ask(
                StatusQuestion::ReadUsage { fingerprint, since: row.usage_start_at },
            ),
            (Some(Err(e)), _, _) => Showing::Failed(e@),
            (Some(Ok(_)), None, _) => Showing::Ask(
                StatusQuestion::ReadCosts { fingerprint, since: row.usage_start_at },
            ),
            (Some(Ok(_)), Some(Err(e)), _) => Showing::Failed(e@),
            (Some(Ok(tokens)), Some(Ok(costs)), models) => match (
                lenient_total(costs@),
                models,
            ) {
                (None, _) => Showing::OutOfRange,
                (Some(_), None) => Showing::Ask(
                    StatusQuestion::ReadZeroCostModels { fingerprint, since: row.usage_start_at },
                ),
                (Some(_), Some(Err(e))) => Showing::Failed(e@),
                (Some(used_usd), Some(Ok(list))) => match unpriced_count(list@) {
                    None => Showing::OutOfRange,
                    Some(count) => self.measured_showing(
                        StatusView {
                            used_money_usd: amount_text(used_usd),
                            used_tokens: tokens,
                            unpriced_request_count: count,
                            unpriced_models: unpriced_names(list@),
                            ..status
                        },
                        row,
                        tokens,
                        used_usd,
                    ),
                },
            },
        }
    }

    pub open spec fn measured_showing(
        self,
        status: StatusView,
        row: LimitRowView,
        tokens: i64,
        used_usd: Amount,
    ) -> Showing {
        if !row.enabled {
            Showing::Shown(status)
        } else {
            match LimitType::named(row.limit_type) {
                None => Showing::Failed(
                    AppErrorView::Database("限额类型非法: "@ + row.limit_type),
                ),
                Some(LimitType::Token) => match signed_value(row.limit_amount) {
                    None => Showing::Failed(
                        AppErrorView::Database("限额 Token 数非法: "@ + row.limit_amount),
                    ),
                    Some(limit) => measured(
                        status,
                        whole_amount(tokens as int),
                        whole_amount(limit),
                    ),
                },
                Some(LimitType::Money) => match decimal_from_str(trimmed(row.limit_amount)) {
                    Err(_) => Showing::Failed(
                        AppErrorView::Database("限额金额非法: "@ + row.limit_amount),
                    ),
                    Ok(limit) => match (row.money_currency(), self.usage.rate_setting) {
                        (LimitCurrency::Cny, None) => Showing::Ask(StatusQuestion::ReadRate),
                        (LimitCurrency::Cny, Some(Err(e))) => Showing::Failed(e@),
                        (LimitCurrency::Cny, Some(Ok(setting))) => money_showing(
                            status,
                            used_in_currency(
                                LimitCurrency::Cny,
                                used_usd,
                                exchange_rate(text_of(setting)),
                            ),
                            limit,
                        ),
                        (LimitCurrency::Usd, _) => money_showing(status, Some(used_usd), limit),
                    },
                },
            }
        }
    }
}

/// The status of an enabled money limit.
pub open spec fn money_showing(status: StatusView, used: Option<Amount>, limit: Amount) -> Showing {
    match used {
        None => Showing::OutOfRange,
        Some(amount) => measured(
            StatusView { used_money_in_currency: Some(amount_text(amount)), ..status },
            amount,
            limit,
        ),
    }
}

/// The percentage as it is shown, and the state of the limit.
pub fn shown_percentage(exhausted: bool, percent: &Amount) -> (r: (String, String))
    requires
        percent.wf(),
    ensures
        r.0@ == amount_text(rounded_to(*percent, 2)),
        decimal_from_str(r.0@) == Ok::<Amount, Seq<char>>(rounded_to(*percent, 2)),
        r.1@ == state_name(exhausted, *percent),
{
    let state: &str = if exhausted || at_most(&Amount::whole(100), percent) {
        "exhausted"
    } else if at_most(&Amount::whole(WARNING_THRESHOLD_PERCENT), percent) {
        "warning"
    } else {
        "active"
    };
    (print_amount(&round_places(percent, 2)), state.to_owned())
}

/// Whether a state tells how much of a positive limit is used, as far as the usage
/// can be multiplied by 100 without rounding: from the warning threshold on a limit
/// is not shown as active, up to one percent below it is, and from the limit on it
/// is shown as exhausted.
pub open spec fn state_is_honest(state: Seq<char>, used: Amount, limit: Amount) -> bool {
    limit.units() > 0 && multiplies_exactly(used, hundred()) ==> {
        &&& 100 * used.units() >= WARNING_THRESHOLD_PERCENT * limit.units() ==> state != "active"@
        &&& 100 * used.units() <= (WARNING_THRESHOLD_PERCENT - 1) * limit.units() ==> state
            == "active"@
        &&& used.units() >= limit.units() ==> state == "exhausted"@
    }
}

/// Whether a percentage and the whole number `q` compare as the usage and `q`
/// hundredths of the limit do.
pub open spec fn agrees_at(percent: Amount, used: Amount, limit: Amount, q: i64) -> bool {
    &&& 100 * used.units() >= q * limit.units() ==> percent.units() >= q * pow10(28)
    &&& 100 * used.units() <= q * limit.units() ==> percent.units() <= q * pow10(28)
}

/// Whether a percentage reads as a number of at most two places that tells how much
/// of a positive limit is used, as far as the usage can be multiplied by 100 without
/// rounding: it lies on the same side of every whole number as 100 times the usage
/// over the limit, and is a whole number where that is one.
pub open spec fn percent_is_honest(text: Seq<char>, used: Amount, limit: Amount) -> bool {
    decimal_from_str(text) matches Ok(percent) && percent.scale <= 2 && (limit.units() > 0
        && fits_mantissa(used.mantissa * 100) ==> forall|q: i64| #[trigger]
        agrees_at(percent, used, limit, q))
}

/// The usage and the limit that are compared, once all replies are in.
pub open spec fn compared(row: LimitRowView, seen: UsageReplies) -> Option<(Amount, Amount)> {
    match (LimitType::named(row.limit_type), seen.usage, seen.costs) {
        (Some(LimitType::Token), Some(Ok(tokens)), _) => match signed_value(row.limit_amount) {
            Some(limit) => Some((whole_amount(tokens as int), whole_amount(limit))),
            None => None,
        },
        (Some(LimitType::Money), _, Some(Ok(costs))) => match (
            decimal_from_str(trimmed(row.limit_amount)),
            lenient_total(costs@),
        ) {
            (Ok(limit), Some(used_usd)) => match (row.money_currency(), seen.rate_setting) {
                (LimitCurrency::Usd, _) => Some((used_usd, limit)),
                (LimitCurrency::Cny, Some(Ok(setting))) => match used_in_currency(
                    LimitCurrency::Cny,
                    used_usd,
                    exchange_rate(text_of(setting)),
                ) {
                    Some(used) => Some((used, limit)),
                    None => None,
                },
                _ => None,
            },
            _ => None,
        },
        _ => None,
    }
}

/// Whether the percentage and the state of a status tell how much is used.
pub open spec fn status_is_honest(status: StatusView, seen: StatusReplies) -> bool {
    status.percent_used matches Some(text) ==> (seen.limit matches Some(Ok(Some(row))) && compared(
        row@,
        seen.usage,
    ) matches Some((used, limit)) && state_is_honest(status.state, used, limit)
        && percent_is_honest(text, used, limit))
}

proof fn lemma_percentage(used: Amount, limit: Amount, p: Amount, percent: Amount)
    requires
        used.wf(),
        limit.wf(),
        limit.units() > 0,
        multiplies_exactly(used, hundred()),
        p.units() == used.mantissa * hundred().mantissa * pow10(
            (MAX_SCALE - (used.scale + hundred().scale)) as nat,
        ),
        forall|q: i64| #[trigger]
            reaches(p, limit, q) ==> percent.units() >= q * pow10(MAX_SCALE as nat),
        forall|q: i64| #[trigger]
            stays_within(p, limit, q) ==> percent.units() <= q * pow10(MAX_SCALE as nat),
    ensures
        state_is_honest(state_name(used.units() >= limit.units(), percent), used, limit),
{
    let up = pow10((MAX_SCALE - used.scale) as nat) as int;
    assert(used.mantissa * 100 * up == 100 * (used.mantissa * up)) by (nonlinear_arith);
    assert(p.units() == 100 * used.units());
    let high = WARNING_THRESHOLD_PERCENT;
    let low: i64 = 79;
    lemma_units_sign(whole_amount(1));
    law_state_thresholds(used.units() >= limit.units(), percent);
    lemma_whole_order(100, 80);
    lemma_whole_order(80, 79);
    assert(whole_amount(80).units() == 80 * pow10(MAX_SCALE as nat));
    assert(whole_amount(79).units() == 79 * pow10(MAX_SCALE as nat));
    if 100 * used.units() >= high * limit.units() {
        assert(reaches(p, limit, high));
    }
    if 100 * used.units() <= low * limit.units() {
        assert(stays_within(p, limit, low));
    }
}

proof fn lemma_agreement(used: Amount, limit: Amount, p: Amount, percent: Amount, q: i64)
    requires
        used.wf(),
        p.units() == used.mantissa * hundred().mantissa * pow10(
            (MAX_SCALE - (used.scale + hundred().scale)) as nat,
        ),
        reaches(p, limit, q) ==> percent.units() >= q * pow10(MAX_SCALE as nat),
        stays_within(p, limit, q) ==> percent.units() <= q * pow10(MAX_SCALE as nat),
    ensures
        agrees_at(percent, used, limit, q),
{
    let up = pow10((MAX_SCALE - used.scale) as nat) as int;
    assert(used.mantissa * 100 * up == 100 * (used.mantissa * up)) by (nonlinear_arith);
}

fn measure(status: BudgetStatus, used: &Amount, limit: &Amount) -> (r: StatusStep)
    requires
        used.wf(),
        limit.wf(),
    ensures
        r@ == measured(status@, *used, *limit),
        r matches StatusStep::Done(Ok(shown)) ==> state_is_honest(shown.state@, *used, *limit) && (
        shown.percent_used matches Some(text) && percent_is_honest(text@, *used, *limit)),
{
    proof {
        lemma_units_sign(zero_amount());
        lemma_units_sign(*limit);
    }
    let percent: Amount = if at_most(limit, &Amount::whole(0)) {
        Amount::whole(0)
    } else {
        match product(used, &Amount::whole(100)) {
            None => {
                return StatusStep::OutOfRange;
            },
            Some(p) => match quotient(&p, limit) {
                None => {
                    return StatusStep::OutOfRange;
                },
                Some(q) => {
                    proof {
                        if multiplies_exactly(*used, hundred()) {
                            lemma_percentage(*used, *limit, p, q);
                            assert forall|n: i64| #[trigger] agrees_at(q, *used, *limit, n) by {
                                lemma_agreement(*used, *limit, p, q, n);
                            }
                        }
                    }
                    q
                },
            },
        }
    };
    let (text, state): (String, String) = shown_percentage(at_most(limit, used), &percent);
    proof {
        law_rounding_is_nearest(percent, 2);
        if limit.units() > 0 && multiplies_exactly(*used, hundred()) {
            assert forall|q: i64| #[trigger]
                agrees_at(rounded_to(percent, 2), *used, *limit, q) by {
                assert(agrees_at(percent, *used, *limit, q));
                law_rounding_stays_between_whole_numbers(percent, q as int);
            }
        }
    }
    let mut shown: BudgetStatus = status;
    shown.percent_used = Some(text);
    shown.state = state;
    StatusStep::Done(Ok(shown))
}

fn measure_money(status: BudgetStatus, used: Option<Amount>, limit: &Amount) -> (r: StatusStep)
    requires
        used matches Some(amount) ==> amount.wf(),
        limit.wf(),
    ensures
        r@ == money_showing(status@, used, *limit),
        r matches StatusStep::Done(Ok(shown)) ==> (used matches Some(amount) && state_is_honest(
            shown.state@,
            amount,
            *limit,
        ) && (shown.percent_used matches Some(text) && percent_is_honest(text@, amount, *limit))),
{
    match used {
        None => StatusStep::OutOfRange,
        Some(amount) => {
            let mut shown: BudgetStatus = status;
            shown.used_money_in_currency = Some(print_amount(&amount));
            measure(shown, &amount, limit)
        },
    }
}

pub(crate) fn copy_text(s: &Option<String>) -> (r: Option<String>)
    ensures
        text_of(r) == text_of(*s),
{
    match s {
        Some(t) => Some(t.clone()),
        None => None,
    }
}

fn count_unpriced(models: &Vec<ZeroCostModel>) -> (r: Option<(i64, Vec<String>)>)
    ensures
        match r {
            Some((count, names)) => unpriced_count(models@) == Some(count as int) && texts(names@)
                == unpriced_names(models@),
            None => unpriced_count(models@) is None,
        },
{
    let mut count: i64 = 0;
    let mut names: Vec<String> = Vec::new();
    let mut i: usize = 0;
    assert(texts(names@) =~= Seq::empty());
    while i < models.len()
        invariant
            i <= models@.len(),
            unpriced_count(models@.take(i as int)) == Some(count as int),
            texts(names@) == unpriced_names(models@.take(i as int)),
        decreases models@.len() - i,
    {
        assert(models@.take(i + 1).drop_last() =~= models@.take(i as int));
        if !models[i].priced && !models[i].placeholder {
            let next: i128 = count as i128 + models[i].count as i128;
            if next < i64::MIN as i128 || next > i64::MAX as i128 {
                proof {
                    lemma_unpriced_stays_out(models@, i + 1);
                }
                return None;
            }
            count = next as i64;
            let ghost before = names@;
            names.push(models[i].model.clone());
            assert(texts(names@) =~= texts(before).push(models@[i as int].model@));
        }
        i = i + 1;
    }
    assert(models@.take(models@.len() as int) =~= models@);
    Some((count, names))
}

proof fn lemma_unpriced_stays_out(models: Seq<ZeroCostModel>, n: int)
    requires
        0 <= n <= models.len(),
        unpriced_count(models.take(n)) is None,
    ensures
        unpriced_count(models) is None,
    decreases models.len() - n,
{
    if n < models.len() {
        assert(models.take(n + 1).drop_last() =~= models.take(n));
        lemma_unpriced_stays_out(models, n + 1);
    } else {
        assert(models.take(n) =~= models);
    }
}

impl Database {
    /// Whether a stored flag turns the proxy on. A missing one does not.
    pub fn is_proxy_enabled_for_app(stored: Option<i64>) -> (r: bool)
        ensures
            r == (stored matches Some(n) && n != 0),
    {
        match stored {
            Some(n) => n != 0,
            None => false,
        }
    }

    fn measure_usage(
        status: BudgetStatus,
        row: &ApiKeyLimitRow,
        tokens: i64,
        used_usd: &Amount,
        seen: &StatusReplies,
    ) -> (r: StatusStep)
        requires
            used_usd.wf(),
            status.percent_used is None,
            seen.usage.usage == Some(Ok::<i64, AppError>(tokens)),
            seen.usage.costs matches Some(Ok(costs)) && lenient_total(costs@) == Some(*used_usd),
        ensures
            r@ == seen.measured_showing(status@, row@, tokens, *used_usd),
            r matches StatusStep::Done(Ok(shown)) ==> (shown.percent_used matches Some(text) ==> (
            compared(row@, seen.usage) matches Some((used, limit)) && state_is_honest(
                shown.state@,
                used,
                limit,
            ) && percent_is_honest(text@, used, limit))),
    {
        if !row.enabled {
            return StatusStep::Done(Ok(status));
        }
        match LimitType::parse(row.limit_type.as_str()) {
            None => StatusStep::Done(
                Err(AppError::Database(concat("限额类型非法: ", row.limit_type.as_str()))),
            ),
            Some(LimitType::Token) => match signed_of(row.limit_amount.as_str()) {
                None => StatusStep::Done(
                    Err(AppError::Database(concat("限额 Token 数非法: ", row.limit_amount.as_str()))),
                ),
                Some(limit) => measure(status, &Amount::whole(tokens), &Amount::whole(limit)),
            },
            Some(LimitType::Money) => {
                let limit: Amount = match parse_amount(trim(row.limit_amount.as_str())) {
                    Ok(a) => a,
                    Err(_) => {
                        return StatusStep::Done(
                            Err(
                                AppError::Database(
                                    concat("限额金额非法: ", row.limit_amount.as_str()),
                                ),
                            ),
                        );
                    },
                };
                match row.currency_of_money() {
                    LimitCurrency::Usd => measure_money(status, Some(*used_usd), &limit),
                    LimitCurrency::Cny => match &seen.usage.rate_setting {
                        None => StatusStep::Ask(StatusAction::ReadRate),
                        Some(Err(e)) => StatusStep::Done(Err(e.duplicate())),
                        Some(Ok(setting)) => match Database::rate_of_setting(setting) {
                            Err(e) => StatusStep::Done(Err(e)),
                            Ok(rate) => measure_money(
                                status,
                                Database::used_in(LimitCurrency::Cny, used_usd, &rate),
                                &limit,
                            ),
                        },
                    },
                }
            },
        }
    }

    fn show_usage(
        status: BudgetStatus,
        row: &ApiKeyLimitRow,
        fingerprint: String,
        seen: &StatusReplies,
    ) -> (r: StatusStep)
        requires
            status.percent_used is None,
        ensures
            r@ == seen.usage_showing(status@, row@, fingerprint@),
            r matches StatusStep::Done(Ok(shown)) ==> (shown.percent_used matches Some(text) ==> (
            compared(row@, seen.usage) matches Some((used, limit)) && state_is_honest(
                shown.state@,
                used,
                limit,
            ) && percent_is_honest(text@, used, limit))),
    {
        let since: i64 = row.usage_start_at;
        let tokens: i64 = match &seen.usage.usage {
            None => {
                return StatusStep::Ask(StatusAction::ReadUsage(UsageQuery { fingerprint, since }));
            },
            Some(Err(e)) => {
                return StatusStep::Done(Err(e.duplicate()));
            },
            Some(Ok(n)) => *n,
        };
        let used_usd: Amount = match &seen.usage.costs {
            None => {
                return StatusStep::Ask(StatusAction::ReadCosts(UsageQuery { fingerprint, since }));
            },
            Some(Err(e)) => {
                return StatusStep::Done(Err(e.duplicate()));
            },
            Some(Ok(costs)) => match Database::sum_credential_costs_exact(costs) {
                Some(total) => total,
                None => {
                    return StatusStep::OutOfRange;
                },
            },
        };
        let (count, names): (i64, Vec<String>) = match &seen.zero_cost_models {
            None => {
                return StatusStep::Ask(
                    StatusAction::ReadZeroCostModels(UsageQuery { fingerprint, since }),
                );
            },
            Some(Err(e)) => {
                return StatusStep::Done(Err(e.duplicate()));
            },
            Some(Ok(models)) => match count_unpriced(models) {
                Some(found) => found,
                None => {
                    return StatusStep::OutOfRange;
                },
            },
        };
        let mut shown: BudgetStatus = status;
        shown.used_money_usd = print_amount(&used_usd);
        shown.used_tokens = tokens;
        shown.unpriced_request_count = count;
        shown.unpriced_models = names;
        Database::measure_usage(shown, row, tokens, &used_usd, seen)
    }

    /// The state of the limit of a provider, or what has to be asked first.
    ///
    /// Usage is that of the key in use: a key that has just been changed starts at
    /// nothing, also while the limit is tied to the old one.
    pub fn get_budget_status(
        known: &Vec<AppType>,
        provider_id: &str,
        app_type: &str,
        now: i64,
        seen: &StatusReplies,
    ) -> (r: StatusStep)
        ensures
            r@ == seen.showing(known@, provider_id@, app_type@, now),
            r matches StatusStep::Done(Ok(status)) ==> status_is_honest(status@, *seen),
    {
        let app: AppType = match parse_app_type(known, app_type) {
            Some(app) => app,
            None => {
                return StatusStep::Done(
                    Err(AppError::InvalidInput(concat("未知应用类型: ", app_type))),
                );
            },
        };
        let provider: &Provider = match &seen.provider {
            None => {
                return StatusStep::Ask(StatusAction::ReadProvider);
            },
            Some(Err(e)) => {
                return StatusStep::Done(Err(e.duplicate()));
            },
            Some(Ok(None)) => {
                return StatusStep::Done(
                    Err(AppError::InvalidInput(concat("Provider 不存在: ", provider_id))),
                );
            },
            Some(Ok(Some(provider))) => provider,
        };
        let (fingerprint, masked_credential): (Option<String>, Option<String>) =
            match resolve_credential(provider, &app) {
            CredentialResolution::StaticKey { fingerprint, masked_key } => (
                Some(fingerprint),
                Some(masked_key),
            ),
            CredentialResolution::Unsupported => (None, None),
        };
        let enforcement: EnforcementSupport = match &fingerprint {
            None => EnforcementSupport::UnsupportedCredential,
            Some(_) => {
                let enabled: bool = match &seen.proxy_flag {
                    None => {
                        return StatusStep::Ask(StatusAction::ReadProxyFlag);
                    },
                    Some(Ok(stored)) => Database::is_proxy_enabled_for_app(*stored),
                    Some(Err(_)) => false,
                };
                if enabled {
                    EnforcementSupport::Active
                } else {
                    EnforcementSupport::ProxyDisabled
                }
            },
        };
        if !seen.rolled {
            return StatusStep::Ask(StatusAction::RollWindow { now });
        }
        let mut status: BudgetStatus = BudgetStatus {
            provider_id: provider_id.to_owned(),
            app_type: app_type.to_owned(),
            enabled: false,
            limit_type: None,
            currency: None,
            limit_amount: None,
            usage_start_at: None,
            reset_interval_seconds: None,
            used_money_usd: "0".to_owned(),
            used_money_in_currency: None,
            used_tokens: 0,
            percent_used: None,
            state: "off".to_owned(),
            unpriced_request_count: 0,
            unpriced_models: Vec::new(),
            enforcement,
            masked_credential,
        };
        assert(texts(status.unpriced_models@) =~= Seq::empty());
        let row: &ApiKeyLimitRow = match &seen.limit {
            None => {
                return StatusStep::Ask(StatusAction::ReadLimit);
            },
            Some(Err(e)) => {
                return StatusStep::Done(Err(e.duplicate()));
            },
            Some(Ok(None)) => {
                return StatusStep::Done(Ok(status));
            },
            Some(Ok(Some(row))) => row,
        };
        status.enabled = row.enabled;
        status.limit_type = Some(row.limit_type.clone());
        status.currency = copy_text(&row.currency);
        status.limit_amount = Some(row.limit_amount.clone());
        status.usage_start_at = Some(row.usage_start_at);
        status.reset_interval_seconds = row.reset_interval_seconds;
        match fingerprint {
            None => StatusStep::Done(Ok(status)),
            Some(fingerprint) => Database::show_usage(status, row, fingerprint, seen),
        }
    }
}

impl StatusReplies {
    /// Whether the reply to a question is in.
    pub open spec fn answered(self, question: StatusQuestion) -> bool {
        match question {
            StatusQuestion::ReadProvider => self.provider is Some,
            StatusQuestion::ReadProxyFlag => self.proxy_flag is Some,
            StatusQuestion::RollWindow { .. } => self.rolled,
            StatusQuestion::ReadLimit => self.limit is Some,
            StatusQuestion::ReadUsage { .. } => self.usage.usage is Some,
            StatusQuestion::ReadCosts { .. } => self.usage.costs is Some,
            StatusQuestion::ReadZeroCostModels { .. } => self.zero_cost_models is Some,
            StatusQuestion::ReadRate => self.usage.rate_setting is Some,
        }
    }
}

/// No question is asked again once its reply is in, so that a status is found.
pub proof fn law_status_asks_nothing_twice(
    seen: StatusReplies,
    known: Seq<AppType>,
    provider_id: Seq<char>,
    app_type: Seq<char>,
    now: i64,
)
    ensures
        seen.showing(known, provider_id, app_type, now) matches Showing::Ask(question)
            ==> !seen.answered(question),
{
}

/// Usage is asked for by the key in use, whichever key the limit is tied to, and
/// from the start of the window on.
pub proof fn law_status_counts_the_key_in_use(
    seen: StatusReplies,
    known: Seq<AppType>,
    provider_id: Seq<char>,
    app_type: Seq<char>,
    now: i64,
    asked: Seq<char>,
    since: i64,
)
    requires
        seen.showing(known, provider_id, app_type, now) == Showing::Ask(
            StatusQuestion::ReadUsage { fingerprint: asked, since },
        ) || seen.showing(known, provider_id, app_type, now) == Showing::Ask(
            StatusQuestion::ReadCosts { fingerprint: asked, since },
        ) || seen.showing(known, provider_id, app_type, now) == Showing::Ask(
            StatusQuestion::ReadZeroCostModels { fingerprint: asked, since },
        ),
    ensures
        seen.provider matches Some(Ok(Some(provider))) && (resolved(
            provider,
            app_type,
        ) matches CredentialView::StaticKey { fingerprint, .. } && fingerprint == asked),
        seen.limit matches Some(Ok(Some(row))) && row.usage_start_at == since,
{
}

/// A limit that is missing or switched off is shown as off, without a percentage.
pub proof fn law_disabled_is_shown_off(
    seen: StatusReplies,
    known: Seq<AppType>,
    provider_id: Seq<char>,
    app_type: Seq<char>,
    now: i64,
    status: StatusView,
)
    requires
        seen.showing(known, provider_id, app_type, now) == Showing::Shown(status),
        !status.enabled,
    ensures
        status.state == "off"@,
        status.percent_used is None,
{
}

/// An enabled limit is shown as exhausted from 100 percent on, as a warning from
/// 80 percent on, and as active below.
pub proof fn law_state_thresholds(exhausted: bool, percent: Amount)
    ensures
        state_name(exhausted, percent) == "exhausted"@ <==> exhausted || percent.units()
            >= whole_amount(100).units(),
        state_name(exhausted, percent) == "warning"@ <==> !exhausted && whole_amount(80).units()
            <= percent.units() && percent.units() < whole_amount(100).units(),
        state_name(exhausted, percent) == "active"@ <==> !exhausted && percent.units()
            < whole_amount(80).units(),
{
    lemma_whole_order(100, 80);
    reveal_strlit("exhausted");
    reveal_strlit("warning");
    reveal_strlit("active");
    assert("exhausted"@[0] != "warning"@[0]);
    assert("exhausted"@[0] != "active"@[0]);
    assert("warning"@[0] != "active"@[0]);
}

proof fn lemma_whole_order(a: int, b: int)
    requires
        i64::MIN <= a <= i64::MAX,
        i64::MIN <= b <= i64::MAX,
    ensures
        whole_amount(a).units() >= whole_amount(b).units() <==> a >= b,
{
    let p = pow10(28);
    lemma_units_sign(whole_amount(1));
    assert(a * p >= b * p <==> a >= b) by (nonlinear_arith)
        requires
            p > 0,
    ;
}

/// A limit on account of which requests are refused is shown as exhausted, on the
/// same replies.
pub proof fn law_refused_is_shown_exhausted(
    seen: StatusReplies,
    status: StatusView,
    row: LimitRowView,
    fingerprint: Seq<char>,
    tokens: i64,
    costs: Vec<String>,
    used_usd: Amount,
    shown: StatusView,
)
    requires
        row.enabled,
        seen.usage.usage == Some(Ok::<i64, AppError>(tokens)),
        seen.usage.costs == Some(Ok::<Vec<String>, AppError>(costs)),
        lenient_total(costs@) == Some(used_usd),
        evaluation(row, fingerprint, seen.usage) matches Evaluation::Found(found) && found.exhausted,
        seen.measured_showing(status, row, tokens, used_usd) == Showing::Shown(shown),
    ensures
        shown.state == "exhausted"@,
{
    if LimitType::named(row.limit_type) == Some(LimitType::Token) {
        lemma_whole_order(tokens as int, signed_value(row.limit_amount)->0);
    }
}

} // verus!
