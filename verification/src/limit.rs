//! Limits: their kind, currency and amount, the reset interval, and the
//! exchange rate between the two currencies.

use crate::app_error::{outcome, text_outcome, AppError, AppErrorView};
use crate::decimal::{
    amount_text, at_most, decimal_from_str, lemma_amount_text_trimmed, lemma_normal_form,
    lemma_normal_form_unique, lemma_units_sign, normal_form, normalize, parse_amount, plain_number,
    point_position, print_amount, Amount,
};
use crate::text::{
    all_digits, concat, decimal_text, digits, digits_value, lemma_digits_denote,
    lemma_trimmed_fixed, only_digits, same_text, trim, trimmed, unsigned_of,
};
use vstd::prelude::*;

verus! {

/// What a limit counts. A limit counts one thing at a time.
#[derive(Clone, Copy, Debug, PartialEq, Eq, Structural)]
pub enum LimitType {
    Money,
    Token,
}

impl LimitType {
    pub open spec fn name(self) -> Seq<char> {
        match self {
            LimitType::Money => "money"@,
            LimitType::Token => "token"@,
        }
    }

    /// The kind of limit with a given name.
    pub open spec fn named(s: Seq<char>) -> Option<LimitType> {
        if s == "money"@ {
            Some(LimitType::Money)
        } else if s == "token"@ {
            Some(LimitType::Token)
        } else {
            None
        }
    }

    pub fn as_str(self) -> (r: &'static str)
        ensures
            r@ == self.name(),
    {
        match self {
            LimitType::Money => "money",
            LimitType::Token => "token",
        }
    }

    pub fn parse(value: &str) -> (r: Option<LimitType>)
        ensures
            r == LimitType::named(value@),
    {
        if same_text(value, "money") {
            Some(LimitType::Money)
        } else if same_text(value, "token") {
            Some(LimitType::Token)
        } else {
            None
        }
    }
}

/// The currency of a money limit. Costs are recorded in US dollars; a limit in
/// yuan goes by a locally configured exchange rate.
#[derive(Clone, Copy, Debug, PartialEq, Eq, Structural)]
pub enum LimitCurrency {
    Usd,
    Cny,
}

impl LimitCurrency {
    pub open spec fn name(self) -> Seq<char> {
        match self {
            LimitCurrency::Usd => "USD"@,
            LimitCurrency::Cny => "CNY"@,
        }
    }

    /// The currency with a given name.
    pub open spec fn named(s: Seq<char>) -> Option<LimitCurrency> {
        if s == "USD"@ {
            Some(LimitCurrency::Usd)
        } else if s == "CNY"@ {
            Some(LimitCurrency::Cny)
        } else {
            None
        }
    }

    pub open spec fn sign(self) -> Seq<char> {
        match self {
            LimitCurrency::Usd => "$"@,
            LimitCurrency::Cny => "¥"@,
        }
    }

    pub fn as_str(self) -> (r: &'static str)
        ensures
            r@ == self.name(),
    {
        match self {
            LimitCurrency::Usd => "USD",
            LimitCurrency::Cny => "CNY",
        }
    }

    pub fn parse(value: &str) -> (r: Option<LimitCurrency>)
        ensures
            r == LimitCurrency::named(value@),
    {
        if same_text(value, "USD") {
            Some(LimitCurrency::Usd)
        } else if same_text(value, "CNY") {
            Some(LimitCurrency::Cny)
        } else {
            None
        }
    }

    /// The symbol shown in messages.
    pub fn symbol(self) -> (r: &'static str)
        ensures
            r@ == self.sign(),
    {
        match self {
            LimitCurrency::Usd => "$",
            LimitCurrency::Cny => "¥",
        }
    }
}

/// The settings key of the exchange rate from US dollars to yuan.
pub const USD_CNY_RATE_SETTING_KEY: &'static str = "usage_limit_usd_cny_rate";

/// The exchange rate from US dollars to yuan that holds where none is configured.
pub const DEFAULT_USD_CNY_RATE: &'static str = "7.2";

/// The percentage of a limit from which a warning is shown.
pub const WARNING_THRESHOLD_PERCENT: i64 = 80;

/// The shortest interval, in seconds, after which usage can be reset: one hour.
pub const MIN_RESET_INTERVAL_SECONDS: i64 = 3600;

/// A limit as the user submits it.
#[derive(Clone, Debug)]
pub struct UsageLimitConfig {
    pub enabled: bool,
    /// `money` or `token`.
    pub limit_type: String,
    /// `USD` or `CNY` for a money limit, nothing for a token limit.
    pub currency: Option<String>,
    /// A positive decimal number, or a positive whole number of tokens.
    pub limit_amount: Option<String>,
    /// The seconds after which usage is reset; nothing for never.
    pub reset_interval_seconds: Option<i64>,
}

/// Whether the limit of a provider can be enforced.
#[derive(Clone, Copy, Debug, PartialEq, Eq, Structural)]
pub enum EnforcementSupport {
    /// Requests pass through the local proxy.
    Active,
    /// The proxy is off for this application, so requests do not pass through it.
    ProxyDisabled,
    /// The provider has no static API key to tie a limit to.
    UnsupportedCredential,
}

impl EnforcementSupport {
    pub open spec fn name(self) -> Seq<char> {
        match self {
            EnforcementSupport::Active => "active"@,
            EnforcementSupport::ProxyDisabled => "proxy_disabled"@,
            EnforcementSupport::UnsupportedCredential => "unsupported_credential"@,
        }
    }

    pub fn as_str(self) -> (r: &'static str)
        ensures
            r@ == self.name(),
    {
        match self {
            EnforcementSupport::Active => "active",
            EnforcementSupport::ProxyDisabled => "proxy_disabled",
            EnforcementSupport::UnsupportedCredential => "unsupported_credential",
        }
    }
}

/// The name of a kind of limit parses back to it, and only that name does.
pub proof fn law_limit_type_names(t: LimitType, s: Seq<char>)
    ensures
        LimitType::named(t.name()) == Some(t),
        LimitType::named(s) == Some(t) ==> s == t.name(),
{
    reveal_strlit("money");
    reveal_strlit("token");
    assert("money"@[0] != "token"@[0]);
}

/// The name of a currency parses back to it, and only that name does.
pub proof fn law_currency_names(c: LimitCurrency, s: Seq<char>)
    ensures
        LimitCurrency::named(c.name()) == Some(c),
        LimitCurrency::named(s) == Some(c) ==> s == c.name(),
{
    reveal_strlit("USD");
    reveal_strlit("CNY");
    assert("USD"@[0] != "CNY"@[0]);
}

/// What a submitted money amount becomes: the canonical notation of a positive
/// number, or the complaint about it.
pub open spec fn money_amount_outcome(raw: Seq<char>) -> Result<Seq<char>, AppErrorView> {
    let s = trimmed(raw);
    if s.len() == 0 {
        Err(AppErrorView::InvalidInput("限额金额不能为空"@))
    } else {
        match decimal_from_str(s) {
            Err(_) => Err(AppErrorView::InvalidInput("限额金额格式无效: "@ + s)),
            Ok(a) => if a.units() <= 0 {
                Err(AppErrorView::InvalidInput("限额金额必须大于 0"@))
            } else {
                Ok(amount_text(normal_form(a)))
            },
        }
    }
}

/// What a submitted number of tokens becomes: a positive whole number of 64 bits
/// without leading zeros, or the complaint about it.
pub open spec fn token_amount_outcome(raw: Seq<char>) -> Result<Seq<char>, AppErrorView> {
    let s = trimmed(raw);
    if s.len() == 0 {
        Err(AppErrorView::InvalidInput("限额 Token 数不能为空"@))
    } else if !all_digits(s) {
        Err(AppErrorView::InvalidInput("限额 Token 数必须是正整数"@))
    } else if digits_value(s) > u64::MAX {
        Err(AppErrorView::InvalidInput("限额 Token 数超出可表示范围"@))
    } else if digits_value(s) == 0 {
        Err(AppErrorView::InvalidInput("限额 Token 数必须大于 0"@))
    } else {
        Ok(digits(digits_value(s)))
    }
}

pub open spec fn limit_amount_outcome(limit_type: LimitType, raw: Seq<char>) -> Result<
    Seq<char>,
    AppErrorView,
> {
    match limit_type {
        LimitType::Money => money_amount_outcome(raw),
        LimitType::Token => token_amount_outcome(raw),
    }
}

/// Checks a submitted amount and brings it into canonical notation. A canonical
/// amount passes unchanged.
pub fn validate_limit_amount(limit_type: LimitType, raw_amount: &str) -> (r: Result<
    String,
    AppError,
>)
    ensures
        text_outcome(r) == limit_amount_outcome(limit_type, raw_amount@),
        r matches Ok(t) ==> limit_amount_outcome(limit_type, t@) == Ok::<Seq<char>, AppErrorView>(
            t@,
        ),
{
    let cut: &str = trim(raw_amount);
    match limit_type {
        LimitType::Money => {
            if cut.is_empty() {
                return Err(AppError::InvalidInput("限额金额不能为空".to_owned()));
            }
            match parse_amount(cut) {
                Err(_) => Err(AppError::InvalidInput(concat("限额金额格式无效: ", cut))),
                Ok(amount) => {
                    proof {
                        lemma_units_sign(amount);
                        lemma_units_sign(Amount { mantissa: 0, scale: 0 });
                    }
                    if at_most(&amount, &Amount::whole(0)) {
                        return Err(AppError::InvalidInput("限额金额必须大于 0".to_owned()));
                    }
                    proof {
                        lemma_normal_form(amount);
                        lemma_amount_text_trimmed(normal_form(amount));
                    }
                    Ok(print_amount(&normalize(&amount)))
                },
            }
        },
        LimitType::Token => {
            if cut.is_empty() {
                return Err(AppError::InvalidInput("限额 Token 数不能为空".to_owned()));
            }
            if !only_digits(cut) {
                return Err(AppError::InvalidInput("限额 Token 数必须是正整数".to_owned()));
            }
            match unsigned_of(cut) {
                None => Err(AppError::InvalidInput("限额 Token 数超出可表示范围".to_owned())),
                Some(tokens) => {
                    if tokens == 0 {
                        return Err(AppError::InvalidInput("限额 Token 数必须大于 0".to_owned()));
                    }
                    proof {
                        lemma_digits_denote(tokens as nat);
                        lemma_trimmed_fixed(digits(tokens as nat));
                    }
                    Ok(decimal_text(tokens))
                },
            }
        },
    }
}

/// Texts that denote one and the same amount of money have one canonical notation.
pub proof fn law_canonical_money(raw1: Seq<char>, raw2: Seq<char>, a: Amount, b: Amount)
    requires
        a.wf(),
        b.wf(),
        decimal_from_str(trimmed(raw1)) == Ok::<Amount, Seq<char>>(a),
        decimal_from_str(trimmed(raw2)) == Ok::<Amount, Seq<char>>(b),
        trimmed(raw1).len() > 0,
        trimmed(raw2).len() > 0,
        a.units() == b.units(),
    ensures
        money_amount_outcome(raw1) == money_amount_outcome(raw2),
{
    lemma_normal_form_unique(a, b);
}

/// Whether an interval is a whole number of hours, at least one.
pub open spec fn acceptable_interval(seconds: int) -> bool {
    seconds >= MIN_RESET_INTERVAL_SECONDS && seconds % (MIN_RESET_INTERVAL_SECONDS as int) == 0
}

/// What a submitted reset interval becomes: itself, or the complaint about it.
pub open spec fn interval_outcome(raw_interval: Option<i64>) -> Result<Option<i64>, AppErrorView> {
    match raw_interval {
        Some(seconds) if !acceptable_interval(seconds as int) => Err(
            AppErrorView::InvalidInput("自动重置周期必须是至少 1 小时的整小时数"@),
        ),
        _ => Ok(raw_interval),
    }
}

/// Checks a submitted reset interval. No interval means that usage is never reset.
pub fn validate_reset_interval_seconds(raw_interval: Option<i64>) -> (r: Result<
    Option<i64>,
    AppError,
>)
    ensures
        outcome(r) == interval_outcome(raw_interval),
        r is Ok <==> (raw_interval matches Some(seconds) ==> seconds > 0 && seconds as int % 3600
            == 0),
        r matches Ok(interval) ==> interval == raw_interval,
{
    match raw_interval {
        None => Ok(None),
        Some(seconds) => {
            if seconds < MIN_RESET_INTERVAL_SECONDS || seconds % MIN_RESET_INTERVAL_SECONDS != 0 {
                return Err(
                    AppError::InvalidInput("自动重置周期必须是至少 1 小时的整小时数".to_owned()),
                );
            }
            Ok(Some(seconds))
        },
    }
}

/// The rate that holds where none is configured.
pub open spec fn default_rate() -> Amount {
    Amount { mantissa: 72, scale: 1 }
}

/// The exchange rate that a stored setting stands for: the number it denotes
/// where that is positive, the default in every other case.
pub open spec fn exchange_rate(raw: Option<Seq<char>>) -> Amount {
    match raw {
        Some(s) => match decimal_from_str(trimmed(s)) {
            Ok(a) => if s.len() > 0 && a.units() > 0 {
                a
            } else {
                default_rate()
            },
            Err(_) => default_rate(),
        },
        None => default_rate(),
    }
}

fn default_exchange_rate() -> (r: Result<Amount, AppError>)
    ensures
        r matches Ok(a) && a == default_rate() && a.wf() && a.units() > 0,
{
    proof {
        reveal_strlit("7.2");
        let s = "7.2"@;
        reveal_with_fuel(point_position, 3);
        assert(point_position(s) == 1);
        assert(s.take(1) + s.skip(2) =~= seq!['7', '2']);
        reveal_with_fuel(digits_value, 3);
        assert(seq!['7', '2'].drop_last() =~= seq!['7']);
        assert(seq!['7'].drop_last() =~= Seq::<char>::empty());
        assert(digits_value(seq!['7', '2']) == 72);
        assert(plain_number(s) == Some(default_rate()));
        lemma_units_sign(default_rate());
    }
    match parse_amount(DEFAULT_USD_CNY_RATE) {
        Ok(rate) => Ok(rate),
        Err(e) => Err(AppError::Database(concat("默认汇率解析失败: ", e.as_str()))),
    }
}

/// Reads a stored exchange rate. What is stored and cannot be used stops nothing:
/// the default holds.
pub fn parse_exchange_rate(raw: Option<&str>) -> (r: Result<Amount, AppError>)
    ensures
        r matches Ok(rate) && rate == exchange_rate(
            match raw {
                Some(s) => Some(s@),
                None => None,
            },
        ) && rate.wf() && rate.units() > 0,
{
    match raw {
        None => default_exchange_rate(),
        Some(value) => {
            if value.is_empty() {
                return default_exchange_rate();
            }
            match parse_amount(trim(value)) {
                Ok(rate) => {
                    proof {
                        lemma_units_sign(Amount { mantissa: 0, scale: 0 });
                    }
                    if !at_most(&rate, &Amount::whole(0)) {
                        Ok(rate)
                    } else {
                        default_exchange_rate()
                    }
                },
                Err(_) => default_exchange_rate(),
            }
        },
    }
}

} // verus!
