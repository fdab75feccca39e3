//! Which limits, intervals and exchange rates are taken, and what they become.

use crate::app_error::AppErrorView;
use crate::decimal::{amount_text, decimal_from_str, normal_form, Amount};
use crate::limit::{
    exchange_rate, interval_outcome, limit_amount_outcome, EnforcementSupport, LimitCurrency,
    LimitType, USD_CNY_RATE_SETTING_KEY,
};
use crate::limit_row::LimitRowView;
use crate::rate::rate_complaint;
use crate::text::{
    all_digits, digits, digits_value, is_digit, lemma_digits_denote, lemma_trimmed_fixed, trimmed,
};
use vstd::prelude::*;

verus! {

/// The names of the two kinds and of the two currencies differ.
pub proof fn lemma_names_differ()
    ensures
        "money"@ != "token"@,
        "USD"@ != "CNY"@,
{
    reveal_strlit("money");
    reveal_strlit("token");
    assert("money"@[0] != "token"@[0]);
    reveal_strlit("USD");
    reveal_strlit("CNY");
    assert("USD"@[0] != "CNY"@[0]);
}

/// Every whole number of hours, from one hour to as many as 64 bits of seconds hold,
/// is taken as it is.
pub proof fn law_whole_hours_are_taken(hours: int, seconds: i64)
    requires
        hours >= 1,
        seconds == 3600 * hours,
    ensures
        interval_outcome(Some(seconds)) == Ok::<Option<i64>, AppErrorView>(Some(seconds)),
{
    assert(seconds as int % 3600 == 0);
}

/// An interval that lies between two whole numbers of hours, or is not positive, is
/// refused; no interval is taken as none.
pub proof fn law_other_intervals_are_refused(hours: int, seconds: i64)
    ensures
        3600 * hours < seconds < 3600 * (hours + 1) ==> interval_outcome(Some(seconds)) == Err::<
            Option<i64>,
            AppErrorView,
        >(AppErrorView::InvalidInput("自动重置周期必须是至少 1 小时的整小时数"@)),
        seconds <= 0 ==> interval_outcome(Some(seconds)) is Err,
        interval_outcome(None) == Ok::<Option<i64>, AppErrorView>(None),
{
    if 3600 * hours < seconds < 3600 * (hours + 1) {
        assert(seconds as int / 3600 == hours);
    }
}

/// Every number of tokens from 1 to the largest of 64 bits is taken in decimal digits,
/// and becomes the same number without leading zeros, whatever white space stands
/// around it.
pub proof fn law_positive_tokens_are_taken(raw: Seq<char>, n: nat)
    requires
        trimmed(raw).len() > 0,
        forall|i: int|
            0 <= i < trimmed(raw).len() ==> '0' <= #[trigger] trimmed(raw)[i] && trimmed(raw)[i]
                <= '9',
        digits_value(trimmed(raw)) == n,
    ensures
        1 <= n <= 0xffff_ffff_ffff_ffff ==> limit_amount_outcome(LimitType::Token, raw) == Ok::<
            Seq<char>,
            AppErrorView,
        >(digits(n)),
        n == 0 ==> limit_amount_outcome(LimitType::Token, raw) is Err,
        n > 0xffff_ffff_ffff_ffff ==> limit_amount_outcome(LimitType::Token, raw) is Err,
{
}

/// The digits of a positive number of tokens of 64 bits are taken as they are.
pub proof fn law_canonical_tokens_are_kept(n: nat)
    requires
        1 <= n <= u64::MAX,
    ensures
        limit_amount_outcome(LimitType::Token, digits(n)) == Ok::<Seq<char>, AppErrorView>(
            digits(n),
        ),
{
    lemma_digits_denote(n);
    assert(is_digit(digits(n).first()) && is_digit(digits(n).last()));
    lemma_trimmed_fixed(digits(n));
}

/// A number of tokens that holds anything but digits is refused, a sign and a point
/// too, and so is an empty one.
pub proof fn law_other_tokens_are_refused(raw: Seq<char>, i: int)
    ensures
        trimmed(raw).len() == 0 ==> limit_amount_outcome(LimitType::Token, raw) is Err
            && limit_amount_outcome(LimitType::Money, raw) is Err,
        0 <= i < trimmed(raw).len() && (trimmed(raw)[i] < '0' || trimmed(raw)[i] > '9')
            ==> limit_amount_outcome(LimitType::Token, raw) is Err,
{
    if 0 <= i < trimmed(raw).len() {
        assert(is_digit(trimmed(raw)[i]) <==> '0' <= trimmed(raw)[i] <= '9');
    }
}

/// An amount of money is taken exactly where it reads as a number above zero, and it
/// becomes the notation of that number without trailing zeros.
pub proof fn law_positive_money_is_taken(raw: Seq<char>)
    requires
        trimmed(raw).len() > 0,
    ensures
        match decimal_from_str(trimmed(raw)) {
            Ok(a) => (a.units() > 0 ==> limit_amount_outcome(LimitType::Money, raw) == Ok::<
                Seq<char>,
                AppErrorView,
            >(amount_text(normal_form(a)))) && (a.units() <= 0 ==> limit_amount_outcome(
                LimitType::Money,
                raw,
            ) is Err),
            Err(_) => limit_amount_outcome(LimitType::Money, raw) is Err,
        },
{
}

/// A stored exchange rate above zero holds as it is; without one, or with anything
/// else stored, 7.2 yuan are a dollar.
pub proof fn law_exchange_rate(setting: Seq<char>)
    ensures
        exchange_rate(None) == (Amount { mantissa: 72, scale: 1 }),
        setting.len() > 0 ==> match decimal_from_str(trimmed(setting)) {
            Ok(a) => (a.units() > 0 ==> exchange_rate(Some(setting)) == a) && (a.units() <= 0
                ==> exchange_rate(Some(setting)) == (Amount { mantissa: 72, scale: 1 })),
            Err(_) => exchange_rate(Some(setting)) == (Amount { mantissa: 72, scale: 1 }),
        },
        setting.len() == 0 ==> exchange_rate(Some(setting)) == (Amount { mantissa: 72, scale: 1 }),
{
}

/// An exchange rate is stored exactly where it lies above zero and at most at a
/// million.
pub proof fn law_rates_that_are_stored(rate: Amount)
    ensures
        rate_complaint(rate) is None <==> 0 < rate.units() && rate.units() <= (Amount {
            mantissa: 1000000,
            scale: 0,
        }).units(),
{
}

/// A stored limit in yuan is one that says so; any other money limit, also one
/// without a currency, is in US dollars.
pub proof fn law_money_is_in_dollars_unless_in_yuan(row: LimitRowView)
    ensures
        row.money_currency() == LimitCurrency::Cny <==> row.currency == Some("CNY"@),
        row.money_currency() == LimitCurrency::Usd <==> row.currency != Some("CNY"@),
{
    lemma_names_differ();
}

/// The names by which kinds, currencies and enforcement are stored and shown.
pub proof fn law_names(s: Seq<char>)
    ensures
        LimitType::Money.name() == "money"@,
        LimitType::Token.name() == "token"@,
        LimitType::named(s) == Some(LimitType::Money) <==> s == "money"@,
        LimitType::named(s) == Some(LimitType::Token) <==> s == "token"@,
        LimitCurrency::named(s) == Some(LimitCurrency::Usd) <==> s == "USD"@,
        LimitCurrency::named(s) == Some(LimitCurrency::Cny) <==> s == "CNY"@,
        LimitCurrency::Usd.sign() == "$"@,
        LimitCurrency::Cny.sign() == "¥"@,
        EnforcementSupport::Active.name() == "active"@,
        EnforcementSupport::ProxyDisabled.name() == "proxy_disabled"@,
        EnforcementSupport::UnsupportedCredential.name() == "unsupported_credential"@,
        USD_CNY_RATE_SETTING_KEY@ == "usage_limit_usd_cny_rate"@,
{
    lemma_names_differ();
}

/// Whether an amount is turned down with a complaint.
pub open spec fn is_turned_down(limit_type: LimitType, raw: Seq<char>, why: Seq<char>) -> bool {
    limit_amount_outcome(limit_type, raw) == Err::<Seq<char>, AppErrorView>(
        AppErrorView::InvalidInput(why),
    )
}

/// What is wrong with a submitted amount or exchange rate is said in words.
pub proof fn law_complaints_about_amounts(raw: Seq<char>, a: Amount, why: Seq<char>)
    ensures
        trimmed(raw).len() == 0 ==> is_turned_down(LimitType::Money, raw, "限额金额不能为空"@)
            && is_turned_down(LimitType::Token, raw, "限额 Token 数不能为空"@),
        trimmed(raw).len() > 0 && decimal_from_str(trimmed(raw)) == Err::<Amount, Seq<char>>(why)
            ==> is_turned_down(LimitType::Money, raw, "限额金额格式无效: "@ + trimmed(raw)),
        trimmed(raw).len() > 0 && decimal_from_str(trimmed(raw)) == Ok::<Amount, Seq<char>>(a)
            && a.units() <= 0 ==> is_turned_down(LimitType::Money, raw, "限额金额必须大于 0"@),
        trimmed(raw).len() > 0 && !all_digits(trimmed(raw)) ==> is_turned_down(
            LimitType::Token,
            raw,
            "限额 Token 数必须是正整数"@,
        ),
        trimmed(raw).len() > 0 && all_digits(trimmed(raw)) && digits_value(trimmed(raw)) > u64::MAX
            ==> is_turned_down(LimitType::Token, raw, "限额 Token 数超出可表示范围"@),
        trimmed(raw).len() > 0 && all_digits(trimmed(raw)) && digits_value(trimmed(raw)) == 0
            ==> is_turned_down(LimitType::Token, raw, "限额 Token 数必须大于 0"@),
        a.units() <= 0 ==> rate_complaint(a) == Some(
            AppErrorView::InvalidInput("USD → CNY 汇率必须大于 0"@),
        ),
        a.units() > 0 && a.units() > (Amount { mantissa: 1000000, scale: 0 }).units()
            ==> rate_complaint(a) == Some(
            AppErrorView::InvalidInput("USD → CNY 汇率数值异常，请检查输入"@),
        ),
{
}

} // verus!
