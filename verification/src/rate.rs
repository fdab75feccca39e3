//! The stored exchange rate from US dollars to yuan.

use crate::app_error::{AppError, AppErrorView};
use crate::decimal::{
    amount_text, at_most, lemma_amount_text_trimmed, lemma_units_sign, print_amount, Amount,
};
use crate::ledger::{zero_amount, Database};
use crate::limit::{exchange_rate, parse_exchange_rate};
use crate::text::text_of;
use vstd::prelude::*;

verus! {

/// The highest exchange rate that is taken for one.
pub const MAX_USD_CNY_RATE: i64 = 1_000_000;

pub open spec fn highest_rate() -> Amount {
    Amount { mantissa: 1_000_000, scale: 0 }
}

/// Why an exchange rate is not stored, if it is not.
pub open spec fn rate_complaint(rate: Amount) -> Option<AppErrorView> {
    if rate.units() <= 0 {
        Some(AppErrorView::InvalidInput("USD → CNY 汇率必须大于 0"@))
    } else if rate.units() > highest_rate().units() {
        Some(AppErrorView::InvalidInput("USD → CNY 汇率数值异常，请检查输入"@))
    } else {
        None
    }
}

impl Database {
    /// The exchange rate on the reply to reading its setting. A setting that is
    /// missing or makes no sense stands for the default.
    pub fn get_usd_cny_exchange_rate(setting: Result<Option<String>, AppError>) -> (r: Result<
        Amount,
        AppError,
    >)
        ensures
            match setting {
                Err(e) => r matches Err(found) && found@ == e@,
                Ok(raw) => r matches Ok(rate) && rate == exchange_rate(text_of(raw)) && rate.wf()
                    && rate.units() > 0,
            },
    {
        match setting {
            Err(e) => Err(e),
            Ok(None) => parse_exchange_rate(None),
            Ok(Some(raw)) => parse_exchange_rate(Some(raw.as_str())),
        }
    }

    /// The text to store for an exchange rate. It reads back as that rate.
    pub fn set_usd_cny_exchange_rate(rate: Amount) -> (r: Result<String, AppError>)
        requires
            rate.wf(),
        ensures
            match rate_complaint(rate) {
                Some(complaint) => r matches Err(e) && e@ == complaint,
                None => r matches Ok(text) && text@ == amount_text(rate) && exchange_rate(
                    Some(text@),
                ) == rate,
            },
    {
        proof {
            lemma_units_sign(zero_amount());
            lemma_amount_text_trimmed(rate);
        }
        if at_most(&rate, &Amount::whole(0)) {
            return Err(AppError::InvalidInput("USD → CNY 汇率必须大于 0".to_owned()));
        }
        if !at_most(&rate, &Amount::whole(MAX_USD_CNY_RATE)) {
            return Err(AppError::InvalidInput("USD → CNY 汇率数值异常，请检查输入".to_owned()));
        }
        Ok(print_amount(&rate))
    }
}

} // verus!
