//! Stored limits.

use crate::limit::LimitCurrency;
use crate::text::text_of;
use vstd::prelude::*;

verus! {

/// The limit of a provider in an application, as it is stored.
#[derive(Clone, Debug, PartialEq, Eq)]
pub struct ApiKeyLimitRow {
    pub provider_id: String,
    pub app_type: String,
    /// The key that the limit is tied to.
    pub credential_fingerprint: String,
    pub enabled: bool,
    pub limit_type: String,
    pub currency: Option<String>,
    pub limit_amount: String,
    /// The start of the window: earlier usage does not count.
    pub usage_start_at: i64,
    pub reset_interval_seconds: Option<i64>,
    pub created_at: i64,
    pub updated_at: i64,
}

/// An [`ApiKeyLimitRow`] with its texts as sequences of characters.
pub struct LimitRowView {
    pub provider_id: Seq<char>,
    pub app_type: Seq<char>,
    pub credential_fingerprint: Seq<char>,
    pub enabled: bool,
    pub limit_type: Seq<char>,
    pub currency: Option<Seq<char>>,
    pub limit_amount: Seq<char>,
    pub usage_start_at: i64,
    pub reset_interval_seconds: Option<i64>,
    pub created_at: i64,
    pub updated_at: i64,
}

impl View for ApiKeyLimitRow {
    type V = LimitRowView;

    open spec fn view(&self) -> LimitRowView {
        LimitRowView {
            provider_id: self.provider_id@,
            app_type: self.app_type@,
            credential_fingerprint: self.credential_fingerprint@,
            enabled: self.enabled,
            limit_type: self.limit_type@,
            currency: text_of(self.currency),
            limit_amount: self.limit_amount@,
            usage_start_at: self.usage_start_at,
            reset_interval_seconds: self.reset_interval_seconds,
            created_at: self.created_at,
            updated_at: self.updated_at,
        }
    }
}

impl LimitRowView {
    /// The currency of a stored money limit: US dollars where none is named.
    pub open spec fn money_currency(self) -> LimitCurrency {
        match self.currency {
            Some(s) => match LimitCurrency::named(s) {
                Some(c) => c,
                None => LimitCurrency::Usd,
            },
            None => LimitCurrency::Usd,
        }
    }
}

impl ApiKeyLimitRow {
    pub(crate) fn currency_of_money(&self) -> (r: LimitCurrency)
        ensures
            r == self@.money_currency(),
    {
        match &self.currency {
            Some(s) => match LimitCurrency::parse(s.as_str()) {
                Some(c) => c,
                None => LimitCurrency::Usd,
            },
            None => LimitCurrency::Usd,
        }
    }
}

} // verus!
