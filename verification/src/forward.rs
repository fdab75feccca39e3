//! The decision to forward a request: whether the limit of its key is reached.
//!
//! The limit and the usage lie in storage. The functions here decide what to ask
//! the storage next, and what to answer once the replies are in.

use crate::app_error::{AppError, AppErrorView};
use crate::decimal::{
    at_most, decimal_from_str, decimal_product, decimal_sum, exact_sum, lemma_units_sign,
    multiplies_exactly, parse_amount, plain_number, pow10, product, sum, Amount, MAX_SCALE,
};
use crate::ledger::{zero_amount, Database};
use crate::limit::{exchange_rate, parse_exchange_rate, LimitCurrency, LimitType};
use crate::limit_row::{ApiKeyLimitRow, LimitRowView};
use crate::rejection::{
    format_money_for_message, format_tokens_for_message, money_text, tokens_text, BudgetRejection,
    EvaluatedBudget, EvaluatedView, RejectionView,
};
use crate::text::{concat, same_text, signed_of, signed_value, text_of, trim, trimmed};
use vstd::prelude::*;

verus! {

/// The usage of a key since a time.
#[derive(Clone, Debug, PartialEq, Eq)]
pub struct UsageQuery {
    pub fingerprint: String,
    pub since: i64,
}

impl UsageQuery {
    pub(crate) fn new(fingerprint: &str, since: i64) -> (r: UsageQuery)
        ensures
            r.fingerprint@ == fingerprint@,
            r.since == since,
    {
        UsageQuery { fingerprint: fingerprint.to_owned(), since }
    }
}

/// A question to the storage about the usage of a key.
#[derive(Clone, Debug, PartialEq, Eq)]
pub enum UsageAction {
    /// The tokens that a key used.
    ReadUsage(UsageQuery),
    /// The stored exchange rate.
    ReadRate,
    /// The costs in US dollars of the requests of a key.
    ReadCosts(UsageQuery),
}

/// A [`UsageAction`] with its texts as sequences of characters.
pub enum UsageQuestion {
    ReadUsage { fingerprint: Seq<char>, since: i64 },
    ReadRate,
    ReadCosts { fingerprint: Seq<char>, since: i64 },
}

impl View for UsageAction {
    type V = UsageQuestion;

    open spec fn view(&self) -> UsageQuestion {
        match self {
            UsageAction::ReadUsage(q) => UsageQuestion::ReadUsage {
                fingerprint: q.fingerprint@,
                since: q.since,
            },
            UsageAction::ReadRate => UsageQuestion::ReadRate,
            UsageAction::ReadCosts(q) => UsageQuestion::ReadCosts {
                fingerprint: q.fingerprint@,
                since: q.since,
            },
        }
    }
}

/// The replies about the usage of a key, as far as they are in.
#[derive(Debug)]
pub struct UsageReplies {
    pub usage: Option<Result<i64, AppError>>,
    pub rate_setting: Option<Result<Option<String>, AppError>>,
    pub costs: Option<Result<Vec<String>, AppError>>,
}

impl UsageReplies {
    /// No reply yet.
    pub fn none() -> (r: UsageReplies)
        ensures
            r.usage is None,
            r.rate_setting is None,
            r.costs is None,
    {
        UsageReplies { usage: None, rate_setting: None, costs: None }
    }
}

/// The sum of recorded costs; one that is no decimal number counts nothing.
/// Nothing comes back where a sum leaves the range of an amount.
pub open spec fn lenient_total(costs: Seq<String>) -> Option<Amount>
    decreases costs.len(),
{
    if costs.len() == 0 {
        Some(zero_amount())
    } else {
        match lenient_total(costs.drop_last()) {
            None => None,
            Some(total) => decimal_sum(
                total,
                match decimal_from_str(trimmed(costs.last()@)) {
                    Ok(cost) => cost,
                    Err(_) => zero_amount(),
                },
            ),
        }
    }
}

/// The sum of costs in plain decimal notation, as long as no sum needs rounding.
pub open spec fn exact_total(costs: Seq<String>) -> Option<Amount>
    decreases costs.len(),
{
    if costs.len() == 0 {
        Some(zero_amount())
    } else {
        match (exact_total(costs.drop_last()), plain_number(trimmed(costs.last()@))) {
            (Some(total), Some(cost)) => exact_sum(total, cost),
            _ => None,
        }
    }
}

/// What was used, in the currency of the limit, at an exchange rate.
pub open spec fn used_in_currency(
    currency: LimitCurrency,
    used_usd: Amount,
    rate: Amount,
) -> Option<Amount> {
    match currency {
        LimitCurrency::Usd => Some(used_usd),
        LimitCurrency::Cny => decimal_product(used_usd, rate),
    }
}

/// How far a limit has been found to be used.
pub enum Evaluation {
    /// It takes another reply.
    Ask(UsageQuestion),
    Found(EvaluatedView),
    Failed(AppErrorView),
    /// A sum or product of amounts leaves their range.
    OutOfRange,
}

/// A limit on tokens is exhausted once as many are used.
pub open spec fn token_evaluation(used: int, limit: int) -> EvaluatedView {
    EvaluatedView {
        limit_type: LimitType::Token,
        currency: None,
        limit_display: tokens_text(limit),
        used_display: tokens_text(used),
        exhausted: used >= limit,
    }
}

/// A limit on money is exhausted once as much is used, in the currency of the limit.
pub open spec fn money_evaluation(
    used: Amount,
    limit: Amount,
    currency: LimitCurrency,
) -> EvaluatedView {
    EvaluatedView {
        limit_type: LimitType::Money,
        currency: Some(currency),
        limit_display: money_text(limit, currency),
        used_display: money_text(used, currency),
        exhausted: used.units() >= limit.units(),
    }
}

/// The evaluation of a stored limit for the key with the given fingerprint, on the
/// replies that are in.
pub open spec fn evaluation(
    row: LimitRowView,
    fingerprint: Seq<char>,
    seen: UsageReplies,
) -> Evaluation {
    match seen.usage {
        None => Evaluation::Ask(
            UsageQuestion::ReadUsage { fingerprint, since: row.usage_start_at },
        ),
        Some(Err(e)) => Evaluation::Failed(e@),
        Some(Ok(tokens)) => match LimitType::named(row.limit_type) {
            None => Evaluation::Failed(
                AppErrorView::Database("限额类型非法: "@ + row.limit_type),
            ),
            Some(LimitType::Token) => match signed_value(row.limit_amount) {
                None => Evaluation::Failed(
                    AppErrorView::Database("限额 Token 数非法: "@ + row.limit_amount),
                ),
                Some(limit) => Evaluation::Found(token_evaluation(tokens as int, limit)),
            },
            Some(LimitType::Money) => match decimal_from_str(trimmed(row.limit_amount)) {
                Err(_) => Evaluation::Failed(
                    AppErrorView::Database("限额金额非法: "@ + row.limit_amount),
                ),
                Ok(limit) => match (row.money_currency(), seen.rate_setting) {
                    (LimitCurrency::Cny, None) => Evaluation::Ask(UsageQuestion::ReadRate),
                    (LimitCurrency::Cny, Some(Err(e))) => Evaluation::Failed(e@),
                    (LimitCurrency::Cny, Some(Ok(setting))) => money_finding(
                        row,
                        fingerprint,
                        limit,
                        exchange_rate(text_of(setting)),
                        seen.costs,
                    ),
                    (LimitCurrency::Usd, _) => money_finding(
                        row,
                        fingerprint,
                        limit,
                        zero_amount(),
                        seen.costs,
                    ),
                },
            },
        },
    }
}

/// The evaluation of a money limit; the rate matters for a limit in yuan only.
pub open spec fn money_finding(
    row: LimitRowView,
    fingerprint: Seq<char>,
    limit: Amount,
    rate: Amount,
    costs: Option<Result<Vec<String>, AppError>>,
) -> Evaluation {
    match costs {
        None => Evaluation::Ask(
            UsageQuestion::ReadCosts { fingerprint, since: row.usage_start_at },
        ),
        Some(Err(e)) => Evaluation::Failed(e@),
        Some(Ok(list)) => match lenient_total(list@) {
            None => Evaluation::OutOfRange,
            Some(used_usd) => match used_in_currency(row.money_currency(), used_usd, rate) {
                None => Evaluation::OutOfRange,
                Some(used) => Evaluation::Found(
                    money_evaluation(used, limit, row.money_currency()),
                ),
            },
        },
    }
}

/// Whether the replies show that nothing was used of a positive limit.
pub open spec fn nothing_used(row: LimitRowView, seen: UsageReplies) -> bool {
    &&& seen.usage == Some(Ok::<i64, AppError>(0))
    &&& match LimitType::named(row.limit_type) {
        Some(LimitType::Token) => signed_value(row.limit_amount) matches Some(limit) && limit > 0,
        Some(LimitType::Money) => {
            &&& decimal_from_str(trimmed(row.limit_amount)) matches Ok(limit)
            &&& limit.units() > 0
            &&& seen.costs matches Some(Ok(costs))
            &&& costs@.len() == 0
            &&& seen.rate_setting matches Some(Ok(_))
        },
        None => false,
    }
}

/// Whether a money limit is found exhausted exactly where the costs at the exchange
/// rate reach it, as far as they can be multiplied without rounding.
pub open spec fn compared_in_yuan(
    row: LimitRowView,
    seen: UsageReplies,
    exhausted: bool,
) -> bool {
    match (
        decimal_from_str(trimmed(row.limit_amount)),
        seen.rate_setting,
        seen.costs,
    ) {
        (Ok(limit), Some(Ok(setting)), Some(Ok(costs))) => {
            let rate = exchange_rate(text_of(setting));
            lenient_total(costs@) matches Some(used_usd) && (multiplies_exactly(used_usd, rate)
                ==> exhausted == (used_usd.mantissa * rate.mantissa * pow10(
                (MAX_SCALE - (used_usd.scale + rate.scale)) as nat,
            ) >= limit.units()))
        },
        _ => false,
    }
}

/// What comes of evaluating a limit.
#[derive(Debug)]
pub enum EvaluateStep {
    Ask(UsageAction),
    Done(Result<EvaluatedBudget, AppError>),
    OutOfRange,
}

impl View for EvaluateStep {
    type V = Evaluation;

    open spec fn view(&self) -> Evaluation {
        match self {
            EvaluateStep::Ask(action) => Evaluation::Ask(action@),
            EvaluateStep::Done(Ok(found)) => Evaluation::Found(found@),
            EvaluateStep::Done(Err(e)) => Evaluation::Failed(e@),
            EvaluateStep::OutOfRange => Evaluation::OutOfRange,
        }
    }
}

impl Database {
    /// Adds up recorded costs without rounding errors. A cost that is no decimal
    /// number counts nothing.
    pub fn sum_credential_costs_exact(costs: &Vec<String>) -> (r: Option<Amount>)
        ensures
            r == lenient_total(costs@),
            r matches Some(total) ==> total.wf(),
            exact_total(costs@) is Some ==> r == exact_total(costs@),
    {
        let mut total: Amount = Amount::whole(0);
        let mut i: usize = 0;
        while i < costs.len()
            invariant
                i <= costs@.len(),
                total.wf(),
                lenient_total(costs@.take(i as int)) == Some(total),
                exact_total(costs@.take(i as int)) is Some ==> exact_total(costs@.take(i as int))
                    == Some(total),
            decreases costs@.len() - i,
        {
            assert(costs@.take(i + 1).drop_last() =~= costs@.take(i as int));
            let cost: Amount = match parse_amount(trim(costs[i].as_str())) {
                Ok(a) => a,
                Err(_) => Amount::whole(0),
            };
            match sum(&total, &cost) {
                Some(next) => {
                    total = next;
                },
                None => {
                    proof {
                        lemma_lenient_total_stays_out(costs@, i + 1);
                        lemma_exact_total_stays_out(costs@, i + 1);
                    }
                    return None;
                },
            }
            i = i + 1;
        }
        assert(costs@.take(costs@.len() as int) =~= costs@);
        Some(total)
    }

    /// Compares the usage of a key with its limit, on the replies that are in.
    pub fn evaluate_budget(
        row: &ApiKeyLimitRow,
        fingerprint: &str,
        seen: &UsageReplies,
    ) -> (r: EvaluateStep)
        ensures
            r@ == evaluation(row@, fingerprint@, *seen),
            nothing_used(row@, *seen) ==> (r matches EvaluateStep::Done(Ok(found))
                && !found.exhausted),
            (r matches EvaluateStep::Done(Ok(found)) && LimitType::named(row.limit_type@) == Some(
                LimitType::Money,
            ) && row@.money_currency() == LimitCurrency::Cny) ==> (
            r matches EvaluateStep::Done(Ok(found)) && compared_in_yuan(
                row@,
                *seen,
                found.exhausted,
            )),
    {
        let tokens: i64 = match &seen.usage {
            None => {
                return EvaluateStep::Ask(
                    UsageAction::ReadUsage(UsageQuery::new(fingerprint, row.usage_start_at)),
                );
            },
            Some(Err(e)) => {
                return EvaluateStep::Done(Err(e.duplicate()));
            },
            Some(Ok(n)) => *n,
        };
        match LimitType::parse(row.limit_type.as_str()) {
            None => EvaluateStep::Done(
                Err(AppError::Database(concat("限额类型非法: ", row.limit_type.as_str()))),
            ),
            Some(LimitType::Token) => match signed_of(row.limit_amount.as_str()) {
                None => EvaluateStep::Done(
                    Err(AppError::Database(concat("限额 Token 数非法: ", row.limit_amount.as_str()))),
                ),
                Some(limit) => EvaluateStep::Done(
                    Ok(
                        EvaluatedBudget {
                            limit_type: LimitType::Token,
                            currency: None,
                            limit_display: format_tokens_for_message(limit),
                            used_display: format_tokens_for_message(tokens),
                            exhausted: tokens >= limit,
                        },
                    ),
                ),
            },
            Some(LimitType::Money) => Database::evaluate_money(row, fingerprint, seen),
        }
    }

    fn evaluate_money(
        row: &ApiKeyLimitRow,
        fingerprint: &str,
        seen: &UsageReplies,
    ) -> (r: EvaluateStep)
        requires
            seen.usage matches Some(Ok(_)),
            LimitType::named(row.limit_type@) == Some(LimitType::Money),
        ensures
            r@ == evaluation(row@, fingerprint@, *seen),
            nothing_used(row@, *seen) ==> (r matches EvaluateStep::Done(Ok(found))
                && !found.exhausted),
            (r matches EvaluateStep::Done(Ok(found)) && row@.money_currency()
                == LimitCurrency::Cny) ==> (r matches EvaluateStep::Done(Ok(found))
                && compared_in_yuan(row@, *seen, found.exhausted)),
    {
        let currency: LimitCurrency = row.currency_of_money();
        let limit: Amount = match parse_amount(trim(row.limit_amount.as_str())) {
            Ok(a) => a,
            Err(_) => {
                return EvaluateStep::Done(
                    Err(AppError::Database(concat("限额金额非法: ", row.limit_amount.as_str()))),
                );
            },
        };
        let rate: Amount = match currency {
            LimitCurrency::Usd => Amount::whole(0),
            LimitCurrency::Cny => match &seen.rate_setting {
                None => {
                    return EvaluateStep::Ask(UsageAction::ReadRate);
                },
                Some(Err(e)) => {
                    return EvaluateStep::Done(Err(e.duplicate()));
                },
                Some(Ok(setting)) => match Database::rate_of_setting(setting) {
                    Ok(rate) => rate,
                    Err(e) => {
                        return EvaluateStep::Done(Err(e));
                    },
                },
            },
        };
        let used_usd: Amount = match &seen.costs {
            None => {
                return EvaluateStep::Ask(
                    UsageAction::ReadCosts(UsageQuery::new(fingerprint, row.usage_start_at)),
                );
            },
            Some(Err(e)) => {
                return EvaluateStep::Done(Err(e.duplicate()));
            },
            Some(Ok(costs)) => match Database::sum_credential_costs_exact(costs) {
                Some(total) => total,
                None => {
                    return EvaluateStep::OutOfRange;
                },
            },
        };
        proof {
            lemma_units_sign(zero_amount());
        }
        match Database::used_in(currency, &used_usd, &rate) {
            None => EvaluateStep::OutOfRange,
            Some(used) => EvaluateStep::Done(
                Ok(
                    EvaluatedBudget {
                        limit_type: LimitType::Money,
                        currency: Some(currency),
                        limit_display: format_money_for_message(&limit, currency),
                        used_display: format_money_for_message(&used, currency),
                        exhausted: at_most(&limit, &used),
                    },
                ),
            ),
        }
    }

    pub(crate) fn used_in(currency: LimitCurrency, used_usd: &Amount, rate: &Amount) -> (r: Option<
        Amount,
    >)
        requires
            used_usd.wf(),
            rate.wf(),
        ensures
            r == used_in_currency(currency, *used_usd, *rate),
            r matches Some(used) ==> used.wf(),
            used_usd.mantissa == 0 ==> (r matches Some(used) && used.mantissa == 0),
            currency == LimitCurrency::Cny && multiplies_exactly(*used_usd, *rate) ==> (
            r matches Some(used) && used.units() == used_usd.mantissa * rate.mantissa * pow10(
                (MAX_SCALE - (used_usd.scale + rate.scale)) as nat,
            )),
    {
        match currency {
            LimitCurrency::Usd => Some(*used_usd),
            LimitCurrency::Cny => product(used_usd, rate),
        }
    }

    pub(crate) fn rate_of_setting(setting: &Option<String>) -> (r: Result<Amount, AppError>)
        ensures
            r matches Ok(rate) && rate == exchange_rate(text_of(*setting)) && rate.wf()
                && rate.units() > 0,
    {
        match setting {
            Some(s) => parse_exchange_rate(Some(s.as_str())),
            None => parse_exchange_rate(None),
        }
    }
}

/// A question to the storage, or an order, on behalf of a request that waits to
/// be forwarded.
#[derive(Clone, Debug, PartialEq, Eq)]
pub enum ForwardAction {
    ReadLimit,
    /// Tie the limit to the key with this fingerprint, and start its window now.
    Rebind { fingerprint: String, now: i64 },
    ReadLimitAfterRebind,
    /// Start the window anew if its interval is over now.
    RollWindow { now: i64 },
    ReadLimitAfterRoll,
    Usage(UsageAction),
}

/// A [`ForwardAction`] with its texts as sequences of characters.
pub enum ForwardQuestion {
    ReadLimit,
    Rebind { fingerprint: Seq<char>, now: i64 },
    ReadLimitAfterRebind,
    RollWindow { now: i64 },
    ReadLimitAfterRoll,
    Usage(UsageQuestion),
}

impl View for ForwardAction {
    type V = ForwardQuestion;

    open spec fn view(&self) -> ForwardQuestion {
        match self {
            ForwardAction::ReadLimit => ForwardQuestion::ReadLimit,
            ForwardAction::Rebind { fingerprint, now } => ForwardQuestion::Rebind {
                fingerprint: fingerprint@,
                now: *now,
            },
            ForwardAction::ReadLimitAfterRebind => ForwardQuestion::ReadLimitAfterRebind,
            ForwardAction::RollWindow { now } => ForwardQuestion::RollWindow { now: *now },
            ForwardAction::ReadLimitAfterRoll => ForwardQuestion::ReadLimitAfterRoll,
            ForwardAction::Usage(action) => ForwardQuestion::Usage(action@),
        }
    }
}

/// The replies to a check, as far as they are in.
#[derive(Debug)]
pub struct ForwardReplies {
    pub limit: Option<Result<Option<ApiKeyLimitRow>, AppError>>,
    pub rebound: Option<Result<bool, AppError>>,
    pub limit_after_rebind: Option<Result<Option<ApiKeyLimitRow>, AppError>>,
    pub rolled: Option<Result<bool, AppError>>,
    pub limit_after_roll: Option<Result<Option<ApiKeyLimitRow>, AppError>>,
    pub usage: UsageReplies,
}

/// How far a check has found the limit that holds.
pub enum Holding {
    Ask(ForwardQuestion),
    /// There is no enabled limit, or it cannot be read.
    Nothing,
    Limit(LimitRowView),
}

/// What a limit becomes when it was changed: the row that is read afterwards, or
/// the one from before where that cannot be read.
pub open spec fn refreshed(
    row: LimitRowView,
    changed: bool,
    again: Option<Result<Option<ApiKeyLimitRow>, AppError>>,
    question: ForwardQuestion,
) -> Holding {
    if !changed {
        Holding::Limit(row)
    } else {
        match again {
            None => Holding::Ask(question),
            Some(Ok(Some(current))) => Holding::Limit(current@),
            _ => Holding::Limit(row),
        }
    }
}

impl ForwardReplies {
    /// No reply yet.
    pub fn none() -> (r: ForwardReplies)
        ensures
            r.limit is None,
            r.rebound is None,
            r.limit_after_rebind is None,
            r.rolled is None,
            r.limit_after_roll is None,
            r.usage.usage is None,
            r.usage.rate_setting is None,
            r.usage.costs is None,
    {
        ForwardReplies {
            limit: None,
            rebound: None,
            limit_after_rebind: None,
            rolled: None,
            limit_after_roll: None,
            usage: UsageReplies::none(),
        }
    }

    /// The enabled limit that was stored.
    pub open spec fn stored(self) -> Holding {
        match self.limit {
            None => Holding::Ask(ForwardQuestion::ReadLimit),
            Some(Ok(Some(row))) if row.enabled => Holding::Limit(row@),
            Some(_) => Holding::Nothing,
        }
    }

    /// The limit once it is tied to the key in use. A limit that is tied to another
    /// key is tied anew; where that fails it holds as it is.
    pub open spec fn tied(self, fingerprint: Seq<char>, now: i64) -> Holding {
        match self.stored() {
            Holding::Limit(row) => if row.credential_fingerprint == fingerprint {
                Holding::Limit(row)
            } else {
                match self.rebound {
                    None => Holding::Ask(ForwardQuestion::Rebind { fingerprint, now }),
                    Some(reply) => refreshed(
                        row,
                        reply matches Ok(true),
                        self.limit_after_rebind,
                        ForwardQuestion::ReadLimitAfterRebind,
                    ),
                }
            },
            other => other,
        }
    }

    /// The limit once its window is the current one. Where the window cannot be
    /// started anew the limit holds as it is.
    pub open spec fn current(self, fingerprint: Seq<char>, now: i64) -> Holding {
        match self.tied(fingerprint, now) {
            Holding::Limit(row) => match self.rolled {
                None => Holding::Ask(ForwardQuestion::RollWindow { now }),
                Some(reply) => refreshed(
                    row,
                    reply matches Ok(true),
                    self.limit_after_roll,
                    ForwardQuestion::ReadLimitAfterRoll,
                ),
            },
            other => other,
        }
    }

    /// The verdict on a request: it is refused exactly where a limit holds and the
    /// usage was found to have reached it. What cannot be read stops no request.
    pub open spec fn verdict(
        self,
        provider_name: Seq<char>,
        fingerprint: Seq<char>,
        now: i64,
    ) -> Verdict {
        match self.current(fingerprint, now) {
            Holding::Ask(action) => Verdict::Ask(action),
            Holding::Nothing => Verdict::Pass,
            Holding::Limit(row) => match evaluation(row, fingerprint, self.usage) {
                Evaluation::Ask(action) => Verdict::Ask(ForwardQuestion::Usage(action)),
                Evaluation::Failed(_) => Verdict::Pass,
                Evaluation::OutOfRange => Verdict::OutOfRange,
                Evaluation::Found(found) => if found.exhausted {
                    Verdict::Refuse(found.rejection(provider_name))
                } else {
                    Verdict::Pass
                },
            },
        }
    }

    fn current_row(&self, fingerprint: &str, now: i64) -> (r: Held<'_>)
        ensures
            r.holding() == self.current(fingerprint@, now),
    {
        let stored: &ApiKeyLimitRow = match &self.limit {
            None => {
                return Held::Ask(ForwardAction::ReadLimit);
            },
            Some(Ok(Some(row))) => row,
            Some(_) => {
                return Held::Nothing;
            },
        };
        if !stored.enabled {
            return Held::Nothing;
        }
        let tied: &ApiKeyLimitRow = if same_text(
            stored.credential_fingerprint.as_str(),
            fingerprint,
        ) {
            stored
        } else {
            match &self.rebound {
                None => {
                    return Held::Ask(
                        ForwardAction::Rebind { fingerprint: fingerprint.to_owned(), now },
                    );
                },
                Some(Ok(true)) => match &self.limit_after_rebind {
                    None => {
                        return Held::Ask(ForwardAction::ReadLimitAfterRebind);
                    },
                    Some(Ok(Some(current))) => current,
                    Some(_) => stored,
                },
                Some(_) => stored,
            }
        };
        match &self.rolled {
            None => Held::Ask(ForwardAction::RollWindow { now }),
            Some(Ok(true)) => match &self.limit_after_roll {
                None => Held::Ask(ForwardAction::ReadLimitAfterRoll),
                Some(Ok(Some(current))) => Held::Limit(current),
                Some(_) => Held::Limit(tied),
            },
            Some(_) => Held::Limit(tied),
        }
    }
}

enum Held<'a> {
    Ask(ForwardAction),
    Nothing,
    Limit(&'a ApiKeyLimitRow),
}

impl<'a> Held<'a> {
    spec fn holding(self) -> Holding {
        match self {
            Held::Ask(action) => Holding::Ask(action@),
            Held::Nothing => Holding::Nothing,
            Held::Limit(row) => Holding::Limit(row@),
        }
    }
}

/// What is decided about a request.
pub enum Verdict {
    /// It takes another reply.
    Ask(ForwardQuestion),
    Pass,
    Refuse(RejectionView),
    /// A sum or product of amounts leaves their range.
    OutOfRange,
}

/// What comes of checking a request.
#[derive(Debug)]
pub enum ForwardStep {
    Ask(ForwardAction),
    Answer(Result<(), BudgetRejection>),
    OutOfRange,
}

impl View for ForwardStep {
    type V = Verdict;

    open spec fn view(&self) -> Verdict {
        match self {
            ForwardStep::Ask(action) => Verdict::Ask(action@),
            ForwardStep::Answer(Ok(_)) => Verdict::Pass,
            ForwardStep::Answer(Err(rejection)) => Verdict::Refuse(rejection@),
            ForwardStep::OutOfRange => Verdict::OutOfRange,
        }
    }
}

impl Database {
    /// Decides whether a request by the key with the given fingerprint is
    /// forwarded, or what has to be asked first.
    ///
    /// A limit that is tied to another key is tied to this one, whose usage starts
    /// at nothing. A request is refused only where the usage is known to have
    /// reached the limit.
    pub fn check_budget_before_forward(
        provider_name: &str,
        fingerprint: &str,
        now: i64,
        seen: &ForwardReplies,
    ) -> (r: ForwardStep)
        ensures
            r@ == seen.verdict(provider_name@, fingerprint@, now),
            (seen.current(fingerprint@, now) matches Holding::Limit(row) && nothing_used(
                row,
                seen.usage,
            )) ==> r matches ForwardStep::Answer(Ok(_)),
    {
        match seen.current_row(fingerprint, now) {
            Held::Ask(action) => ForwardStep::Ask(action),
            Held::Nothing => ForwardStep::Answer(Ok(())),
            Held::Limit(row) => match Database::evaluate_budget(row, fingerprint, &seen.usage) {
                EvaluateStep::Ask(action) => ForwardStep::Ask(ForwardAction::Usage(action)),
                EvaluateStep::OutOfRange => ForwardStep::OutOfRange,
                EvaluateStep::Done(Err(_)) => ForwardStep::Answer(Ok(())),
                EvaluateStep::Done(Ok(found)) => {
                    if found.exhausted {
                        ForwardStep::Answer(Err(found.build_rejection(provider_name)))
                    } else {
                        ForwardStep::Answer(Ok(()))
                    }
                },
            },
        }
    }
}

impl UsageReplies {
    /// Whether the reply to a question is in.
    pub open spec fn answered(self, action: UsageQuestion) -> bool {
        match action {
            UsageQuestion::ReadUsage { .. } => self.usage is Some,
            UsageQuestion::ReadRate => self.rate_setting is Some,
            UsageQuestion::ReadCosts { .. } => self.costs is Some,
        }
    }
}

impl ForwardReplies {
    /// Whether the reply to a question is in.
    pub open spec fn answered(self, action: ForwardQuestion) -> bool {
        match action {
            ForwardQuestion::ReadLimit => self.limit is Some,
            ForwardQuestion::Rebind { .. } => self.rebound is Some,
            ForwardQuestion::ReadLimitAfterRebind => self.limit_after_rebind is Some,
            ForwardQuestion::RollWindow { .. } => self.rolled is Some,
            ForwardQuestion::ReadLimitAfterRoll => self.limit_after_roll is Some,
            ForwardQuestion::Usage(action) => self.usage.answered(action),
        }
    }
}

/// No question is asked again once its reply is in, so that a check ends.
pub proof fn law_check_asks_nothing_twice(
    seen: ForwardReplies,
    provider_name: Seq<char>,
    fingerprint: Seq<char>,
    now: i64,
)
    ensures
        seen.verdict(provider_name, fingerprint, now) matches Verdict::Ask(action) ==> !seen.answered(
            action,
        ),
{
}

/// Without an enabled limit every request passes, and so does one for which the
/// limit or the usage cannot be read.
pub proof fn law_failures_stop_no_request(
    seen: ForwardReplies,
    provider_name: Seq<char>,
    fingerprint: Seq<char>,
    now: i64,
)
    ensures
        seen.limit matches Some(Err(_)) ==> seen.verdict(provider_name, fingerprint, now) is Pass,
        seen.limit matches Some(Ok(None)) ==> seen.verdict(provider_name, fingerprint, now) is Pass,
        seen.limit matches Some(Ok(Some(row))) && !row.enabled ==> seen.verdict(
            provider_name,
            fingerprint,
            now,
        ) is Pass,
        seen.usage.usage matches Some(Err(_)) ==> !(seen.verdict(provider_name, fingerprint, now)
            is Refuse),
        seen.usage.costs matches Some(Err(_)) ==> (seen.verdict(
            provider_name,
            fingerprint,
            now,
        ) matches Verdict::Refuse(_) ==> seen.current(fingerprint, now) matches Holding::Limit(row)
            && LimitType::named(row.limit_type) == Some(LimitType::Token)),
{
}

/// A verdict gives away nothing of the key: two keys under the same limit and with
/// the same replies get the same verdict.
pub proof fn law_verdict_names_no_key(
    seen: ForwardReplies,
    provider_name: Seq<char>,
    fingerprint1: Seq<char>,
    fingerprint2: Seq<char>,
    now1: i64,
    now2: i64,
)
    requires
        seen.current(fingerprint1, now1) == seen.current(fingerprint2, now2),
        !(seen.verdict(provider_name, fingerprint1, now1) is Ask),
    ensures
        seen.verdict(provider_name, fingerprint2, now2) == seen.verdict(
            provider_name,
            fingerprint1,
            now1,
        ),
{
}

/// A limit that is tied to another key is ordered to be tied to the key in use from
/// now on. Once it is, usage counts for that key and from then on alone, whatever
/// the old key used.
pub proof fn law_new_key_counts_from_now(
    seen: ForwardReplies,
    provider_name: Seq<char>,
    fingerprint: Seq<char>,
    now: i64,
    old_row: LimitRowView,
    new_row: ApiKeyLimitRow,
)
    requires
        seen.stored() == Holding::Limit(old_row),
        old_row.credential_fingerprint != fingerprint,
        seen.limit_after_rebind == Some(
            Ok::<Option<ApiKeyLimitRow>, AppError>(Some(new_row)),
        ),
        is_rebound(new_row@, old_row, fingerprint, now),
        seen.rolled == Some(Ok::<bool, AppError>(false)),
    ensures
        seen.rebound is None ==> seen.verdict(provider_name, fingerprint, now) == Verdict::Ask(
            ForwardQuestion::Rebind { fingerprint, now },
        ),
        seen.rebound == Some(Ok::<bool, AppError>(true)) && seen.usage.usage is None
            ==> seen.verdict(provider_name, fingerprint, now) == Verdict::Ask(
            ForwardQuestion::Usage(UsageQuestion::ReadUsage { fingerprint, since: now }),
        ),
        seen.rebound == Some(Ok::<bool, AppError>(true)) && nothing_used(new_row@, seen.usage) && !(
        LimitType::named(old_row.limit_type) == Some(LimitType::Money) && old_row.money_currency()
            == LimitCurrency::Cny) ==> seen.verdict(provider_name, fingerprint, now) is Pass,
{
    lemma_units_sign(zero_amount());
}

/// Whether a row is what another one becomes once it is tied to another key: its window starts
/// now, and its settings stay.
pub open spec fn is_rebound(
    row: LimitRowView,
    before: LimitRowView,
    fingerprint: Seq<char>,
    now: i64,
) -> bool {
    row == (LimitRowView {
        credential_fingerprint: fingerprint,
        usage_start_at: now,
        updated_at: row.updated_at,
        ..before
    })
}

/// A request under a token limit is refused exactly where the tokens used have
/// reached the limit.
pub proof fn law_refused_once_tokens_are_used_up(
    seen: ForwardReplies,
    provider_name: Seq<char>,
    fingerprint: Seq<char>,
    now: i64,
    row: LimitRowView,
    used: i64,
    limit: int,
)
    requires
        seen.current(fingerprint, now) == Holding::Limit(row),
        LimitType::named(row.limit_type) == Some(LimitType::Token),
        seen.usage.usage == Some(Ok::<i64, AppError>(used)),
        signed_value(row.limit_amount) == Some(limit),
    ensures
        seen.verdict(provider_name, fingerprint, now) is Refuse <==> used >= limit,
        seen.verdict(provider_name, fingerprint, now) is Pass <==> used < limit,
{
}

/// A request under a money limit is refused exactly where the money used, in the
/// currency of the limit, has reached the limit.
pub proof fn law_refused_once_money_is_used_up(
    seen: ForwardReplies,
    provider_name: Seq<char>,
    fingerprint: Seq<char>,
    now: i64,
    row: LimitRowView,
    tokens: i64,
    setting: Option<String>,
    costs: Vec<String>,
    used_usd: Amount,
    used: Amount,
    limit: Amount,
)
    requires
        seen.current(fingerprint, now) == Holding::Limit(row),
        LimitType::named(row.limit_type) == Some(LimitType::Money),
        seen.usage.usage == Some(Ok::<i64, AppError>(tokens)),
        seen.usage.rate_setting == Some(Ok::<Option<String>, AppError>(setting)),
        seen.usage.costs == Some(Ok::<Vec<String>, AppError>(costs)),
        decimal_from_str(trimmed(row.limit_amount)) == Ok::<Amount, Seq<char>>(limit),
        lenient_total(costs@) == Some(used_usd),
        used_in_currency(row.money_currency(), used_usd, exchange_rate(text_of(setting))) == Some(
            used,
        ),
    ensures
        seen.verdict(provider_name, fingerprint, now) is Refuse <==> used.units() >= limit.units(),
        seen.verdict(provider_name, fingerprint, now) is Pass <==> used.units() < limit.units(),
{
}

proof fn lemma_exact_total_stays_out(costs: Seq<String>, n: int)
    requires
        0 <= n <= costs.len(),
        exact_total(costs.take(n)) is None,
    ensures
        exact_total(costs) is None,
    decreases costs.len() - n,
{
    if n < costs.len() {
        assert(costs.take(n + 1).drop_last() =~= costs.take(n));
        lemma_exact_total_stays_out(costs, n + 1);
    } else {
        assert(costs.take(n) =~= costs);
    }
}

proof fn lemma_lenient_total_stays_out(costs: Seq<String>, n: int)
    requires
        0 <= n <= costs.len(),
        lenient_total(costs.take(n)) is None,
    ensures
        lenient_total(costs) is None,
    decreases costs.len() - n,
{
    if n < costs.len() {
        assert(costs.take(n + 1).drop_last() =~= costs.take(n));
        lemma_lenient_total_stays_out(costs, n + 1);
    } else {
        assert(costs.take(n) =~= costs);
    }
}

} // verus!
