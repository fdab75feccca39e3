//! How a request over its limit is refused, in words and in fields.

use crate::decimal::{
    amount_text, normal_form, normalize, print_amount, round_places, rounded_to, Amount,
};
use crate::json::{put_text, singleton, Field, Json, JsonValue};
use crate::limit::{LimitCurrency, LimitType};
use crate::text::{chars_of, concat, decimal_text, digits};
use vstd::prelude::*;
use vstd::string::*;

verus! {

/// The refusal of a request: a summary for people and fields for programs.
#[derive(Debug)]
pub struct BudgetRejection {
    pub message: String,
    pub detail: JsonValue,
}

/// A [`BudgetRejection`] with its text as a sequence of characters.
pub struct RejectionView {
    pub message: Seq<char>,
    pub detail: Json,
}

impl View for BudgetRejection {
    type V = RejectionView;

    open spec fn view(&self) -> RejectionView {
        RejectionView { message: self.message@, detail: self.detail@ }
    }
}

/// Digits in groups of three, counted from the right, with commas between them.
pub open spec fn grouped(s: Seq<char>) -> Seq<char>
    decreases s.len(),
{
    if s.len() <= 3 {
        s
    } else {
        grouped(s.take(s.len() - 3)) + ","@ + s.skip(s.len() - 3)
    }
}

/// How a number of tokens is shown.
pub open spec fn tokens_text(tokens: int) -> Seq<char> {
    if tokens < 0 {
        "-"@ + grouped(digits((-tokens) as nat))
    } else {
        grouped(digits(tokens as nat))
    }
}

/// How an amount of money is shown: the symbol of its currency, and at most two
/// decimal places.
pub open spec fn money_text(amount: Amount, currency: LimitCurrency) -> Seq<char> {
    currency.sign() + amount_text(normal_form(rounded_to(amount, 2)))
}

fn group(s: &str) -> (r: String)
    ensures
        r@ == grouped(s@),
    decreases s@.len(),
{
    let n: usize = chars_of(s).len();
    if n <= 3 {
        return s.to_owned();
    }
    let mut shown: String = group(s.substring_char(0, n - 3));
    assert(s@.subrange(0, n - 3) =~= s@.take(n - 3));
    assert(s@.subrange(n - 3, n as int) =~= s@.skip(n - 3));
    shown.append(",");
    shown.append(s.substring_char(n - 3, n));
    shown
}

/// Shows a number of tokens, in groups of three digits.
pub fn format_tokens_for_message(tokens: i64) -> (r: String)
    ensures
        r@ == tokens_text(tokens as int),
{
    if tokens < 0 {
        let size: u64 = (-(tokens as i128)) as u64;
        concat("-", group(decimal_text(size).as_str()).as_str())
    } else {
        group(decimal_text(tokens as u64).as_str())
    }
}

/// Shows an amount of money, rounded to two decimal places.
pub fn format_money_for_message(amount: &Amount, currency: LimitCurrency) -> (r: String)
    requires
        amount.wf(),
    ensures
        r@ == money_text(*amount, currency),
{
    let shown: Amount = round_places(amount, 2);
    concat(currency.symbol(), print_amount(&normalize(&shown)).as_str())
}

/// The fields of a refusal on the ground of a limit.
pub open spec fn limit_fields(
    limit_type: Seq<char>,
    currency: Seq<char>,
    used: Seq<char>,
    limit: Seq<char>,
) -> Map<Seq<char>, Json> {
    map![
        "code"@ => Json::Text("API_KEY_LIMIT_REACHED"@),
        "source"@ => Json::Text("local"@),
        "limitType"@ => Json::Text(limit_type),
        "currency"@ => Json::Text(currency),
        "used"@ => Json::Text(used),
        "limit"@ => Json::Text(limit)
    ]
}

fn limit_detail(limit_type: &str, currency: &str, used: &str, limit: &str) -> (r: Vec<Field>)
    ensures
        crate::json::object_view(r@) == limit_fields(limit_type@, currency@, used@, limit@),
{
    let mut fields: Vec<Field> = Vec::new();
    put_text(&mut fields, "code", "API_KEY_LIMIT_REACHED");
    put_text(&mut fields, "source", "local");
    put_text(&mut fields, "limitType", limit_type);
    put_text(&mut fields, "currency", currency);
    put_text(&mut fields, "used", used);
    put_text(&mut fields, "limit", limit);
    fields
}

/// The words `{lead}{used} / Limit: {limit}`.
fn usage_sentence(lead: &str, used: &str, limit: &str) -> (r: String)
    ensures
        r@ == lead@ + used@ + " / Limit: "@ + limit@,
{
    let mut s: String = concat(lead, used);
    s.append(" / Limit: ");
    s.append(limit);
    s
}

/// The refusal of a request for tokens.
pub open spec fn token_rejection(used: int, limit: int) -> RejectionView {
    RejectionView {
        message: "CC Switch token limit reached. Used: "@ + tokens_text(used) + " / Limit: "@
            + tokens_text(limit),
        detail: Json::Object(
            limit_fields("token"@, ""@, tokens_text(used), tokens_text(limit)),
        ),
    }
}

/// Refuses a request for tokens.
pub fn build_token_rejection(used: i64, limit: i64) -> (r: BudgetRejection)
    ensures
        r@ == token_rejection(used as int, limit as int),
{
    let used_display: String = format_tokens_for_message(used);
    let limit_display: String = format_tokens_for_message(limit);
    BudgetRejection {
        message: usage_sentence(
            "CC Switch token limit reached. Used: ",
            used_display.as_str(),
            limit_display.as_str(),
        ),
        detail: JsonValue::Object(
            limit_detail("token", "", used_display.as_str(), limit_display.as_str()),
        ),
    }
}

/// The refusal of a request for money. What is used is shown in US dollars, the
/// limit in its own currency.
pub open spec fn money_rejection(
    used_usd: Amount,
    limit_amount: Amount,
    currency: LimitCurrency,
) -> RejectionView {
    let used = money_text(used_usd, LimitCurrency::Usd);
    let limit = money_text(limit_amount, currency);
    RejectionView {
        message: "CC Switch usage limit reached. Used: "@ + used + " / Limit: "@ + limit,
        detail: Json::Object(limit_fields("money"@, currency.name(), used, limit)),
    }
}

/// Refuses a request for money.
pub fn build_money_rejection(
    used_usd: &Amount,
    limit_amount: &Amount,
    currency: LimitCurrency,
) -> (r: BudgetRejection)
    requires
        used_usd.wf(),
        limit_amount.wf(),
    ensures
        r@ == money_rejection(*used_usd, *limit_amount, currency),
{
    let used_display: String = format_money_for_message(used_usd, LimitCurrency::Usd);
    let limit_display: String = format_money_for_message(limit_amount, currency);
    BudgetRejection {
        message: usage_sentence(
            "CC Switch usage limit reached. Used: ",
            used_display.as_str(),
            limit_display.as_str(),
        ),
        detail: JsonValue::Object(
            limit_detail(
                "money",
                currency.as_str(),
                used_display.as_str(),
                limit_display.as_str(),
            ),
        ),
    }
}

/// What a limit and its usage were found to be.
#[derive(Debug)]
pub struct EvaluatedBudget {
    pub limit_type: LimitType,
    /// The currency of a money limit.
    pub currency: Option<LimitCurrency>,
    pub limit_display: String,
    pub used_display: String,
    /// The usage has reached the limit.
    pub exhausted: bool,
}

/// An [`EvaluatedBudget`] with its texts as sequences of characters.
pub struct EvaluatedView {
    pub limit_type: LimitType,
    pub currency: Option<LimitCurrency>,
    pub limit_display: Seq<char>,
    pub used_display: Seq<char>,
    pub exhausted: bool,
}

impl View for EvaluatedBudget {
    type V = EvaluatedView;

    open spec fn view(&self) -> EvaluatedView {
        EvaluatedView {
            limit_type: self.limit_type,
            currency: self.currency,
            limit_display: self.limit_display@,
            used_display: self.used_display@,
            exhausted: self.exhausted,
        }
    }
}

impl EvaluatedView {
    /// The refusal of a request of a provider on the ground of this finding.
    pub open spec fn rejection(self, provider_name: Seq<char>) -> RejectionView {
        let lead = match self.limit_type {
            LimitType::Money => "CC Switch usage limit reached. Provider: "@,
            LimitType::Token => "CC Switch token limit reached. Provider: "@,
        };
        let currency = match (self.limit_type, self.currency) {
            (LimitType::Token, _) => ""@,
            (LimitType::Money, Some(c)) => c.name(),
            (LimitType::Money, None) => "USD"@,
        };
        RejectionView {
            message: lead + provider_name + ". Used: "@ + self.used_display + " / Limit: "@
                + self.limit_display,
            detail: Json::Object(
                limit_fields(
                    self.limit_type.name(),
                    currency,
                    self.used_display,
                    self.limit_display,
                ).insert("provider"@, Json::Text(provider_name)),
            ),
        }
    }
}

impl EvaluatedBudget {
    pub fn build_rejection(&self, provider_name: &str) -> (r: BudgetRejection)
        ensures
            r@ == self@.rejection(provider_name@),
    {
        let lead: &str = match self.limit_type {
            LimitType::Money => "CC Switch usage limit reached. Provider: ",
            LimitType::Token => "CC Switch token limit reached. Provider: ",
        };
        let currency: &str = match self.limit_type {
            LimitType::Money => match self.currency {
                Some(c) => c.as_str(),
                None => "USD",
            },
            LimitType::Token => "",
        };
        let opening: String = concat(concat(lead, provider_name).as_str(), ". Used: ");
        let mut fields: Vec<Field> = limit_detail(
            self.limit_type.as_str(),
            currency,
            self.used_display.as_str(),
            self.limit_display.as_str(),
        );
        put_text(&mut fields, "provider", provider_name);
        BudgetRejection {
            message: usage_sentence(
                opening.as_str(),
                self.used_display.as_str(),
                self.limit_display.as_str(),
            ),
            detail: JsonValue::Object(fields),
        }
    }
}

/// A refusal for another reason than usage: only its code is given.
pub open spec fn coded_rejection(message: Seq<char>, code: Seq<char>) -> RejectionView {
    RejectionView { message, detail: Json::Object(map!["code"@ => Json::Text(code)]) }
}

/// A refusal because what is stored cannot be read or written.
pub open spec fn storage_rejection(lead: Seq<char>, cause: Seq<char>) -> RejectionView {
    coded_rejection(lead + cause, "BUDGET_STORAGE_ERROR"@)
}

/// A refusal because the stored limit makes no sense.
pub open spec fn config_rejection(lead: Seq<char>, stored: Seq<char>) -> RejectionView {
    coded_rejection(lead + stored, "INVALID_BUDGET_CONFIG"@)
}

pub(crate) fn reject_with_code(message: String, code: &str) -> (r: BudgetRejection)
    ensures
        r@ == coded_rejection(message@, code@),
{
    BudgetRejection { message, detail: singleton("code", JsonValue::Text(code.to_owned())) }
}

pub(crate) fn reject_storage(lead: &str, cause: &str) -> (r: BudgetRejection)
    ensures
        r@ == storage_rejection(lead@, cause@),
{
    reject_with_code(concat(lead, cause), "BUDGET_STORAGE_ERROR")
}

pub(crate) fn reject_config(lead: &str, stored: &str) -> (r: BudgetRejection)
    ensures
        r@ == config_rejection(lead@, stored@),
{
    reject_with_code(concat(lead, stored), "INVALID_BUDGET_CONFIG")
}

/// Grouping loses no digit: without the commas the digits are what they were.
pub proof fn law_grouping_keeps_digits(s: Seq<char>)
    requires
        !s.contains(','),
    ensures
        grouped(s).filter(|c: char| c != ',') == s,
    decreases s.len(),
{
    let keep = |c: char| c != ',';
    if s.len() <= 3 {
        lemma_filter_without_commas(s);
    } else {
        let head = s.take(s.len() - 3);
        let tail = s.skip(s.len() - 3);
        assert(!head.contains(',')) by {
            assert(forall|i: int| 0 <= i < head.len() ==> head[i] == s[i]);
        }
        assert(!tail.contains(',')) by {
            assert(forall|i: int| 0 <= i < tail.len() ==> tail[i] == s[i + s.len() - 3]);
        }
        law_grouping_keeps_digits(head);
        lemma_filter_without_commas(tail);
        reveal_strlit(",");
        assert(","@ =~= seq![',']);
        Seq::filter_distributes_over_add(grouped(head), ","@, keep);
        Seq::filter_distributes_over_add(grouped(head) + ","@, tail, keep);
        reveal_with_fuel(Seq::filter, 2);
        assert(seq![','].drop_last() =~= Seq::<char>::empty());
        assert(seq![','].filter(keep) =~= Seq::<char>::empty());
        assert(grouped(s).filter(keep) =~= head + tail);
        assert(head + tail =~= s);
    }
}

proof fn lemma_filter_without_commas(s: Seq<char>)
    requires
        !s.contains(','),
    ensures
        s.filter(|c: char| c != ',') == s,
    decreases s.len(),
{
    reveal(Seq::filter);
    if s.len() > 0 {
        let rest = s.drop_last();
        assert(forall|i: int| 0 <= i < rest.len() ==> rest[i] == s[i]);
        assert(!rest.contains(','));
        lemma_filter_without_commas(rest);
        assert(s.last() != ',');
        assert(rest.push(s.last()) =~= s);
    }
}

} // verus!
