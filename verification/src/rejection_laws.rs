//! What a refusal says, field by field and digit by digit.

use crate::decimal::{amount_text, normal_form, rounded_to, Amount};
use crate::json::Json;
use crate::limit::{LimitCurrency, LimitType};
use crate::rejection::{
    coded_rejection, config_rejection, grouped, money_rejection, money_text, storage_rejection,
    token_rejection, tokens_text, EvaluatedView, RejectionView,
};
use crate::text::digits;
use vstd::prelude::*;

verus! {

/// Whether the field `name` of an object holds a text.
pub open spec fn says(fields: Map<Seq<char>, Json>, name: Seq<char>, text: Seq<char>) -> bool {
    fields.contains_key(name) && fields[name] == Json::Text(text)
}

/// The fields of a refusal have seven names.
pub proof fn lemma_field_names()
    ensures
        "code"@ != "source"@,
        "code"@ != "limitType"@,
        "code"@ != "currency"@,
        "code"@ != "used"@,
        "code"@ != "limit"@,
        "code"@ != "provider"@,
        "source"@ != "limitType"@,
        "source"@ != "currency"@,
        "source"@ != "used"@,
        "source"@ != "limit"@,
        "source"@ != "provider"@,
        "limitType"@ != "currency"@,
        "limitType"@ != "used"@,
        "limitType"@ != "limit"@,
        "limitType"@ != "provider"@,
        "currency"@ != "used"@,
        "currency"@ != "limit"@,
        "currency"@ != "provider"@,
        "used"@ != "limit"@,
        "used"@ != "provider"@,
        "limit"@ != "provider"@,
{
    reveal_strlit("code");
    reveal_strlit("source");
    reveal_strlit("limitType");
    reveal_strlit("currency");
    reveal_strlit("used");
    reveal_strlit("limit");
    reveal_strlit("provider");
    assert("code"@[0] == 'c');
    assert("source"@[0] == 's');
    assert("limitType"@[0] == 'l');
    assert("currency"@[0] == 'c');
    assert("used"@[0] == 'u');
    assert("limit"@[0] == 'l');
    assert("provider"@[0] == 'p');
    assert("code"@.len() != "currency"@.len());
    assert("limit"@.len() != "limitType"@.len());
}

/// Whether a refusal shows the usage and the limit, in words and in fields.
pub open spec fn shows(
    refusal: RejectionView,
    lead: Seq<char>,
    kind: Seq<char>,
    currency: Seq<char>,
    used: Seq<char>,
    limit: Seq<char>,
) -> bool {
    &&& refusal.message == lead + used + " / Limit: "@ + limit
    &&& refusal.detail matches Json::Object(fields)
    &&& says(fields, "code"@, "API_KEY_LIMIT_REACHED"@)
    &&& says(fields, "source"@, "local"@)
    &&& says(fields, "limitType"@, kind)
    &&& says(fields, "currency"@, currency)
    &&& says(fields, "used"@, used)
    &&& says(fields, "limit"@, limit)
}

/// A refusal for tokens shows how many are used and how many are allowed, and names no
/// currency.
pub proof fn law_token_rejection_shows_both(used: int, limit: int)
    ensures
        shows(
            token_rejection(used, limit),
            "CC Switch token limit reached. Used: "@,
            "token"@,
            ""@,
            tokens_text(used),
            tokens_text(limit),
        ),
{
    lemma_field_names();
}

/// A refusal for money shows what is used in US dollars and what is allowed in the
/// currency of the limit, which it names.
pub proof fn law_money_rejection_shows_both(used_usd: Amount, limit: Amount)
    ensures
        shows(
            money_rejection(used_usd, limit, LimitCurrency::Usd),
            "CC Switch usage limit reached. Used: "@,
            "money"@,
            "USD"@,
            money_text(used_usd, LimitCurrency::Usd),
            money_text(limit, LimitCurrency::Usd),
        ),
        shows(
            money_rejection(used_usd, limit, LimitCurrency::Cny),
            "CC Switch usage limit reached. Used: "@,
            "money"@,
            "CNY"@,
            money_text(used_usd, LimitCurrency::Usd),
            money_text(limit, LimitCurrency::Cny),
        ),
{
    lemma_field_names();
}

/// A refusal for another reason says its message and its code, and nothing else.
pub proof fn law_coded_rejection_says_its_code(
    message: Seq<char>,
    code: Seq<char>,
    name: Seq<char>,
)
    ensures
        coded_rejection(message, code).message == message,
        coded_rejection(message, code).detail matches Json::Object(fields) && says(
            fields,
            "code"@,
            code,
        ) && (fields.contains_key(name) ==> name == "code"@),
{
}

/// Money is shown behind the sign of its currency, rounded to two places, without
/// trailing zeros.
pub proof fn law_money_is_shown_in_its_currency(amount: Amount)
    ensures
        money_text(amount, LimitCurrency::Usd) == "$"@ + amount_text(
            normal_form(rounded_to(amount, 2)),
        ),
        money_text(amount, LimitCurrency::Cny) == "¥"@ + amount_text(
            normal_form(rounded_to(amount, 2)),
        ),
{
}

/// A comma stands before every third digit from the right and nowhere else, neither at
/// the front.
pub proof fn law_commas_stand_in_threes(s: Seq<char>, i: int)
    requires
        !s.contains(','),
        0 <= i < grouped(s).len(),
    ensures
        grouped(s)[i] == ',' <==> (grouped(s).len() - i) % 4 == 0,
        s.len() > 0 ==> grouped(s)[0] != ',',
    decreases s.len(),
{
    reveal_strlit(",");
    if s.len() > 3 {
        let head = s.take(s.len() - 3);
        let tail = s.skip(s.len() - 3);
        let n = grouped(head).len() as int;
        assert(forall|k: int| 0 <= k < head.len() ==> head[k] == s[k]);
        assert(!head.contains(','));
        lemma_grouped_is_longer(head);
        law_commas_stand_in_threes(head, 0);
        if i < n {
            law_commas_stand_in_threes(head, i);
            assert(grouped(s)[i] == grouped(head)[i]);
            assert(grouped(s).len() == n + 4);
        } else if i > n {
            assert(grouped(s)[i] == tail[i - n - 1]);
            assert(tail[i - n - 1] == s[s.len() - 3 + i - n - 1]);
        }
    } else {
        assert(grouped(s)[i] == s[i]);
        assert(grouped(s)[0] == s[0]);
    }
}

proof fn lemma_grouped_is_longer(s: Seq<char>)
    ensures
        grouped(s).len() >= s.len(),
    decreases s.len(),
{
    reveal_strlit(",");
    if s.len() > 3 {
        lemma_grouped_is_longer(s.take(s.len() - 3));
    }
}

/// A number of tokens is shown as its digits, grouped; a negative one behind a minus
/// sign.
pub proof fn law_tokens_are_shown_in_groups(n: nat)
    ensures
        tokens_text(n as int) == grouped(digits(n)),
        n > 0 ==> tokens_text(-(n as int)) == "-"@ + grouped(digits(n)),
{
}

/// The refusal on the ground of a finding names the provider, and shows the usage and the
/// limit as they were found; a money limit without a currency passes for one in dollars,
/// and a token limit names no currency.
pub proof fn law_finding_is_shown_as_found(found: EvaluatedView, provider_name: Seq<char>)
    ensures
        ({
            let refusal = found.rejection(provider_name);
            let lead = if found.limit_type == LimitType::Token {
                "CC Switch token limit reached. Provider: "@
            } else {
                "CC Switch usage limit reached. Provider: "@
            };
            let kind = if found.limit_type == LimitType::Token {
                "token"@
            } else {
                "money"@
            };
            let currency = if found.limit_type == LimitType::Token {
                ""@
            } else if found.currency == Some(LimitCurrency::Cny) {
                "CNY"@
            } else {
                "USD"@
            };
            &&& shows(
                refusal,
                lead + provider_name + ". Used: "@,
                kind,
                currency,
                found.used_display,
                found.limit_display,
            )
            &&& refusal.detail matches Json::Object(fields)
            &&& says(fields, "provider"@, provider_name)
        }),
{
    lemma_field_names();
}

/// What cannot be read or written and what makes no sense is told apart by its code.
pub proof fn law_codes_tell_the_cause_apart(lead: Seq<char>, cause: Seq<char>)
    ensures
        storage_rejection(lead, cause).message == lead + cause,
        storage_rejection(lead, cause).detail matches Json::Object(fields) && says(
            fields,
            "code"@,
            "BUDGET_STORAGE_ERROR"@,
        ),
        config_rejection(lead, cause).message == lead + cause,
        config_rejection(lead, cause).detail matches Json::Object(fields) && says(
            fields,
            "code"@,
            "INVALID_BUDGET_CONFIG"@,
        ),
{
}

} // verus!
