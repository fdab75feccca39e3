//! How errors are answered, and which responses of an upstream count as a hard limit.

use crate::json::{json_reprint, Json};
use crate::proxy_error::{
    body_text, category, debug_format, has_budget_signal, is_upstream_budget_limit, plain_text,
    upstream_detail, ErrorCategory, ProxyError, TransportError,
};
use crate::rejection_laws::says;
use crate::text::{contains_text, digits, occurs_at, text_of};
use vstd::prelude::*;

verus! {

/// Whether a response body is an error object that says a message and a kind, and
/// nothing else.
pub open spec fn answers(body: Json, message: Seq<char>, kind: Seq<char>) -> bool {
    &&& body matches Json::Object(outer)
    &&& outer.contains_key("error"@)
    &&& outer["error"@] matches Json::Object(fields)
    &&& says(fields, "message"@, message)
    &&& says(fields, "type"@, kind)
    &&& forall|name: Seq<char>| #[trigger]
        fields.contains_key(name) ==> name == "message"@ || name == "type"@
}

proof fn lemma_message_and_type()
    ensures
        "message"@ != "type"@,
{
    reveal_strlit("message");
    reveal_strlit("type");
    assert("message"@.len() != "type"@.len());
}

/// An error of the proxy itself is answered with its own message as a proxy error; a
/// failure inside never passes for a fault of the client, nor the other way round.
pub proof fn law_own_errors_are_answered(error: ProxyError)
    requires
        !(error is UpstreamError),
        !(error is BudgetExhausted),
        !(error is UpstreamBudgetExhausted),
    ensures
        answers(error.response_body(), error.text(), "proxy_error"@),
        400 <= error.http_status() <= 499 <==> (error is AlreadyRunning || error is ConfigError
            || error is InvalidRequest || error is TransformError || error is AuthError),
        error.http_status() == 400 <==> error is ConfigError || error is InvalidRequest,
        error.http_status() == 401 <==> error is AuthError,
        error.http_status() == 409 <==> error is AlreadyRunning,
        error.http_status() == 422 <==> error is TransformError,
        error.http_status() == 500 <==> error is BindFailed || error is StopTimeout || error
            is StopFailed || error is DatabaseError || error is Internal,
        error.http_status() == 502 <==> error is ForwardFailed || error is ResponseBodyTooLarge,
        error.http_status() == 503 <==> error is NotRunning || error is NoAvailableProvider || error
            is AllProvidersCircuitOpen || error is NoProvidersConfigured || error
            is ProviderUnhealthy || error is MaxRetriesExceeded,
        error.http_status() == 504 <==> error is Timeout || error is StreamIdleTimeout,
{
    lemma_message_and_type();
}

/// What went wrong is passed on word for word behind a lead that tells the kind.
pub proof fn law_messages_keep_the_cause(s: String, n: usize, seconds: u64)
    ensures
        ProxyError::BindFailed(s).text() == "地址绑定失败: "@ + s@,
        ProxyError::StopFailed(s).text() == "停止失败: "@ + s@,
        ProxyError::ForwardFailed(s).text() == "请求转发失败: "@ + s@,
        ProxyError::ProviderUnhealthy(s).text() == "Provider不健康: "@ + s@,
        ProxyError::DatabaseError(s).text() == "数据库错误: "@ + s@,
        ProxyError::ConfigError(s).text() == "配置错误: "@ + s@,
        ProxyError::TransformError(s).text() == "格式转换错误: "@ + s@,
        ProxyError::InvalidRequest(s).text() == "无效的请求: "@ + s@,
        ProxyError::Timeout(s).text() == "超时: "@ + s@,
        ProxyError::AuthError(s).text() == "认证失败: "@ + s@,
        ProxyError::Internal(s).text() == "内部错误: "@ + s@,
        ProxyError::ResponseBodyTooLarge(n).text() == "上游响应体超过大小上限: "@ + digits(
            n as nat,
        ) + " 字节"@,
        ProxyError::StreamIdleTimeout(seconds).text() == "流式响应空闲超时: "@ + digits(
            seconds as nat,
        ) + "秒无数据"@,
{
}

/// An error of an upstream is answered with the status of the upstream, as long as it is
/// an HTTP status, and with 502 otherwise. A body that is JSON is passed on, any other
/// one becomes the message, and without a body the message names the status.
pub proof fn law_upstream_errors_are_passed_on(status: u16, body: String)
    ensures
        100 <= status <= 999 ==> (ProxyError::UpstreamError {
            status,
            body: Some(body),
        }).http_status() == status && (ProxyError::UpstreamError {
            status,
            body: None,
        }).http_status() == status,
        status < 100 || status > 999 ==> (ProxyError::UpstreamError {
            status,
            body: Some(body),
        }).http_status() == 502 && (ProxyError::UpstreamError { status, body: None }).http_status()
            == 502,
        json_reprint(body@) matches Some(document) ==> (ProxyError::UpstreamError {
            status,
            body: Some(body),
        }).response_body() == Json::Raw(document),
        json_reprint(body@) is None ==> answers(
            (ProxyError::UpstreamError { status, body: Some(body) }).response_body(),
            body@,
            "upstream_error"@,
        ),
        answers(
            (ProxyError::UpstreamError { status, body: None }).response_body(),
            "Upstream error (status "@ + digits(status as nat) + ")"@,
            "upstream_error"@,
        ),
{
    lemma_message_and_type();
}

/// A response is a hard limit whatever its body says with status 402, only with a word
/// for it in the body with 403 and 429, and never with another status.
pub proof fn law_hard_limits_by_status(status: u16, body: Seq<char>)
    ensures
        status == 402 ==> is_upstream_budget_limit(status, body),
        status == 403 || status == 429 ==> is_upstream_budget_limit(status, body)
            == has_budget_signal(body),
        status != 402 && status != 403 && status != 429 ==> !is_upstream_budget_limit(status, body),
{
}

/// Whether two texts are the same but for the case of Latin letters and for hyphens and
/// underscores in place of spaces.
pub open spec fn reads_like(written: Seq<char>, word: Seq<char>) -> bool {
    &&& written.len() == word.len()
    &&& forall|i: int|
        #![trigger written[i]]
        #![trigger word[i]]
        0 <= i < word.len() ==> {
            ||| written[i] == word[i]
            ||| 'a' <= word[i] <= 'z' && written[i] as int + 32 == word[i] as int
            ||| word[i] == ' ' && (written[i] == '_' || written[i] == '-')
        }
}

/// Whether a word is one of those for a used-up quota or budget.
pub open spec fn is_budget_word(word: Seq<char>) -> bool {
    ||| word == "quota"@
    ||| word == "insufficient credits"@
    ||| word == "billing"@
    ||| word == "usage limit"@
    ||| word == "monthly limit"@
    ||| word == "spend limit"@
    ||| word == "credit limit"@
    ||| word == "limit reached"@
}

/// Every character of a word is a small Latin letter or a space.
pub open spec fn is_plain_word(word: Seq<char>) -> bool {
    forall|i: int| 0 <= i < word.len() ==> 'a' <= #[trigger] word[i] <= 'z' || word[i] == ' '
}

proof fn lemma_budget_words_are_plain(word: Seq<char>)
    requires
        is_budget_word(word),
    ensures
        is_plain_word(word),
{
    reveal_strlit("quota");
    reveal_strlit("insufficient credits");
    reveal_strlit("billing");
    reveal_strlit("usage limit");
    reveal_strlit("monthly limit");
    reveal_strlit("spend limit");
    reveal_strlit("credit limit");
    reveal_strlit("limit reached");
}

/// A body with one of the words for a used-up quota or budget anywhere in it, in
/// whatever case and with hyphens or underscores for spaces, is a signal.
pub proof fn law_budget_words_are_signals(
    before: Seq<char>,
    written: Seq<char>,
    after: Seq<char>,
    word: Seq<char>,
)
    requires
        is_budget_word(word),
        reads_like(written, word),
    ensures
        has_budget_signal(before + written + after),
{
    lemma_budget_words_are_plain(word);
    let body = before + written + after;
    let s = plain_text(body);
    let n = before.len() as int;
    assert forall|i: int| 0 <= i < word.len() implies #[trigger] s.subrange(n, n + word.len())[i]
        == word[i] by {
        assert(body[n + i] == written[i]);
        assert('a' <= word[i] <= 'z' || word[i] == ' ');
    }
    assert(s.subrange(n, n + word.len()) =~= word);
    assert(occurs_at(s, word, n));
    assert(contains_text(s, word));
}

/// A body that is a signal holds one of the words for a used-up quota or budget,
/// written in that way.
pub proof fn law_signals_hold_a_budget_word(body: Seq<char>) -> (r: (int, Seq<char>))
    requires
        has_budget_signal(body),
    ensures
        is_budget_word(r.1),
        0 <= r.0 <= r.0 + r.1.len() <= body.len(),
        reads_like(body.subrange(r.0, r.0 + r.1.len()), r.1),
{
    let s = plain_text(body);
    let word = if contains_text(s, "quota"@) {
        "quota"@
    } else if contains_text(s, "insufficient credits"@) {
        "insufficient credits"@
    } else if contains_text(s, "billing"@) {
        "billing"@
    } else if contains_text(s, "usage limit"@) {
        "usage limit"@
    } else if contains_text(s, "monthly limit"@) {
        "monthly limit"@
    } else if contains_text(s, "spend limit"@) {
        "spend limit"@
    } else if contains_text(s, "credit limit"@) {
        "credit limit"@
    } else {
        "limit reached"@
    };
    lemma_longer_words(s);
    let i = choose|i: int| occurs_at(s, word, i);
    assert(contains_text(s, word));
    assert(occurs_at(s, word, i));
    let found = body.subrange(i, i + word.len());
    let shown = s.subrange(i, i + word.len());
    assert forall|k: int|
        #![trigger found[k]]
        #![trigger word[k]]
        0 <= k < word.len() implies ({
        ||| found[k] == word[k]
        ||| 'a' <= word[k] <= 'z' && found[k] as int + 32 == word[k] as int
        ||| word[k] == ' ' && (found[k] == '_' || found[k] == '-')
    }) by {
        assert(shown[k] == word[k]);
        assert(shown[k] == s[i + k]);
        assert(found[k] == body[i + k]);
    }
    (i, word)
}

proof fn lemma_longer_word(s: Seq<char>, long: Seq<char>, word: Seq<char>, at: int)
    requires
        0 <= at <= at + word.len() <= long.len(),
        long.subrange(at, at + word.len()) =~= word,
    ensures
        contains_text(s, long) ==> contains_text(s, word),
{
    if contains_text(s, long) {
        let i = choose|i: int| occurs_at(s, long, i);
        let found = s.subrange(i, i + long.len());
        assert(found == long);
        assert(s.subrange(i + at, i + at + word.len()) =~= word) by {
            assert(forall|k: int|
                0 <= k < word.len() ==> word[k] == long[at + k] && found[at + k] == s[i + at + k]);
        }
        assert(occurs_at(s, word, i + at));
    }
}

proof fn lemma_longer_words(s: Seq<char>)
    ensures
        contains_text(s, "insufficient quota"@) ==> contains_text(s, "quota"@),
        contains_text(s, "quota exceeded"@) ==> contains_text(s, "quota"@),
        contains_text(s, "api key limit reached"@) ==> contains_text(s, "limit reached"@),
        contains_text(s, "cc switch usage limit"@) ==> contains_text(s, "usage limit"@),
{
    reveal_strlit("quota");
    reveal_strlit("usage limit");
    reveal_strlit("limit reached");
    reveal_strlit("insufficient quota");
    reveal_strlit("quota exceeded");
    reveal_strlit("api key limit reached");
    reveal_strlit("cc switch usage limit");
    lemma_longer_word(s, "insufficient quota"@, "quota"@, 13);
    lemma_longer_word(s, "quota exceeded"@, "quota"@, 0);
    lemma_longer_word(s, "api key limit reached"@, "limit reached"@, 8);
    lemma_longer_word(s, "cc switch usage limit"@, "usage limit"@, 10);
}

/// What is handed on of a hard limit is its code, that it came from the upstream, and
/// whether the body speaks of a budget: nothing of the body itself.
pub proof fn law_upstream_detail_is_sanitized(signal: bool, name: Seq<char>)
    ensures
        upstream_detail(signal) matches Json::Object(fields) && says(
            fields,
            "code"@,
            "UPSTREAM_API_KEY_LIMIT_REACHED"@,
        ) && says(fields, "source"@, "upstream"@) && fields.contains_key("budget_signal"@)
            && fields["budget_signal"@] == Json::Bool(signal) && (fields.contains_key(name) ==> name
            == "code"@ || name == "source"@ || name == "budget_signal"@),
{
    reveal_strlit("code");
    reveal_strlit("source");
    reveal_strlit("budget_signal");
    assert("code"@.len() != "source"@.len());
    assert("code"@.len() != "budget_signal"@.len());
    assert("source"@.len() != "budget_signal"@.len());
}

/// A failed request is tried again unless a response with a status of the client came
/// back: a timeout, a failed connection, an error of the server and a missing response
/// all leave it open.
pub proof fn law_only_client_errors_end_a_request(error: TransportError)
    ensures
        error.is_timeout ==> category(error) == ErrorCategory::Retryable,
        error.is_connect ==> category(error) == ErrorCategory::Retryable,
        error.status is None ==> category(error) == ErrorCategory::Retryable,
        error.status matches Some(s) ==> (s < 400 || s >= 500 ==> category(error)
            == ErrorCategory::Retryable) && (400 <= s < 500 && !error.is_timeout
            && !error.is_connect ==> category(error) == ErrorCategory::NonRetryable),
{
}

/// The messages that name no cause, and those of errors that hold one of their own.
pub proof fn law_fixed_messages(error: ProxyError)
    ensures
        match error {
            ProxyError::AlreadyRunning => error.text() == "服务器已在运行"@,
            ProxyError::NotRunning => error.text() == "服务器未运行"@,
            ProxyError::StopTimeout => error.text() == "停止超时"@,
            ProxyError::NoAvailableProvider => error.text() == "无可用的Provider"@,
            ProxyError::AllProvidersCircuitOpen => error.text() == "所有供应商已熔断，无可用渠道"@,
            ProxyError::NoProvidersConfigured => error.text() == "未配置供应商"@,
            ProxyError::MaxRetriesExceeded => error.text() == "超过最大重试次数"@,
            ProxyError::BudgetExhausted { message, detail } => error.text() == message@,
            ProxyError::UpstreamBudgetExhausted { .. } => error.text() == "上游使用限额已达到"@,
            ProxyError::UpstreamError { status, body } => error.text() == "上游错误 (状态码 "@ + digits(
                status as nat,
            ) + "): "@ + debug_format(text_of(body)),
            _ => true,
        },
{
}

/// A refusal on the ground of a budget says its message where its detail says none: that
/// of this proxy its own, that of an upstream a fixed one that holds nothing of the body.
pub proof fn law_budget_errors_say_their_message(error: ProxyError)
    requires
        match error {
            ProxyError::BudgetExhausted { message, detail } => detail@ matches Json::Object(fields)
                && !fields.contains_key("message"@),
            ProxyError::UpstreamBudgetExhausted { status, detail } => detail@ matches Json::Object(
                fields,
            ) && !fields.contains_key("message"@),
            _ => false,
        },
    ensures
        error.response_body() matches Json::Object(outer) && outer.contains_key("error"@) && (
        outer["error"@] matches Json::Object(fields) && match error {
            ProxyError::BudgetExhausted { message, detail } => says(
                fields,
                "message"@,
                message@,
            ),
            _ => says(fields, "message"@, "Blocked by upstream usage limit"@),
        }),
{
    lemma_message_and_type();
    reveal_strlit("message");
    reveal_strlit("upstream_status");
    assert("message"@.len() != "upstream_status"@.len());
}

/// A response without a body is searched as an empty one.
pub proof fn law_missing_body_is_empty(body: &str)
    ensures
        body_text(None) == Seq::<char>::empty(),
        body_text(Some(body)) == body@,
{
}

} // verus!
