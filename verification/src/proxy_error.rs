//! The errors of the proxy, the responses they turn into, and how errors of an
//! upstream are told apart.

use crate::json::{
    json_reprint, object_view, put, put_all, put_text, reprint, singleton, Field, Json,
    JsonValue,
};
use crate::text::{
    chars_of, concat, contains_text, decimal_text, digits, has_text, occurs_at, text_of,
};
use vstd::prelude::*;
use vstd::string::*;

verus! {

#[derive(Debug)]
pub enum ProxyError {
    /// The body of an upstream response is larger than allowed, in bytes.
    ResponseBodyTooLarge(usize),
    AlreadyRunning,
    NotRunning,
    BindFailed(String),
    StopTimeout,
    StopFailed(String),
    ForwardFailed(String),
    NoAvailableProvider,
    AllProvidersCircuitOpen,
    NoProvidersConfigured,
    ProviderUnhealthy(String),
    /// The upstream answered with an error.
    UpstreamError { status: u16, body: Option<String> },
    MaxRetriesExceeded,
    DatabaseError(String),
    ConfigError(String),
    TransformError(String),
    InvalidRequest(String),
    Timeout(String),
    /// A stream brought no data for this many seconds.
    StreamIdleTimeout(u64),
    AuthError(String),
    /// The usage limit of an API key is reached; nothing was forwarded.
    BudgetExhausted { message: String, detail: JsonValue },
    /// The upstream reports a hard quota or billing limit. This ends the
    /// request: another provider is not tried.
    UpstreamBudgetExhausted { status: u16, detail: JsonValue },
    Internal(String),
}

/// How `{:?}` shows an optional text.
pub uninterp spec fn debug_format(text: Option<Seq<char>>) -> Seq<char>;

/// Shows an optional text with the `Debug` formatting of the standard library.
///
/// Believed: the outcome depends on the text alone. How characters are escaped
/// is not said.
#[verifier::external_body]
fn debug_text(text: &Option<String>) -> (r: String)
    ensures
        r@ == debug_format(text_of(*text)),
{
    format!("{:?}", text)
}

impl ProxyError {
    /// The message of the error.
    pub open spec fn text(self) -> Seq<char> {
        match self {
            ProxyError::ResponseBodyTooLarge(n) => "上游响应体超过大小上限: "@ + digits(n as nat)
                + " 字节"@,
            ProxyError::AlreadyRunning => "服务器已在运行"@,
            ProxyError::NotRunning => "服务器未运行"@,
            ProxyError::BindFailed(s) => "地址绑定失败: "@ + s@,
            ProxyError::StopTimeout => "停止超时"@,
            ProxyError::StopFailed(s) => "停止失败: "@ + s@,
            ProxyError::ForwardFailed(s) => "请求转发失败: "@ + s@,
            ProxyError::NoAvailableProvider => "无可用的Provider"@,
            ProxyError::AllProvidersCircuitOpen => "所有供应商已熔断，无可用渠道"@,
            ProxyError::NoProvidersConfigured => "未配置供应商"@,
            ProxyError::ProviderUnhealthy(s) => "Provider不健康: "@ + s@,
            ProxyError::UpstreamError { status, body } => "上游错误 (状态码 "@ + digits(
                status as nat,
            ) + "): "@ + debug_format(text_of(body)),
            ProxyError::MaxRetriesExceeded => "超过最大重试次数"@,
            ProxyError::DatabaseError(s) => "数据库错误: "@ + s@,
            ProxyError::ConfigError(s) => "配置错误: "@ + s@,
            ProxyError::TransformError(s) => "格式转换错误: "@ + s@,
            ProxyError::InvalidRequest(s) => "无效的请求: "@ + s@,
            ProxyError::Timeout(s) => "超时: "@ + s@,
            ProxyError::StreamIdleTimeout(n) => "流式响应空闲超时: "@ + digits(n as nat)
                + "秒无数据"@,
            ProxyError::AuthError(s) => "认证失败: "@ + s@,
            ProxyError::BudgetExhausted { message, detail } => message@,
            ProxyError::UpstreamBudgetExhausted { status, detail } => "上游使用限额已达到"@,
            ProxyError::Internal(s) => "内部错误: "@ + s@,
        }
    }

    /// The HTTP status that the error is answered with.
    pub open spec fn http_status(self) -> u16 {
        match self {
            ProxyError::UpstreamError { status, body } => if 100 <= status <= 999 {
                status
            } else {
                502
            },
            ProxyError::BudgetExhausted { .. } => 429,
            ProxyError::UpstreamBudgetExhausted { .. } => 429,
            ProxyError::AlreadyRunning => 409,
            ProxyError::NotRunning => 503,
            ProxyError::BindFailed(_) => 500,
            ProxyError::StopTimeout => 500,
            ProxyError::StopFailed(_) => 500,
            ProxyError::ForwardFailed(_) => 502,
            ProxyError::NoAvailableProvider => 503,
            ProxyError::AllProvidersCircuitOpen => 503,
            ProxyError::NoProvidersConfigured => 503,
            ProxyError::ProviderUnhealthy(_) => 503,
            ProxyError::MaxRetriesExceeded => 503,
            ProxyError::DatabaseError(_) => 500,
            ProxyError::ConfigError(_) => 400,
            ProxyError::TransformError(_) => 422,
            ProxyError::InvalidRequest(_) => 400,
            ProxyError::Timeout(_) => 504,
            ProxyError::StreamIdleTimeout(_) => 504,
            ProxyError::AuthError(_) => 401,
            ProxyError::Internal(_) => 500,
            ProxyError::ResponseBodyTooLarge(_) => 502,
        }
    }

    /// The body that the error is answered with.
    pub open spec fn response_body(self) -> Json {
        match self {
            ProxyError::UpstreamError { status, body } => match body {
                Some(text) => match json_reprint(text@) {
                    Some(document) => Json::Raw(document),
                    None => error_body(error_fields(text@, "upstream_error"@)),
                },
                None => error_body(
                    error_fields(
                        "Upstream error (status "@ + digits(status as nat) + ")"@,
                        "upstream_error"@,
                    ),
                ),
            },
            ProxyError::BudgetExhausted { message, detail } => error_body(
                error_fields(message@, "cc_switch_usage_limit"@).union_prefer_right(
                    fields_of(detail@),
                ),
            ),
            ProxyError::UpstreamBudgetExhausted { status, detail } => error_body(
                error_fields(
                    "Blocked by upstream usage limit"@,
                    "upstream_usage_limit_reached"@,
                ).union_prefer_right(fields_of(detail@)).insert(
                    "upstream_status"@,
                    Json::Integer(status as int),
                ),
            ),
            _ => error_body(error_fields(self.text(), "proxy_error"@)),
        }
    }
}

/// The two fields that every error object has.
pub open spec fn error_fields(message: Seq<char>, kind: Seq<char>) -> Map<Seq<char>, Json> {
    map!["message"@ => Json::Text(message), "type"@ => Json::Text(kind)]
}

pub open spec fn error_body(fields: Map<Seq<char>, Json>) -> Json {
    Json::Object(map!["error"@ => Json::Object(fields)])
}

/// The fields of an object; none where the document is no object.
pub open spec fn fields_of(document: Json) -> Map<Seq<char>, Json> {
    match document {
        Json::Object(fields) => fields,
        _ => Map::empty(),
    }
}

/// An HTTP response: its status and its JSON body.
#[derive(Debug)]
pub struct ErrorResponse {
    pub status: u16,
    pub body: JsonValue,
}

fn common_fields(message: &str, kind: &str) -> (r: Vec<Field>)
    ensures
        object_view(r@) == error_fields(message@, kind@),
{
    let mut fields: Vec<Field> = Vec::new();
    put_text(&mut fields, "message", message);
    put_text(&mut fields, "type", kind);
    fields
}

fn wrap_fields(fields: Vec<Field>) -> (r: JsonValue)
    ensures
        r@ == error_body(object_view(fields@)),
{
    singleton("error", JsonValue::Object(fields))
}

fn add_detail(fields: &mut Vec<Field>, detail: JsonValue)
    ensures
        object_view(final(fields)@) == object_view(old(fields)@).union_prefer_right(
            fields_of(detail@),
        ),
{
    match detail {
        JsonValue::Object(more) => put_all(fields, more),
        _ => {
            assert(object_view(old(fields)@).union_prefer_right(Map::empty()) =~= object_view(
                old(fields)@,
            ));
        },
    }
}

fn around(lead: &str, n: u64, tail: &str) -> (r: String)
    ensures
        r@ == lead@ + digits(n as nat) + tail@,
{
    concat(concat(lead, decimal_text(n).as_str()).as_str(), tail)
}

impl ProxyError {
    /// The message of the error.
    pub fn message(&self) -> (r: String)
        ensures
            r@ == self.text(),
    {
        match self {
            ProxyError::ResponseBodyTooLarge(n) => around(
                "上游响应体超过大小上限: ",
                *n as u64,
                " 字节",
            ),
            ProxyError::AlreadyRunning => "服务器已在运行".to_owned(),
            ProxyError::NotRunning => "服务器未运行".to_owned(),
            ProxyError::BindFailed(s) => concat("地址绑定失败: ", s.as_str()),
            ProxyError::StopTimeout => "停止超时".to_owned(),
            ProxyError::StopFailed(s) => concat("停止失败: ", s.as_str()),
            ProxyError::ForwardFailed(s) => concat("请求转发失败: ", s.as_str()),
            ProxyError::NoAvailableProvider => "无可用的Provider".to_owned(),
            ProxyError::AllProvidersCircuitOpen => "所有供应商已熔断，无可用渠道".to_owned(),
            ProxyError::NoProvidersConfigured => "未配置供应商".to_owned(),
            ProxyError::ProviderUnhealthy(s) => concat("Provider不健康: ", s.as_str()),
            ProxyError::UpstreamError { status, body } => concat(
                around("上游错误 (状态码 ", *status as u64, "): ").as_str(),
                debug_text(body).as_str(),
            ),
            ProxyError::MaxRetriesExceeded => "超过最大重试次数".to_owned(),
            ProxyError::DatabaseError(s) => concat("数据库错误: ", s.as_str()),
            ProxyError::ConfigError(s) => concat("配置错误: ", s.as_str()),
            ProxyError::TransformError(s) => concat("格式转换错误: ", s.as_str()),
            ProxyError::InvalidRequest(s) => concat("无效的请求: ", s.as_str()),
            ProxyError::Timeout(s) => concat("超时: ", s.as_str()),
            ProxyError::StreamIdleTimeout(n) => around("流式响应空闲超时: ", *n, "秒无数据"),
            ProxyError::AuthError(s) => concat("认证失败: ", s.as_str()),
            ProxyError::BudgetExhausted { message, detail } => message.clone(),
            ProxyError::UpstreamBudgetExhausted { status, detail } => "上游使用限额已达到".to_owned(),
            ProxyError::Internal(s) => concat("内部错误: ", s.as_str()),
        }
    }

    /// The response to a client that ran into the error. The fields of a budget
    /// error's detail go into the error object, over the common ones; a JSON body
    /// of an upstream is passed on.
    pub fn into_response(self) -> (r: ErrorResponse)
        ensures
            r.status == self.http_status(),
            r.body@ == self.response_body(),
    {
        match self {
            ProxyError::UpstreamError { status, body } => {
                let answered: u16 = if 100 <= status && status <= 999 {
                    status
                } else {
                    502
                };
                let document: JsonValue = match &body {
                    Some(text) => match reprint(text.as_str()) {
                        Some(json) => JsonValue::Raw(json),
                        None => wrap_fields(common_fields(text.as_str(), "upstream_error")),
                    },
                    None => wrap_fields(
                        common_fields(
                            around("Upstream error (status ", status as u64, ")").as_str(),
                            "upstream_error",
                        ),
                    ),
                };
                ErrorResponse { status: answered, body: document }
            },
            ProxyError::BudgetExhausted { message, detail } => {
                let mut fields: Vec<Field> = common_fields(
                    message.as_str(),
                    "cc_switch_usage_limit",
                );
                add_detail(&mut fields, detail);
                ErrorResponse { status: 429, body: wrap_fields(fields) }
            },
            ProxyError::UpstreamBudgetExhausted { status, detail } => {
                let mut fields: Vec<Field> = common_fields(
                    "Blocked by upstream usage limit",
                    "upstream_usage_limit_reached",
                );
                add_detail(&mut fields, detail);
                put(&mut fields, "upstream_status", JsonValue::Integer(status as i64));
                ErrorResponse { status: 429, body: wrap_fields(fields) }
            },
            other => {
                let status: u16 = match &other {
                    ProxyError::AlreadyRunning => 409,
                    ProxyError::NotRunning => 503,
                    ProxyError::BindFailed(_) => 500,
                    ProxyError::StopTimeout => 500,
                    ProxyError::StopFailed(_) => 500,
                    ProxyError::ForwardFailed(_) => 502,
                    ProxyError::NoAvailableProvider => 503,
                    ProxyError::AllProvidersCircuitOpen => 503,
                    ProxyError::NoProvidersConfigured => 503,
                    ProxyError::ProviderUnhealthy(_) => 503,
                    ProxyError::MaxRetriesExceeded => 503,
                    ProxyError::DatabaseError(_) => 500,
                    ProxyError::ConfigError(_) => 400,
                    ProxyError::TransformError(_) => 422,
                    ProxyError::InvalidRequest(_) => 400,
                    ProxyError::Timeout(_) => 504,
                    ProxyError::StreamIdleTimeout(_) => 504,
                    ProxyError::AuthError(_) => 401,
                    ProxyError::ResponseBodyTooLarge(_) => 502,
                    _ => 500,
                };
                let text: String = other.message();
                ErrorResponse {
                    status,
                    body: wrap_fields(common_fields(text.as_str(), "proxy_error")),
                }
            },
        }
    }
}

/// Whether a request that failed can be tried again.
#[derive(Clone, Copy, Debug, PartialEq, Eq, Structural)]
pub enum ErrorCategory {
    /// A network problem or an error of the server.
    Retryable,
    /// A refused credential or another error of the client.
    NonRetryable,
    /// The client broke off.
    ClientAbort,
}

/// What is known of a failed HTTP request.
#[derive(Clone, Copy, Debug)]
pub struct TransportError {
    pub is_timeout: bool,
    pub is_connect: bool,
    /// The status of the response, where there was one.
    pub status: Option<u16>,
}

/// Whether a failed request can be tried again.
pub open spec fn category(error: TransportError) -> ErrorCategory {
    match error.status {
        Some(status) if 400 <= status <= 499 && !error.is_timeout && !error.is_connect => {
            ErrorCategory::NonRetryable
        },
        _ => ErrorCategory::Retryable,
    }
}

/// Decides whether a failed request can be tried again: only where a client
/// error came back and it was neither a timeout nor a failed connection is it not.
pub fn categorize_error(error: &TransportError) -> (r: ErrorCategory)
    ensures
        r == (if !error.is_timeout && !error.is_connect && (error.status matches Some(s) && 400 <= s
            <= 499) {
            ErrorCategory::NonRetryable
        } else {
            ErrorCategory::Retryable
        }),
        r == category(*error),
{
    if error.is_timeout || error.is_connect {
        return ErrorCategory::Retryable;
    }
    match error.status {
        Some(status) => {
            if 400 <= status && status <= 499 {
                ErrorCategory::NonRetryable
            } else {
                ErrorCategory::Retryable
            }
        },
        None => ErrorCategory::Retryable,
    }
}

/// A character as the search for quota words sees it: in lower case, and a space
/// for `_` and `-`.
pub open spec fn plain_char(c: char) -> char {
    if 'A' <= c <= 'Z' {
        (c as int + 32) as char
    } else if c == '_' || c == '-' {
        ' '
    } else {
        c
    }
}

pub open spec fn plain_text(s: Seq<char>) -> Seq<char> {
    Seq::new(s.len(), |i: int| plain_char(s[i]))
}

/// Whether a response speaks of a used-up quota or budget.
pub open spec fn has_budget_signal(body: Seq<char>) -> bool {
    let s = plain_text(body);
    ||| contains_text(s, "quota"@)
    ||| contains_text(s, "insufficient credits"@)
    ||| contains_text(s, "insufficient quota"@)
    ||| contains_text(s, "billing"@)
    ||| contains_text(s, "usage limit"@)
    ||| contains_text(s, "monthly limit"@)
    ||| contains_text(s, "spend limit"@)
    ||| contains_text(s, "credit limit"@)
    ||| contains_text(s, "limit reached"@)
    ||| contains_text(s, "api key limit reached"@)
    ||| contains_text(s, "cc switch usage limit"@)
    ||| contains_text(s, "quota exceeded"@)
}

/// Whether a response is a hard quota or billing limit: status 402 always, 403
/// and 429 where the body says so. An ordinary rate limit is none.
pub open spec fn is_upstream_budget_limit(status: u16, body: Seq<char>) -> bool {
    status == 402 || ((status == 403 || status == 429) && has_budget_signal(body))
}

fn plain_char_of(c: char) -> (r: char)
    ensures
        r == plain_char(c),
{
    if 'A' <= c && c <= 'Z' {
        ((c as u8) + 32) as char
    } else if c == '_' || c == '-' {
        ' '
    } else {
        c
    }
}

fn budget_signal(body: &str) -> (r: bool)
    ensures
        r == has_budget_signal(body@),
{
    let raw: Vec<char> = chars_of(body);
    let mut s: Vec<char> = Vec::new();
    let mut i: usize = 0;
    while i < raw.len()
        invariant
            i <= raw@.len(),
            raw@ == body@,
            s@ == plain_text(body@).take(i as int),
        decreases raw@.len() - i,
    {
        s.push(plain_char_of(raw[i]));
        assert(s@ =~= plain_text(body@).take(i + 1));
        i = i + 1;
    }
    assert(s@ =~= plain_text(body@));
    has_text(&s, "quota") || has_text(&s, "insufficient credits") || has_text(
        &s,
        "insufficient quota",
    ) || has_text(&s, "billing") || has_text(&s, "usage limit") || has_text(&s, "monthly limit")
        || has_text(&s, "spend limit") || has_text(&s, "credit limit") || has_text(
        &s,
        "limit reached",
    ) || has_text(&s, "api key limit reached") || has_text(&s, "cc switch usage limit")
        || has_text(&s, "quota exceeded")
}

/// What is handed on of a hard limit: nothing of the body but whether it speaks
/// of a budget.
pub open spec fn upstream_detail(budget_signal: bool) -> Json {
    Json::Object(
        map![
            "code"@ => Json::Text("UPSTREAM_API_KEY_LIMIT_REACHED"@),
            "source"@ => Json::Text("upstream"@),
            "budget_signal"@ => Json::Bool(budget_signal)
        ],
    )
}

pub open spec fn body_text(body: Option<&str>) -> Seq<char> {
    match body {
        Some(s) => s@,
        None => Seq::empty(),
    }
}

/// Detects a hard quota or billing limit of an upstream. What is handed on
/// holds nothing of the body.
pub fn upstream_budget_detail(status: u16, body: Option<&str>) -> (r: Option<JsonValue>)
    ensures
        r is Some <==> is_upstream_budget_limit(status, body_text(body)),
        r matches Some(detail) ==> detail@ == upstream_detail(has_budget_signal(body_text(body))),
{
    let text: &str = match body {
        Some(s) => s,
        None => "",
    };
    proof {
        reveal_strlit("");
        assert(""@ =~= Seq::<char>::empty());
    }
    let signal: bool = budget_signal(text);
    let hard_status: bool = status == 402 || (status == 403 && signal);
    if !(hard_status || (status == 429 && signal)) {
        return None;
    }
    let mut fields: Vec<Field> = Vec::new();
    put_text(&mut fields, "code", "UPSTREAM_API_KEY_LIMIT_REACHED");
    put_text(&mut fields, "source", "upstream");
    put(&mut fields, "budget_signal", JsonValue::Bool(signal));
    Some(JsonValue::Object(fields))
}

/// A refusal on the ground of a budget, of this proxy or of an upstream, is
/// answered with status 429 and with its own kind of error, as long as its detail
/// names no kind; the detail's fields stand in the error object.
pub proof fn law_budget_errors_are_answered_429(error: ProxyError, key: Seq<char>)
    requires
        match error {
            ProxyError::BudgetExhausted { message, detail } => !fields_of(detail@).contains_key(
                "type"@,
            ) && fields_of(detail@).contains_key(key),
            ProxyError::UpstreamBudgetExhausted { status, detail } => !fields_of(
                detail@,
            ).contains_key("type"@) && fields_of(detail@).contains_key(key) && key
                != "upstream_status"@,
            _ => false,
        },
    ensures
        error.http_status() == 429,
        error.response_body() matches Json::Object(body) && body["error"@] matches Json::Object(
            fields,
        ) && match error {
            ProxyError::BudgetExhausted { message, detail } => fields["type"@] == Json::Text(
                "cc_switch_usage_limit"@,
            ) && fields[key] == fields_of(detail@)[key],
            ProxyError::UpstreamBudgetExhausted { status, detail } => fields["type"@] == Json::Text(
                "upstream_usage_limit_reached"@,
            ) && fields[key] == fields_of(detail@)[key] && fields["upstream_status"@]
                == Json::Integer(status as int),
            _ => false,
        },
{
    reveal_strlit("type");
    reveal_strlit("upstream_status");
    assert("type"@.len() != "upstream_status"@.len());
}

proof fn lemma_plain_text_keeps_words(s: Seq<char>, word: Seq<char>)
    requires
        contains_text(s, word),
    ensures
        contains_text(plain_text(s), plain_text(word)),
{
    let i = choose|i: int| occurs_at(s, word, i);
    let found = s.subrange(i, i + word.len());
    assert(found == word);
    assert(forall|j: int| 0 <= j < word.len() ==> word[j] == s[i + j]) by {
        assert(forall|j: int| 0 <= j < word.len() ==> found[j] == s[i + j]);
    }
    assert(plain_text(s).subrange(i, i + word.len()) =~= plain_text(word));
    assert(occurs_at(plain_text(s), plain_text(word), i));
}

/// A refusal of one proxy is known as such by the next one: a response with
/// status 429 whose body holds the kind of a refusal, or its code, is a hard limit.
pub proof fn law_refusals_are_known_downstream(body: Seq<char>)
    requires
        contains_text(body, "cc_switch_usage_limit"@) || contains_text(
            body,
            "API_KEY_LIMIT_REACHED"@,
        ),
    ensures
        is_upstream_budget_limit(429, body),
{
    reveal_strlit("cc_switch_usage_limit");
    reveal_strlit("cc switch usage limit");
    reveal_strlit("API_KEY_LIMIT_REACHED");
    reveal_strlit("api key limit reached");
    assert(plain_text("cc_switch_usage_limit"@) =~= "cc switch usage limit"@);
    assert(plain_text("API_KEY_LIMIT_REACHED"@) =~= "api key limit reached"@);
    if contains_text(body, "cc_switch_usage_limit"@) {
        lemma_plain_text_keeps_words(body, "cc_switch_usage_limit"@);
    } else {
        lemma_plain_text_keeps_words(body, "API_KEY_LIMIT_REACHED"@);
    }
}

} // verus!
