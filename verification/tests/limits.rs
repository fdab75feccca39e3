use usage_limit::app_error::AppError;
use usage_limit::decimal::Amount;
use usage_limit::ledger::Database;
use usage_limit::limit::{
    parse_exchange_rate, validate_limit_amount, validate_reset_interval_seconds,
    EnforcementSupport, LimitCurrency, LimitType,
};
use usage_limit::rejection::{
    build_money_rejection, build_token_rejection, format_money_for_message,
    format_tokens_for_message,
};

fn input_text<T: std::fmt::Debug>(r: Result<T, AppError>) -> String {
    match r {
        Err(AppError::InvalidInput(s)) => s,
        other => panic!("unexpected: {:?}", other),
    }
}

fn money(raw: &str) -> Result<String, AppError> {
    validate_limit_amount(LimitType::Money, raw)
}

fn tokens(raw: &str) -> Result<String, AppError> {
    validate_limit_amount(LimitType::Token, raw)
}

#[test]
fn names_parse_back() {
    for t in vec![LimitType::Money, LimitType::Token] {
        assert_eq!(LimitType::parse(t.as_str()), Some(t));
    }
    for c in vec![LimitCurrency::Usd, LimitCurrency::Cny] {
        assert_eq!(LimitCurrency::parse(c.as_str()), Some(c));
    }
    assert_eq!(LimitType::parse("Money"), None);
    assert_eq!(LimitCurrency::parse("usd"), None);
    assert_eq!(LimitCurrency::Usd.symbol(), "$");
    assert_eq!(LimitCurrency::Cny.symbol(), "¥");
    assert_eq!(EnforcementSupport::Active.as_str(), "active");
    assert_eq!(EnforcementSupport::ProxyDisabled.as_str(), "proxy_disabled");
    assert_eq!(EnforcementSupport::UnsupportedCredential.as_str(), "unsupported_credential");
}

#[test]
fn money_amounts_become_canonical() {
    assert_eq!(money("100.00").unwrap(), "100");
    assert_eq!(money(" 0.10 ").unwrap(), "0.1");
    assert_eq!(money("12.5").unwrap(), money("12.500").unwrap());
    assert_eq!(money("7").unwrap(), "7");
    assert_eq!(money("1E2").unwrap(), "100");
    assert_eq!(money(&money("3.1400").unwrap()).unwrap(), "3.14");
}

#[test]
fn money_amounts_must_be_positive_numbers() {
    assert_eq!(input_text(money("  ")), "限额金额不能为空");
    assert_eq!(input_text(money(" abc ")), "限额金额格式无效: abc");
    assert_eq!(input_text(money("0.00")), "限额金额必须大于 0");
    assert_eq!(input_text(money("-1")), "限额金额必须大于 0");
}

#[test]
fn token_amounts_are_plain_positive_integers() {
    assert_eq!(tokens(" 1000 ").unwrap(), "1000");
    assert_eq!(tokens("007").unwrap(), "7");
    assert_eq!(tokens("18446744073709551615").unwrap(), "18446744073709551615");
    assert_eq!(input_text(tokens("18446744073709551616")), "限额 Token 数超出可表示范围");
    assert_eq!(input_text(tokens("")), "限额 Token 数不能为空");
    assert_eq!(input_text(tokens("0")), "限额 Token 数必须大于 0");
    for raw in vec!["1.5", "-1", "+1", "1 000", "1e3", "１"] {
        assert_eq!(input_text(tokens(raw)), "限额 Token 数必须是正整数");
    }
}

#[test]
fn intervals_are_whole_hours() {
    assert_eq!(validate_reset_interval_seconds(None).unwrap(), None);
    assert_eq!(validate_reset_interval_seconds(Some(3600)).unwrap(), Some(3600));
    assert_eq!(validate_reset_interval_seconds(Some(86400)).unwrap(), Some(86400));
    for seconds in vec![0, -3600, 3599, 3601, 5400] {
        assert_eq!(
            input_text(validate_reset_interval_seconds(Some(seconds))),
            "自动重置周期必须是至少 1 小时的整小时数"
        );
    }
}

#[test]
fn the_rate_falls_back_to_its_default() {
    let default = Amount { mantissa: 72, scale: 1 };
    assert_eq!(parse_exchange_rate(None).unwrap(), default);
    for raw in vec!["", "  ", "abc", "0", "-7"] {
        assert_eq!(parse_exchange_rate(Some(raw)).unwrap(), default);
    }
    assert_eq!(parse_exchange_rate(Some(" 6.90 ")).unwrap(), Amount { mantissa: 690, scale: 2 });
}

#[test]
fn a_rate_that_is_set_is_read_back() {
    let rate = Amount { mantissa: 710, scale: 2 };
    let text = Database::set_usd_cny_exchange_rate(rate).unwrap();
    assert_eq!(text, "7.10");
    assert_eq!(Database::get_usd_cny_exchange_rate(Ok(Some(text))).unwrap(), rate);
    let highest = Amount { mantissa: 1_000_000, scale: 0 };
    assert_eq!(Database::set_usd_cny_exchange_rate(highest).unwrap(), "1000000");
    match Database::get_usd_cny_exchange_rate(Err(AppError::Database("locked".to_string()))) {
        Err(AppError::Database(s)) => assert_eq!(s, "locked"),
        other => panic!("unexpected: {:?}", other),
    }
}

#[test]
fn a_rate_lies_between_zero_and_a_million() {
    let set = |mantissa: i128, scale: u32| {
        input_text(Database::set_usd_cny_exchange_rate(Amount { mantissa, scale }))
    };
    assert_eq!(set(0, 2), "USD → CNY 汇率必须大于 0");
    assert_eq!(set(-72, 1), "USD → CNY 汇率必须大于 0");
    assert_eq!(set(10_000_001, 1), "USD → CNY 汇率数值异常，请检查输入");
}

#[test]
fn tokens_are_shown_in_groups() {
    assert_eq!(format_tokens_for_message(0), "0");
    assert_eq!(format_tokens_for_message(999), "999");
    assert_eq!(format_tokens_for_message(1000), "1,000");
    assert_eq!(format_tokens_for_message(-1234567), "-1,234,567");
    assert_eq!(format_tokens_for_message(i64::MIN), "-9,223,372,036,854,775,808");
}

#[test]
fn money_is_shown_to_the_cent() {
    let show = |mantissa: i128, scale: u32, c: LimitCurrency| {
        format_money_for_message(&Amount { mantissa, scale }, c)
    };
    assert_eq!(show(1000, 2, LimitCurrency::Usd), "$10");
    assert_eq!(show(1050, 2, LimitCurrency::Cny), "¥10.5");
    assert_eq!(show(1005, 3, LimitCurrency::Usd), "$1");
    assert_eq!(show(1015, 3, LimitCurrency::Usd), "$1.02");
    assert_eq!(show(-12345, 3, LimitCurrency::Usd), "$-12.34");
}

#[test]
fn rejections_name_use_and_limit() {
    let tokens = build_token_rejection(1500, 1000);
    assert_eq!(tokens.message, "CC Switch token limit reached. Used: 1,500 / Limit: 1,000");
    let money = build_money_rejection(
        &Amount { mantissa: 105, scale: 1 },
        &Amount { mantissa: 72, scale: 0 },
        LimitCurrency::Cny,
    );
    assert_eq!(money.message, "CC Switch usage limit reached. Used: $10.5 / Limit: ¥72");
}
