use wallet_balances::{
    aggregate, interpret_reply, plan_fetches, request_body, request_with_quoted, BalanceResult,
    Config, ConfigError, ConfigField, FetchError, FetchOutcome, ParseCause, RpcError, RpcResponse,
    WalletBalance, BASE_UNITS_PER_WHOLE,
};

fn s(x: &str) -> String {
    x.to_string()
}

fn config(url: &str, wallets: &[&str]) -> Config {
    Config::from_fields(&s("config.yaml"), Some(s(url)), Some(wallets.iter().map(|w| s(w)).collect()))
        .unwrap()
}

fn reply(result: Option<u64>, error: Option<(i64, &str)>) -> RpcResponse {
    RpcResponse {
        jsonrpc: s("2.0"),
        id: 1,
        result: result.map(|value| BalanceResult { value, slot: 7 }),
        error: error.map(|(code, message)| RpcError { code, message: s(message) }),
    }
}

fn balance(address: &str, base_units: u64) -> WalletBalance {
    WalletBalance { address: s(address), base_units }
}

#[test]
fn request_body_encodes_address() {
    assert_eq!(
        request_body("Abc123"),
        s(r#"{"jsonrpc":"2.0","id":1,"method":"getBalance","params":["Abc123"]}"#)
    );
}

#[test]
fn request_body_escapes_quotes_and_backslashes() {
    assert_eq!(
        request_body("a\"b\\c"),
        s(r#"{"jsonrpc":"2.0","id":1,"method":"getBalance","params":["a\"b\\c"]}"#)
    );
}

#[test]
fn request_with_quoted_wraps_parameter() {
    assert_eq!(
        request_with_quoted("\"x\""),
        s(r#"{"jsonrpc":"2.0","id":1,"method":"getBalance","params":["x"]}"#)
    );
}

#[test]
fn reply_with_result_is_a_balance() {
    let r = interpret_reply(&s("W1"), Ok(reply(Some(2_500_000_000), None)));
    assert_eq!(r, Ok(balance("W1", 2_500_000_000)));
}

#[test]
fn reply_with_error_is_rejected() {
    let r = interpret_reply(&s("W1"), Ok(reply(None, Some((-32602, "Invalid param")))));
    assert_eq!(
        r,
        Err(FetchError::RpcRejected { address: s("W1"), code: -32602, message: s("Invalid param") })
    );
}

#[test]
fn reply_with_error_and_result_is_rejected() {
    let r = interpret_reply(&s("W1"), Ok(reply(Some(5), Some((-1, "bad")))));
    assert_eq!(r, Err(FetchError::RpcRejected { address: s("W1"), code: -1, message: s("bad") }));
}

#[test]
fn reply_without_result_or_error_is_a_failure() {
    let r = interpret_reply(&s("W9"), Ok(reply(None, None)));
    assert_eq!(r, Err(FetchError::EmptyResult { address: s("W9") }));
    assert_eq!(r.unwrap_err().address(), "W9");
}

#[test]
fn unreadable_reply_is_a_transport_failure() {
    let r = interpret_reply(&s("W2"), Err(s("expected value at line 1 column 1")));
    assert_eq!(
        r,
        Err(FetchError::Transport { address: s("W2"), cause: s("expected value at line 1 column 1") })
    );
}

#[test]
fn base_units_split_into_whole_and_fraction() {
    assert_eq!(BASE_UNITS_PER_WHOLE, 1_000_000_000);
    let cases: [(u64, u64, u64); 4] = [
        (0, 0, 0),
        (1, 0, 1),
        (1_000_000_000, 1, 0),
        (18_446_744_073_709_551_615, 18_446_744_073, 709_551_615),
    ];
    for (raw, whole, frac) in cases {
        let b = balance("W", raw);
        assert_eq!(b.whole_units(), whole);
        assert_eq!(b.fractional_base_units(), frac);
    }
}

#[test]
fn whole_and_fractional_units_give_the_float_amount() {
    let whole = |raw: u64| {
        let b = balance("W", raw);
        b.whole_units() as f64 + b.fractional_base_units() as f64 / BASE_UNITS_PER_WHOLE as f64
    };
    assert_eq!(whole(0), 0.0);
    assert_eq!(whole(1), 1e-9);
    assert_eq!(whole(1_000_000_000), 1.0);
    assert!((whole(u64::MAX) - 18_446_744_073.709_551_615).abs() < 1e-5);
}

#[test]
fn config_without_wallets_is_a_parse_error() {
    let r = Config::from_fields(&s("config.yaml"), Some(s("http://localhost:8899")), None);
    assert_eq!(
        r,
        Err(ConfigError::ParseError {
            path: s("config.yaml"),
            cause: ParseCause::MissingField(ConfigField::Wallets),
        })
    );
}

#[test]
fn config_without_endpoint_is_a_parse_error() {
    let r = Config::from_fields(&s("c.yaml"), None, None);
    assert_eq!(
        r,
        Err(ConfigError::ParseError {
            path: s("c.yaml"),
            cause: ParseCause::MissingField(ConfigField::RpcUrl),
        })
    );
}

#[test]
fn config_with_empty_endpoint_is_a_parse_error() {
    let r = Config::from_fields(&s("c.yaml"), Some(s("")), Some(vec![s("W1")]));
    assert_eq!(r, Err(ConfigError::ParseError { path: s("c.yaml"), cause: ParseCause::EmptyEndpoint }));
}

#[test]
fn config_with_both_fields_is_accepted() {
    let c = config("http://localhost:8899", &["W1", "W2"]);
    assert_eq!(c.rpc_url, "http://localhost:8899");
    assert_eq!(c.wallets, vec![s("W1"), s("W2")]);
    assert_eq!(c.wallet_count(), 2);
}

#[test]
fn plan_has_one_request_per_address_in_order() {
    let c = config("http://rpc", &["W1", "W2", "W1"]);
    let plan = plan_fetches(&c);
    assert_eq!(plan.len(), 3);
    for (req, w) in plan.iter().zip(["W1", "W2", "W1"]) {
        assert_eq!(req.endpoint, "http://rpc");
        assert_eq!(req.address, w);
        assert_eq!(req.body, request_body(w));
    }
}

#[test]
fn plan_for_no_addresses_is_empty() {
    let c = config("http://rpc", &[]);
    assert!(plan_fetches(&c).is_empty());
    let report = aggregate(&Vec::new());
    assert!(report.balances.is_empty());
    assert!(report.failures.is_empty());
}

fn mixed_outcomes() -> Vec<FetchOutcome> {
    vec![
        FetchOutcome::Balance(balance("W1", 10)),
        FetchOutcome::FetchFailed(FetchError::Transport { address: s("W2"), cause: s("bad json") }),
        FetchOutcome::Balance(balance("W3", 30)),
        FetchOutcome::TaskFailed { cause: s("task panicked") },
        FetchOutcome::FetchFailed(FetchError::EmptyResult { address: s("W5") }),
    ]
}

#[test]
fn failures_do_not_hide_successes() {
    let report = aggregate(&mixed_outcomes());
    assert_eq!(report.balances, vec![balance("W1", 10), balance("W3", 30)]);
    assert_eq!(report.failures, vec![1, 3, 4]);
}

#[test]
fn report_is_the_same_for_the_same_outcomes() {
    assert_eq!(aggregate(&mixed_outcomes()), aggregate(&mixed_outcomes()));
}

#[test]
fn all_failures_give_an_empty_list() {
    let outcomes = vec![
        FetchOutcome::TaskFailed { cause: s("x") },
        FetchOutcome::FetchFailed(FetchError::RpcRejected {
            address: s("W2"),
            code: 1,
            message: s("no"),
        }),
    ];
    let report = aggregate(&outcomes);
    assert!(report.balances.is_empty());
    assert_eq!(report.failures, vec![0, 1]);
}
