use binance_cli::errors::{BinanceError, ConnectorFailure};

fn all_errors() -> Vec<BinanceError> {
    vec![
        BinanceError::Api { code: -1121, message: "Invalid symbol.".to_string() },
        BinanceError::Auth("a".to_string()),
        BinanceError::Network("n".to_string()),
        BinanceError::Validation("v".to_string()),
        BinanceError::RateLimit("r".to_string()),
        BinanceError::Config("c".to_string()),
        BinanceError::Io("i".to_string()),
        BinanceError::Parse("p".to_string()),
        BinanceError::WebSocket("w".to_string()),
        BinanceError::Internal("x".to_string()),
    ]
}

#[test]
fn categories_are_stable() {
    let cats: Vec<&str> = all_errors().iter().map(|e| e.category()).collect();
    assert_eq!(
        cats,
        vec!["api", "auth", "network", "validation", "rate_limit", "config", "io", "parse", "websocket", "internal"]
    );
}

#[test]
fn retryable_exactly_for_network_rate_limit_websocket() {
    for e in all_errors() {
        let expected = matches!(e.category(), "network" | "rate_limit" | "websocket");
        assert_eq!(e.retryable(), expected, "{:?}", e);
    }
}

#[test]
fn display_texts() {
    let e = BinanceError::Api { code: -1121, message: "Invalid symbol.".to_string() };
    assert_eq!(e.to_text(), "API error (-1121): Invalid symbol.");
    assert_eq!(BinanceError::Auth("bad key".to_string()).to_text(), "Authentication failed: bad key");
    assert_eq!(BinanceError::RateLimit("slow".to_string()).to_text(), "Rate limited: slow");
    assert_eq!(BinanceError::Io("disk".to_string()).to_text(), "I/O error: disk");
    assert_eq!(BinanceError::WebSocket("x".to_string()).to_text(), "WebSocket error: x");
    let big = BinanceError::Api { code: i64::MIN, message: String::new() };
    assert_eq!(big.to_text(), format!("API error ({}): ", i64::MIN));
    let zero = BinanceError::Api { code: 0, message: "m".to_string() };
    assert_eq!(zero.to_text(), "API error (0): m");
}

#[test]
fn json_envelope_fields() {
    let e = BinanceError::Network("timeout".to_string());
    let env = e.to_json_envelope();
    assert!(env.error);
    assert_eq!(env.error_type, "network");
    assert_eq!(env.message, "Network error: timeout");
    assert!(env.retryable);
    let v = BinanceError::Validation("x".to_string()).to_json_envelope();
    assert_eq!(v.error_type, "validation");
    assert!(!v.retryable);
}

#[test]
fn structured_rate_limit_by_code_or_status() {
    let f = ConnectorFailure::Structured { status_code: 418, code: -1003, message: "Too many".to_string() };
    assert_eq!(BinanceError::from_connector(f), BinanceError::RateLimit("Too many".to_string()));
    let f = ConnectorFailure::Structured { status_code: 429, code: -1000, message: "m".to_string() };
    let e = BinanceError::from_connector(f);
    assert_eq!(e, BinanceError::RateLimit("m".to_string()));
    assert!(e.retryable());
}

#[test]
fn structured_auth_and_api() {
    let f = ConnectorFailure::Structured { status_code: 401, code: -2015, message: "Invalid API-key".to_string() };
    assert_eq!(BinanceError::from_connector(f), BinanceError::Auth("Invalid API-key".to_string()));
    let f = ConnectorFailure::Structured { status_code: 400, code: -1121, message: "Invalid symbol.".to_string() };
    assert_eq!(
        BinanceError::from_connector(f),
        BinanceError::Api { code: -1121, message: "Invalid symbol.".to_string() }
    );
}

#[test]
fn raw_failures() {
    let f = ConnectorFailure::Raw { status_code: 429, data: "slow".to_string() };
    assert_eq!(BinanceError::from_connector(f), BinanceError::RateLimit("slow".to_string()));
    let f = ConnectorFailure::Raw { status_code: 403, data: "waf".to_string() };
    assert_eq!(BinanceError::from_connector(f), BinanceError::Auth("waf".to_string()));
    let f = ConnectorFailure::Raw { status_code: 404, data: "nf".to_string() };
    assert_eq!(BinanceError::from_connector(f), BinanceError::Api { code: -404, message: "nf".to_string() });
}

#[test]
fn server_and_transport_failures() {
    let f = ConnectorFailure::Server { status_code: 503, data: "busy".to_string() };
    let e = BinanceError::from_connector(f);
    assert_eq!(e, BinanceError::Network("Server error (503): busy".to_string()));
    assert!(e.retryable());
    assert_eq!(
        BinanceError::from_connector(ConnectorFailure::InvalidApiSecret),
        BinanceError::Auth("Invalid API secret".to_string())
    );
    assert_eq!(
        BinanceError::from_connector(ConnectorFailure::Parse("bad uri".to_string())),
        BinanceError::Parse("bad uri".to_string())
    );
    assert_eq!(
        BinanceError::from_connector(ConnectorFailure::Send("reset".to_string())),
        BinanceError::Network("reset".to_string())
    );
}

#[test]
fn clone_keeps_the_error() {
    for e in all_errors() {
        assert_eq!(e.clone(), e);
    }
}
