use binance_cli::commands::market::MarketCommand;
use binance_cli::commands::trade::{plan_order, Side};
use binance_cli::text::{decimal_text, joined, same_text, signed_text};
use binance_cli::output::is_blank;
use binance_cli::numbers::{server_time_addendum, DecimalValue};

#[test]
fn decimal_texts() {
    assert_eq!(decimal_text(0), "0");
    assert_eq!(decimal_text(7), "7");
    assert_eq!(decimal_text(10), "10");
    assert_eq!(decimal_text(1872651), "1872651");
    assert_eq!(decimal_text(u64::MAX), u64::MAX.to_string());
    assert_eq!(signed_text(-5), "-5");
    assert_eq!(signed_text(i64::MIN), i64::MIN.to_string());
    assert_eq!(signed_text(i64::MAX), i64::MAX.to_string());
}

#[test]
fn text_helpers() {
    assert!(same_text("LIMIT", "LIMIT"));
    assert!(!same_text("LIMIT", "LIMITS"));
    assert!(!same_text("limit", "LIMIT"));
    assert_eq!(joined("ab", "cd"), "abcd");
    let title = |s: &str| MarketCommand::Price { symbol: s.to_string() }.plan().unwrap().title;
    assert_eq!(title("btcUsdt"), "Price — BTCUSDT");
    assert_eq!(title("straße"), "Price — STRASSE");
}

fn quantity_of(q: &str) -> Option<DecimalValue> {
    plan_order("btcusdt", Side::Buy, "MARKET", &None, q, &None).ok().map(|o| o.quantity)
}

#[test]
fn decimals_parse_into_parts() {
    assert_eq!(quantity_of("0.005"), Some(DecimalValue { mantissa: 5, scale: 3, negative: false }));
    assert_eq!(quantity_of("76500"), Some(DecimalValue { mantissa: 76500, scale: 0, negative: false }));
    assert_eq!(quantity_of("-1.50"), Some(DecimalValue { mantissa: -150, scale: 2, negative: true }));
    assert_eq!(quantity_of("abc"), None);
    assert_eq!(quantity_of(""), None);
}

#[test]
fn server_time_text() {
    assert_eq!(server_time_addendum(Some(0)), "1970-01-01 00:00:00 UTC (0)");
    assert_eq!(server_time_addendum(None), "1970-01-01 00:00:00 UTC (0)");
    assert_eq!(
        server_time_addendum(Some(1_700_000_000_000)),
        "2023-11-14 22:13:20 UTC (1700000000000)"
    );
    assert_eq!(
        server_time_addendum(Some(u64::MAX)),
        format!("1969-12-31 23:59:59 UTC ({})", u64::MAX)
    );
}

#[test]
fn blank_output() {
    use_blank();
}

fn use_blank() {
    assert!(is_blank("", true, false));
    assert!(!is_blank("Label", true, false));
    assert!(!is_blank("", false, false));
    assert!(!is_blank("", true, true));
}
