//! Tests for the streaming-event vocabulary: field assembly, per-item
//! parsing through real JSON documents, and batch handling.

use exc_core::binance::service::Binance;
use exc_core::okx::ws::{
    ticker_from_fields, ticker_from_value, tickers_from_items, Action, Args, Change, OkxError,
};
use exc_core::types::Decimal;

fn s(text: &str) -> Option<String> {
    Some(text.to_string())
}

#[test]
fn fields_assemble_into_a_ticker() {
    let t = ticker_from_fields(s("BTC-USD"), s("1597026383085"), s("9999.9"), s("0.1")).unwrap();
    assert_eq!(t.inst_id, "BTC-USD");
    assert_eq!(t.ts, 1597026383085);
    assert_eq!(t.last, Decimal { mantissa: 99999, scale: 1 });
    assert_eq!(t.size, Decimal { mantissa: 1, scale: 1 });
}

#[test]
fn each_missing_field_fails_assembly() {
    assert!(ticker_from_fields(None, s("1"), s("1"), s("1")).is_err());
    assert!(ticker_from_fields(s("X"), None, s("1"), s("1")).is_err());
    assert!(ticker_from_fields(s("X"), s("1"), None, s("1")).is_err());
    assert!(ticker_from_fields(s("X"), s("1"), s("1"), None).is_err());
}

#[test]
fn malformed_numbers_fail_assembly() {
    assert!(matches!(
        ticker_from_fields(s("X"), s("12h5"), s("1"), s("1")),
        Err(OkxError::Json(_))
    ));
    assert!(matches!(
        ticker_from_fields(s("X"), s("1"), s("1.2.3"), s("1")),
        Err(OkxError::Json(_))
    ));
}

#[test]
fn ticker_from_value_reads_a_real_document() {
    let v: serde_json::Value = serde_json::from_str(
        r#"{"instId":"ETH-USD","ts":"42","last":"3.50","lastSz":"2"}"#,
    )
    .unwrap();
    let t = ticker_from_value(&v).unwrap();
    assert_eq!(t.inst_id, "ETH-USD");
    assert_eq!(t.ts, 42);
    assert_eq!(t.last, Decimal { mantissa: 350, scale: 2 });
    assert_eq!(t.size, Decimal { mantissa: 2, scale: 0 });
}

#[test]
fn ticker_from_value_refuses_a_non_object() {
    let v: serde_json::Value = serde_json::from_str("[1,2]").unwrap();
    assert!(ticker_from_value(&v).is_err());
}

#[test]
fn deserialize_data_keeps_one_result_per_item() {
    let good: serde_json::Value = serde_json::from_str(
        r#"{"instId":"A","ts":"1","last":"2","lastSz":"3"}"#,
    )
    .unwrap();
    let bad: serde_json::Value = serde_json::from_str("7").unwrap();
    let change = Change {
        arg: Args { channel: "tickers".to_string(), inst_id: "A".to_string() },
        action: Action::default(),
        data: vec![good, bad],
    };
    let items = change.deserialize_data();
    assert_eq!(items.len(), 2);
    assert!(items[0].is_ok());
    assert!(items[1].is_err());
}

#[test]
fn usd_margin_futures_names_its_host() {
    let ep = Binance::usd_margin_futures();
    assert_eq!(ep.host, "https://fapi.binance.com");
}

#[test]
fn batch_translation_maps_each_item_in_order() {
    let msg = |n: i64| exc_core::okx::ws::OkxTicker {
        inst_id: "A".to_string(),
        ts: n,
        last: Decimal { mantissa: n, scale: 0 },
        size: Decimal { mantissa: 1, scale: 0 },
    };
    let items = vec![Ok(msg(1)), Err(OkxError::Json("broken".to_string())), Ok(msg(2))];
    let out = tickers_from_items(items);
    assert_eq!(out.len(), 3);
    assert_eq!(out[0].as_ref().unwrap().ts, 1);
    assert!(out[0].as_ref().unwrap().buy.is_none());
    assert!(matches!(&out[1], Err(OkxError::Json(m)) if m == "broken"));
    assert_eq!(out[2].as_ref().unwrap().ts, 2);
}
