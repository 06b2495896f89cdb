//! Tests for the deterministic error classification at both transport
//! boundaries, and for the error-vocabulary helpers.

use exc_core::binance::response::{
    decode_body, Data, ExchangeInfo, RestError, RestResponse,
};
use exc_core::error::ExchangeError;
use exc_core::okx::http::{FullHttpResponse, HttpResponse, ResponseData};
use exc_core::okx::ws::{Action, CodeMessage, OkxError};
use exc_core::types::InstrumentMeta;

fn envelope(code: &str, msg: &str) -> FullHttpResponse {
    FullHttpResponse {
        code: code.to_string(),
        msg: msg.to_string(),
        data: vec![ResponseData::Placeholder],
    }
}

#[test]
fn okx_code_zero_extracts_payload() {
    let r = HttpResponse::try_from(envelope("0", "")).unwrap();
    assert_eq!(r.data.len(), 1);
    assert!(matches!(r.data[0], ResponseData::Placeholder));
}

#[test]
fn okx_code_51001_is_instrument_not_found() {
    let e = HttpResponse::try_from(envelope("51001", "whatever")).unwrap_err();
    assert!(matches!(e, ExchangeError::InstrumentNotFound));
}

#[test]
fn okx_code_50011_is_rate_limited_with_message() {
    let e = HttpResponse::try_from(envelope("50011", "limit")).unwrap_err();
    assert!(matches!(e, ExchangeError::RateLimited(m) if m == "limit"));
}

#[test]
fn okx_code_50013_is_unavailable() {
    let e = HttpResponse::try_from(envelope("50013", "down")).unwrap_err();
    assert!(matches!(e, ExchangeError::Unavailable(m) if m == "down"));
}

#[test]
fn okx_other_code_is_api_error() {
    let e = HttpResponse::try_from(envelope("60001", "oops")).unwrap_err();
    assert!(matches!(e, ExchangeError::Api { code, msg } if code == "60001" && msg == "oops"));
}

#[test]
fn binance_status_429_is_rate_limited() {
    let value = Ok(serde_json::Value::Null);
    let e = RestResponse::from_parts(429, value).unwrap_err();
    assert!(matches!(
        e,
        RestError::Exchange(ExchangeError::RateLimited(m)) if m == "too many requests"
    ));
}

#[test]
fn binance_status_418_is_rate_limited() {
    let value = Ok(serde_json::Value::Null);
    let e = RestResponse::from_parts(418, value).unwrap_err();
    assert!(matches!(
        e,
        RestError::Exchange(ExchangeError::RateLimited(m)) if m == "I'm a teapot"
    ));
}

#[test]
fn binance_status_503_is_unavailable_with_body() {
    let value = Ok(serde_json::from_str("\"maintenance\"").unwrap());
    let e = RestResponse::from_parts(503, value).unwrap_err();
    assert!(matches!(
        e,
        RestError::Exchange(ExchangeError::Unavailable(m)) if m == "\"maintenance\""
    ));
}

#[test]
fn binance_ok_status_passes_body_through() {
    let v: serde_json::Value = serde_json::from_str("{\"a\":1}").unwrap();
    let r = RestResponse::from_parts(200, Ok(v.clone())).unwrap();
    assert_eq!(r.into_inner(), v);
}

#[test]
fn binance_ok_status_passes_decode_error_through() {
    let e = RestResponse::from_parts(200, Err(RestError::Json("bad".to_string()))).unwrap_err();
    assert!(matches!(e, RestError::Json(m) if m == "bad"));
}

#[test]
fn binance_from_http_classifies_by_status_object() {
    let status = http::StatusCode::from_u16(429).unwrap();
    let e = RestResponse::from_http(&status, b"{}").unwrap_err();
    assert!(matches!(
        e,
        RestError::Exchange(ExchangeError::RateLimited(m)) if m == "too many requests"
    ));
}

#[test]
fn binance_from_http_reports_malformed_body() {
    let status = http::StatusCode::from_u16(200).unwrap();
    let e = RestResponse::from_http(&status, b"not json at all").unwrap_err();
    match e {
        RestError::Json(m) => assert!(!m.is_empty()),
        other => panic!("expected a decode failure, got {other:?}"),
    }
}

#[test]
fn binance_from_http_decodes_good_body() {
    let status = http::StatusCode::from_u16(200).unwrap();
    let r = RestResponse::from_http(&status, b"[1,2,3]").unwrap();
    let expected: serde_json::Value = serde_json::from_str("[1,2,3]").unwrap();
    assert_eq!(r.into_inner(), expected);
}

#[test]
fn decode_body_maps_decoder_failure() {
    assert!(matches!(decode_body(b"{"), Err(RestError::Json(_))));
    assert!(decode_body(b"[]").is_ok());
}

#[test]
fn rest_response_into_inner_returns_data() {
    let r = RestResponse::new(7u32);
    assert_eq!(r.into_inner(), 7u32);
}

#[test]
fn rest_response_into_response_converts() {
    let meta = InstrumentMeta {
        symbol: "BTCUSDT".to_string(),
        tick_size: exc_core::types::Decimal { mantissa: 1, scale: 1 },
        lot_size: exc_core::types::Decimal { mantissa: 1, scale: 3 },
    };
    let resp = RestResponse::new(Data::ExchangeInfo(ExchangeInfo { symbols: vec![meta] }));
    let info: ExchangeInfo = resp.into_response().unwrap();
    assert_eq!(info.symbols.len(), 1);
    assert_eq!(info.symbols[0].symbol, "BTCUSDT");
}

#[test]
fn rest_response_into_response_refuses_unknown_shape() {
    let resp = RestResponse::new(Data::Unknwon(serde_json::Value::Null));
    let e = resp.into_response::<ExchangeInfo>().unwrap_err();
    assert!(matches!(e, RestError::Exchange(ExchangeError::WrongResponseType)));
}

#[test]
fn rest_error_maps_into_canonical_taxonomy() {
    let e = RestError::Json("broken".to_string()).into_exchange_error();
    assert!(matches!(e, ExchangeError::Unknown(m) if m == "broken"));
    let e = RestError::Exchange(ExchangeError::InstrumentNotFound).into_exchange_error();
    assert!(matches!(e, ExchangeError::InstrumentNotFound));
}

#[test]
fn okx_error_maps_into_canonical_taxonomy() {
    let e = OkxError::Json("item".to_string()).into_exchange_error();
    assert!(matches!(e, ExchangeError::Unknown(m) if m == "item"));
    let e = OkxError::UnexpectedDataType("resp".to_string()).into_exchange_error();
    assert!(matches!(e, ExchangeError::Unknown(m) if m == "resp"));
}

#[test]
fn code_message_renders_both_fields() {
    let cm = CodeMessage { code: "60012".to_string(), msg: "bad request".to_string() };
    assert_eq!(cm.to_message(), "code=60012, msg=bad request");
}

#[test]
fn action_defaults_to_update() {
    assert!(matches!(Action::default(), Action::Update));
}

#[test]
fn error_kind_names_are_stable() {
    assert_eq!(ExchangeError::RateLimited("x".to_string()).kind_name(), "RateLimited");
    assert_eq!(ExchangeError::InstrumentNotFound.kind_name(), "InstrumentNotFound");
    assert_eq!(ExchangeError::WrongResponseType.kind_name(), "WrongResponseType");
}

#[test]
fn binance_status_503_names_the_decode_failure() {
    let e = RestResponse::from_parts(503, Err(RestError::Json("bad".to_string()))).unwrap_err();
    assert!(matches!(
        e,
        RestError::Exchange(ExchangeError::Unavailable(m)) if m == "failed to read msg: bad"
    ));
}

#[test]
fn binance_status_503_names_a_classified_failure_kind() {
    let inner = RestError::Exchange(ExchangeError::InstrumentNotFound);
    let e = RestResponse::from_parts(503, Err(inner)).unwrap_err();
    assert!(matches!(
        e,
        RestError::Exchange(ExchangeError::Unavailable(m))
            if m == "failed to read msg: InstrumentNotFound"
    ));
}

#[test]
fn binance_from_http_503_reports_the_body() {
    let status = http::StatusCode::from_u16(503).unwrap();
    let e = RestResponse::from_http(&status, b"\"maintenance\"").unwrap_err();
    assert!(matches!(
        e,
        RestError::Exchange(ExchangeError::Unavailable(m)) if m == "\"maintenance\""
    ));
}

#[test]
fn binance_from_http_503_with_bad_body_still_unavailable() {
    let status = http::StatusCode::from_u16(503).unwrap();
    let e = RestResponse::from_http(&status, b"not json").unwrap_err();
    assert!(matches!(
        e,
        RestError::Exchange(ExchangeError::Unavailable(m))
            if m.starts_with("failed to read msg: ")
    ));
}

#[test]
fn binance_from_http_418_is_rate_limited() {
    let status = http::StatusCode::from_u16(418).unwrap();
    let e = RestResponse::from_http(&status, b"{}").unwrap_err();
    assert!(matches!(
        e,
        RestError::Exchange(ExchangeError::RateLimited(m)) if m == "I'm a teapot"
    ));
}
