//! End-to-end tests of the façade: readiness protocol, dispatch, response
//! acceptance, and the full path from a raw streaming event to canonical
//! domain items.

use exc_core::binance::response::{Data, ExchangeInfo, RestResponse};
use exc_core::binance::service::{
    Binance, Dispatch, EntryState, MuxKey, PollOutcome, Response, WsRequest,
};
use exc_core::error::ExchangeError;
use exc_core::exchange::Exchange;
use exc_core::okx::ws::{tickers_from_event, Action, Args, Change, Event, ResponseKind};
use exc_core::okx::ws::CodeMessage;
use exc_core::stream::SubStream;
use exc_core::types::{Decimal, InstrumentMeta, Ticker};

fn ready_exchange() -> Exchange {
    let mut ex = Exchange::new(Binance::new());
    ex.poll_ready(MuxKey::Ws, PollOutcome::Ready).unwrap();
    ex.poll_ready(MuxKey::Http, PollOutcome::Ready).unwrap();
    ex
}

fn change_with(raw_items: &[&str]) -> Event {
    let data = raw_items
        .iter()
        .map(|raw| serde_json::from_str::<serde_json::Value>(raw).unwrap())
        .collect();
    Event::Change(Change {
        arg: Args { channel: "tickers".to_string(), inst_id: "BTC-USD".to_string() },
        action: Action::default(),
        data,
    })
}

#[test]
fn unready_handler_fails_deterministically_without_io() {
    let mut ex = Exchange::new(Binance::new());
    let e = ex.subscribe_tickers("BTC-USD").unwrap_err();
    assert!(matches!(e, ExchangeError::Unknown(m) if m == "service ws is not ready"));
    // No transport was reached: both entries are exactly as constructed.
    assert!(matches!(ex.channel.ws.state, EntryState::Idle));
    assert!(matches!(ex.channel.http.state, EntryState::Idle));
}

#[test]
fn empty_instrument_is_refused_before_any_dispatch() {
    let mut ex = ready_exchange();
    let e = ex.subscribe_tickers("").unwrap_err();
    assert!(matches!(e, ExchangeError::InstrumentNotFound));
    // Readiness was not even spent.
    assert!(matches!(ex.channel.ws.state, EntryState::Ready));
}

#[test]
fn tickers_flow_from_event_to_domain_items() {
    let mut ex = ready_exchange();
    let dispatch = ex.subscribe_tickers("BTC-USD").unwrap();
    let w: WsRequest = match dispatch {
        Dispatch::Ws(w) => w,
        other => panic!("wrong dispatch: {other:?}"),
    };
    assert_eq!(w.channel, "tickers");
    assert_eq!(w.inst_id, "BTC-USD");

    // The transport answers with one raw streaming event.
    let event = change_with(&[
        r#"{"instId":"BTC-USD","ts":"1597026383085","last":"9999.9","lastSz":"0.1"}"#,
    ]);
    let items = tickers_from_event(event).unwrap();
    let mut stream: SubStream<Ticker> = SubStream::new();
    for item in items {
        stream.push(item.map_err(|e| e.into_exchange_error()));
    }
    let mut stream = ex.accept_tickers_response(Response::Ws(stream)).unwrap();
    let t = stream.pull().unwrap().unwrap();
    assert_eq!(t.ts, 1597026383085);
    assert_eq!(t.last, Decimal { mantissa: 99999, scale: 1 });
    assert_eq!(t.size, Decimal { mantissa: 1, scale: 1 });
    assert_eq!(t.buy, None);
    assert!(stream.pull().is_none());
}

#[test]
fn malformed_event_item_fails_alone() {
    let event = change_with(&[
        r#"{"instId":"BTC-USD","ts":"oops","last":"1","lastSz":"1"}"#,
        r#"{"instId":"BTC-USD","ts":"2","last":"3.5","lastSz":"0.25"}"#,
    ]);
    let items = tickers_from_event(event).unwrap();
    assert_eq!(items.len(), 2);
    assert!(items[0].is_err());
    let t = items[1].as_ref().unwrap();
    assert_eq!(t.last, Decimal { mantissa: 35, scale: 1 });
}

#[test]
fn control_response_is_not_data() {
    let event = Event::Response(ResponseKind::Error(CodeMessage {
        code: "60012".to_string(),
        msg: "bad".to_string(),
    }));
    let e = tickers_from_event(event).unwrap_err();
    assert!(matches!(e, exc_core::okx::ws::OkxError::UnexpectedDataType(_)));
}

#[test]
fn trades_flow_uses_ticker_capability_and_documented_default() {
    let mut ex = ready_exchange();
    let dispatch = ex.subscribe_trades("BTC-USD").unwrap();
    match dispatch {
        // The adapted request rides the tickers channel.
        Dispatch::Ws(w) => assert_eq!(w.channel, "tickers"),
        other => panic!("wrong dispatch: {other:?}"),
    }
    let event = change_with(&[
        r#"{"instId":"BTC-USD","ts":"1597026383085","last":"9999.9","lastSz":"0.1"}"#,
    ]);
    let items = tickers_from_event(event).unwrap();
    let mut native: SubStream<Ticker> = SubStream::new();
    for item in items {
        native.push(item.map_err(|e| e.into_exchange_error()));
    }
    let mut trades = ex.accept_trades_response(Response::Ws(native)).unwrap();
    let trade = trades.pull().unwrap().unwrap();
    // Price from the ticker's last price, size from its last size, and the
    // side flag is the documented default: the source carries none.
    assert_eq!(trade.price, Decimal { mantissa: 99999, scale: 1 });
    assert_eq!(trade.size, Decimal { mantissa: 1, scale: 1 });
    assert!(trade.buy);
}

#[test]
fn http_variant_on_ws_only_entry_is_a_wrong_response() {
    // Both entries hold streaming-capable handlers; dispatching the REST
    // variant of the union must fail loudly, not answer wrongly.
    let mut ex = Exchange::new(Binance::with_handlers(MuxKey::Ws, MuxKey::Ws));
    ex.poll_ready(MuxKey::Http, PollOutcome::Ready).unwrap();
    let e = ex.subscribe_instruments("USDT").unwrap_err();
    assert!(matches!(e, ExchangeError::WrongResponseType));
}

#[test]
fn response_variant_mismatch_is_refused() {
    let ex = ready_exchange();
    let rest = RestResponse::new(Data::Unknwon(serde_json::Value::Null));
    let e = ex.accept_tickers_response(Response::Http(rest)).unwrap_err();
    assert!(matches!(e, ExchangeError::WrongResponseType));
    let e = ex.accept_instruments_response(Response::Ws(SubStream::new())).unwrap_err();
    assert!(matches!(e, ExchangeError::WrongResponseType));
}

#[test]
fn instruments_flow_yields_the_listing_in_order() {
    let mut ex = ready_exchange();
    let dispatch = ex.subscribe_instruments("USDT").unwrap();
    match dispatch {
        Dispatch::Http(h) => {
            assert_eq!(h.endpoint, "exchangeInfo");
            assert_eq!(h.tag, "USDT");
        },
        other => panic!("wrong dispatch: {other:?}"),
    }
    let meta_a = InstrumentMeta {
        symbol: "BTCUSDT".to_string(),
        tick_size: Decimal { mantissa: 1, scale: 1 },
        lot_size: Decimal { mantissa: 1, scale: 3 },
    };
    let meta_b = InstrumentMeta {
        symbol: "ETHUSDT".to_string(),
        tick_size: Decimal { mantissa: 1, scale: 2 },
        lot_size: Decimal { mantissa: 1, scale: 2 },
    };
    let rest = RestResponse::new(Data::ExchangeInfo(ExchangeInfo {
        symbols: vec![meta_a.clone(), meta_b.clone()],
    }));
    let mut stream = ex.accept_instruments_response(Response::Http(rest)).unwrap();
    assert_eq!(stream.pull(), Some(Ok(meta_a)));
    assert_eq!(stream.pull(), Some(Ok(meta_b)));
    assert!(stream.pull().is_none());
}

#[test]
fn instruments_flow_refuses_an_unknown_payload() {
    let ex = ready_exchange();
    let rest = RestResponse::new(Data::Unknwon(serde_json::Value::Null));
    let e = ex.accept_instruments_response(Response::Http(rest)).unwrap_err();
    assert!(matches!(e, ExchangeError::WrongResponseType));
}

#[test]
fn readiness_failure_surfaces_as_canonical_error() {
    let mut ex = Exchange::new(Binance::new());
    let e = ex.poll_ready(MuxKey::Ws, PollOutcome::Failed("socket refused".to_string()))
        .unwrap_err();
    assert!(matches!(e, ExchangeError::Unknown(m) if m == "poll ws ready error: socket refused"));
    // The REST key is unaffected and can still become ready.
    assert_eq!(ex.poll_ready(MuxKey::Http, PollOutcome::Ready).unwrap(), true);
}
