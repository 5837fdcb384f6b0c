use trade_lib::account::AccountConfig;
use trade_lib::error::KisError;
use trade_lib::orderbook::{decode_frame, order_book_subscription, stream_endpoint, OrderBookRecord};
use trade_lib::split::split_text;
use trade_lib::text::strip_quotes;

fn payload_fields() -> Vec<String> {
    (0..59).map(|i| format!("f{i}")).collect()
}

fn record_fields(r: &OrderBookRecord) -> Vec<String> {
    let mut v = vec![r.code.clone(), r.time.clone(), r.session_type.clone()];
    v.extend(r.ask_prices.iter().cloned());
    v.extend(r.bid_prices.iter().cloned());
    v.extend(r.ask_quantities.iter().cloned());
    v.extend(r.bid_quantities.iter().cloned());
    v.extend([
        r.total_ask_quantity.clone(),
        r.total_bid_quantity.clone(),
        r.overtime_total_ask_quantity.clone(),
        r.overtime_total_bid_quantity.clone(),
        r.expected_price.clone(),
        r.expected_quantity.clone(),
        r.expected_volume.clone(),
        r.expected_change.clone(),
        r.expected_change_sign.clone(),
        r.expected_change_rate.clone(),
        r.accumulated_volume.clone(),
        r.total_ask_quantity_delta.clone(),
        r.total_bid_quantity_delta.clone(),
        r.overtime_total_ask_quantity_delta.clone(),
        r.overtime_total_bid_quantity_delta.clone(),
        r.trade_type_code.clone(),
    ]);
    v
}

#[test]
fn data_frame_fields_land_in_position() {
    let fields = payload_fields();
    let frame = format!("0|H0STASP0|001|{}", fields.join("^"));
    let rec = decode_frame(&frame).unwrap().unwrap();
    assert_eq!(record_fields(&rec), fields);
    assert_eq!(rec.code, "f0");
    assert_eq!(rec.ask_prices[0], "f3");
    assert_eq!(rec.ask_prices[9], "f12");
    assert_eq!(rec.bid_prices[0], "f13");
    assert_eq!(rec.ask_quantities[9], "f32");
    assert_eq!(rec.bid_quantities[0], "f33");
    assert_eq!(rec.total_ask_quantity, "f43");
    assert_eq!(rec.expected_price, "f47");
    assert_eq!(rec.accumulated_volume, "f53");
    assert_eq!(rec.trade_type_code, "f58");
}

#[test]
fn realistic_frame_decodes() {
    let mut fields: Vec<String> = vec!["005930".into(), "093015".into(), "0".into()];
    for i in 0..10 {
        fields.push(format!("{}", 71100 + 100 * i));
    }
    for i in 0..10 {
        fields.push(format!("{}", 71000 - 100 * i));
    }
    for i in 0..20 {
        fields.push(format!("{}", 1000 + i));
    }
    for i in 0..16 {
        fields.push(format!("{}", i));
    }
    let frame = format!("0|H0STASP0|001|{}", fields.join("^"));
    let rec = decode_frame(&frame).unwrap().unwrap();
    assert_eq!(rec.code, "005930");
    assert_eq!(rec.time, "093015");
    assert_eq!(rec.ask_prices[0], "71100");
    assert_eq!(rec.bid_prices[9], "70100");
    assert_eq!(rec.bid_quantities[9], "1019");
    assert_eq!(rec.trade_type_code, "15");
}

#[test]
fn control_frames_yield_no_record() {
    assert!(decode_frame(r#"{"header":{"tr_id":"PINGPONG"}}"#).unwrap().is_none());
    assert!(decode_frame("1|H0STCNI0|001|secret").unwrap().is_none());
    assert!(decode_frame("").unwrap().is_none());
}

#[test]
fn short_data_frames_are_decode_errors() {
    assert_eq!(decode_frame("0|H0STASP0|001").unwrap_err(), KisError::Decode);
    let mut fields = payload_fields();
    fields.pop();
    let frame = format!("0|H0STASP0|001|{}", fields.join("^"));
    assert_eq!(decode_frame(&frame).unwrap_err(), KisError::Decode);
}

#[test]
fn extra_payload_fields_are_ignored() {
    let mut fields = payload_fields();
    fields.push("extra".to_string());
    let frame = format!("0|H0STASP0|001|{}", fields.join("^"));
    let rec = decode_frame(&frame).unwrap().unwrap();
    assert_eq!(record_fields(&rec), payload_fields());
}

#[test]
fn split_keeps_empty_pieces() {
    assert_eq!(split_text("a|b||c", '|'), vec!["a", "b", "", "c"]);
    assert_eq!(split_text("", '|'), vec![""]);
    assert_eq!(split_text("|", '|'), vec!["", ""]);
    assert_eq!(split_text("가^나", '^'), vec!["가", "나"]);
}

#[test]
fn quotes_are_stripped_at_both_ends_only() {
    assert_eq!(strip_quotes("\"abc\""), "abc");
    assert_eq!(strip_quotes("\"\"a\"b\"\""), "a\"b");
    assert_eq!(strip_quotes("\"\"\""), "");
    assert_eq!(strip_quotes("plain"), "plain");
}

#[test]
fn subscription_names_feed_and_ticker() {
    let mut conf = AccountConfig::new();
    conf.key = "k".to_string();
    conf.secret = "s".to_string();
    let sub = order_book_subscription(&conf, "005935");
    assert_eq!(sub.appkey, "k");
    assert_eq!(sub.appsecret, "s");
    assert_eq!(sub.custtype, "P");
    assert_eq!(sub.tr_type, "1");
    assert_eq!(sub.content_type, "utf-8");
    assert_eq!(sub.tr_id, "H0STASP0");
    assert_eq!(sub.tr_key, "005935");
    assert_eq!(stream_endpoint(false), "ws://ops.koreainvestment.com:31000");
    assert_eq!(stream_endpoint(true), "ws://ops.koreainvestment.com:21000");
}
