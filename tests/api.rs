use trade_lib::account::AccountConfig;
use trade_lib::api::{hashkey_from_response, token_from_member, KisApi, TokenStep};
use trade_lib::error::{DomainError, KisError};
use trade_lib::json::decode_response;
use trade_lib::request::{make_request, KisRequest, RequestType};

const TICKER: &str = "003490";
const BASE: &str = "https://openapivts.koreainvestment.com:29443";

fn config(live: bool, token: &str) -> AccountConfig {
    let mut conf = AccountConfig::new();
    conf.id = "trader".to_string();
    conf.real = live;
    conf.key = "PSkey".to_string();
    conf.secret = "PSsecret".to_string();
    conf.account = "50067252".to_string();
    conf.url = BASE.to_string();
    conf.token = token.to_string();
    conf
}

fn header_names(req: &KisRequest) -> Vec<String> {
    let mut names: Vec<String> = req.headers.iter().map(|(k, _)| k.clone()).collect();
    names.sort();
    names
}

fn parameter_names(req: &KisRequest) -> Vec<String> {
    let mut names: Vec<String> = req.parameters.iter().map(|(k, _)| k.clone()).collect();
    names.sort();
    names
}

/// An account whose token was issued through a stub token endpoint.
fn setup_for_wrapper_api() -> KisApi {
    let mut kis = KisApi::new(config(false, ""));
    let step = kis.issue_access_token().unwrap();
    assert!(matches!(step, TokenStep::Send(_)));
    let res = kis.complete_access_token(200, r#"{"access_token":"tok-1","token_type":"Bearer"}"#);
    assert_eq!(res, Ok(()));
    kis
}

fn run_price_req(f: fn(&KisApi, &str) -> Result<KisRequest, KisError>, ticker: &str) -> KisRequest {
    let kis = setup_for_wrapper_api();
    let res = f(&kis, ticker);
    assert!(res.is_ok());
    res.unwrap()
}

#[test]
fn test_get_hashkey() {
    let kis = setup_for_wrapper_api();
    let parameters = [
        ("CANO", "00000000"),
        ("ACNT_PRDT_CD", "01"),
        ("PDNO", "005930"),
        ("ORD_DVSN", "01"),
        ("ORD_QTY", "10"),
        ("ORD_UNPR", "0"),
    ];
    let v = kis.get_hashkey(&parameters);
    assert!(v.is_ok());
    let req = v.unwrap();
    assert_eq!(req.url, format!("{BASE}/uapi/hashkey"));
    assert_eq!(req.req_type, RequestType::POST);
    for (k, val) in parameters {
        assert_eq!(req.parameter(k), Some(val.to_string()));
    }
    assert_eq!(req.parameters.len(), 6);
}

#[test]
fn test_issue_request_token() {
    let mut kis = setup_for_wrapper_api();
    let res = kis.issue_access_token();
    assert!(res.is_ok())
}

#[test]
fn test_get_stock_current_price() {
    let v = run_price_req(KisApi::get_stock_current_price, TICKER);
    assert_eq!(v.header("tr_id"), Some("FHKST01010100".to_string()));
    assert_eq!(v.parameter("fid_cond_mrkt_div_code"), Some("J".to_string()));
    assert_eq!(v.parameter("fid_input_iscd"), Some(TICKER.to_string()));
    assert_eq!(v.url, format!("{BASE}/uapi/domestic-stock/v1/quotations/inquire-price"));
}

#[test]
fn test_get_stock_current_concluded() {
    let v = run_price_req(KisApi::get_stock_current_concluded, TICKER);
    assert_eq!(v.header("tr_id"), Some("FHKST01010300".to_string()));
    assert_eq!(v.url, format!("{BASE}/uapi/domestic-stock/v1/quotations/inquire-ccnl"));
}

#[test]
fn test_get_stock_daily_price() {
    let v = run_price_req(KisApi::get_stock_daily_price, TICKER);
    assert_eq!(v.header("tr_id"), Some("FHKST01010400".to_string()));
    assert_eq!(v.parameter("fid_org_adj_prc"), Some("1".to_string()));
    assert_eq!(v.parameter("fid_period_div_code"), Some("D".to_string()));
    assert_eq!(v.parameters.len(), 4);
}

#[test]
fn test_get_stock_bid_ask_prices() {
    let v = run_price_req(KisApi::get_stock_bid_ask_prices, TICKER);
    assert_eq!(v.header("tr_id"), Some("FHKST01010200".to_string()));
}

#[test]
fn test_get_stock_inverstor_info() {
    let v = run_price_req(KisApi::get_stock_investor_list, TICKER);
    assert_eq!(v.header("tr_id"), Some("FHKST01010900".to_string()));
}

#[test]
fn test_get_stock_membership_list() {
    let v = run_price_req(KisApi::get_stock_membership_list, TICKER);
    assert_eq!(v.header("tr_id"), Some("FHKST01010600".to_string()));
}

#[test]
fn test_account_balance() {
    let kis = setup_for_wrapper_api();
    let res = kis.get_account_balance();
    assert!(res.is_ok());
    let req = res.unwrap();
    assert_eq!(req.parameter("CANO"), Some("50067252".to_string()));
    assert_eq!(req.parameter("CTX_AREA_FK100"), Some(String::new()));
    assert_eq!(req.parameters.len(), 11);
}

#[test]
fn test_order_buy() {
    let kis = setup_for_wrapper_api();
    let res = kis.order_buy_stock(TICKER, "01", 1, 0);
    assert!(res.is_ok());
    let draft = res.unwrap();
    assert!(draft.buy);
    assert_eq!(draft.signing.parameter("ORD_QTY"), Some("1".to_string()));
    assert_eq!(draft.signing.parameter("ORD_UNPR"), Some("0".to_string()));
}

#[test]
fn test_order_sell() {
    let kis = setup_for_wrapper_api();
    let res = kis.order_sell_stock(TICKER, "01", 1, 0);
    assert!(res.is_ok());
    let draft = res.unwrap();
    assert!(!draft.buy);
    let order = kis.sign_order(draft, "sig").unwrap();
    assert_eq!(order.header("tr_id"), Some("VTTC0801U".to_string()));
}

#[test]
fn seeded_headers_match_table_for_each_kind() {
    let conf = config(false, "tok");
    let get = KisRequest::new(RequestType::GET, &conf);
    assert_eq!(header_names(&get), vec!["appkey", "appsecret", "content-type"]);
    assert_eq!(get.header("content-type"), Some("application/json".to_string()));
    assert_eq!(get.header("appkey"), Some("PSkey".to_string()));
    assert_eq!(get.header("appsecret"), Some("PSsecret".to_string()));
    assert!(get.parameters.is_empty());
    let post = KisRequest::new(RequestType::POST, &conf);
    assert_eq!(header_names(&post), vec!["appkey", "appsecret", "content-type"]);
    assert!(post.parameters.is_empty());
    let token = KisRequest::new(RequestType::POSTTOKEN, &conf);
    assert_eq!(header_names(&token), vec!["content-type"]);
    assert_eq!(parameter_names(&token), vec!["appkey", "appsecret", "grant_type"]);
    assert_eq!(token.parameter("grant_type"), Some("client_credentials".to_string()));
    assert_eq!(token.url, BASE);
}

#[test]
fn every_request_but_the_token_request_carries_the_bearer() {
    let kis = KisApi::new(config(true, "abc"));
    let quote = kis.get_stock_elw_price("58J001").unwrap();
    assert_eq!(quote.header("authorization"), Some("Bearer abc".to_string()));
    assert_eq!(quote.parameter("fid_cond_mrkt_div_code"), Some("W".to_string()));
    let kis = KisApi::new(config(true, ""));
    let quote = kis.get_stock_current_price("005930").unwrap();
    assert_eq!(quote.header("authorization"), Some("Bearer ".to_string()));
    match kis.issue_access_token().unwrap() {
        TokenStep::Send(req) => {
            assert_eq!(req.req_type, RequestType::POSTTOKEN);
            assert_eq!(req.header("authorization"), None);
            assert_eq!(req.url, format!("{BASE}/oauth2/tokenP"));
        }
        TokenStep::Ready => panic!("a token request was expected"),
    }
}

#[test]
fn signing_and_order_carry_the_same_parameters() {
    let kis = KisApi::new(config(false, "abc"));
    let draft = kis.order_stock("005930", "00", 10, 950, true).unwrap();
    let mut signed: Vec<(String, String)> = draft.signing.parameters.clone();
    signed.sort();
    assert_eq!(draft.signing.url, format!("{BASE}/uapi/hashkey"));
    let order = kis.sign_order(draft, "h4sh").unwrap();
    let mut sent = order.parameters.clone();
    sent.sort();
    assert_eq!(signed, sent);
    assert_eq!(order.url, format!("{BASE}/uapi/domestic-stock/v1/trading/order-cash"));
    assert_eq!(order.header("hashkey"), Some("h4sh".to_string()));
    assert_eq!(order.header("custtype"), Some("P".to_string()));
    assert_eq!(order.parameter("ORD_QTY"), Some("10".to_string()));
    assert_eq!(order.parameter("ORD_UNPR"), Some("950".to_string()));
    assert_eq!(order.parameter("CANO"), Some("50067252".to_string()));
    assert_eq!(order.parameter("ALGO_NO"), Some(String::new()));
}

#[test]
fn token_step_twice_sends_one_request() {
    let mut kis = KisApi::new(config(false, ""));
    let mut sent = 0;
    for _ in 0..2 {
        match kis.issue_access_token().unwrap() {
            TokenStep::Send(_) => {
                sent += 1;
                kis.complete_access_token(200, r#"{"access_token":"abc"}"#).unwrap();
            }
            TokenStep::Ready => {}
        }
    }
    assert_eq!(sent, 1);
    assert_eq!(kis.account_info.get_access_token(), "abc");
}

#[test]
fn held_token_needs_no_request() {
    let kis = KisApi::new(config(true, "held"));
    assert!(matches!(kis.issue_access_token(), Ok(TokenStep::Ready)));
}

#[test]
fn balance_tag_follows_account_class() {
    let real = KisApi::new(config(true, "t")).get_account_balance().unwrap();
    assert_eq!(real.header("tr_id"), Some("TTTC8434R".to_string()));
    let sim = KisApi::new(config(false, "t")).get_account_balance().unwrap();
    assert_eq!(sim.header("tr_id"), Some("VTTC8434R".to_string()));
    assert_eq!(sim.url, format!("{BASE}/uapi/domestic-stock/v1/trading/inquire-balance"));
}

#[test]
fn stub_token_then_quote_carries_bearer() {
    let mut kis = KisApi::new(config(false, ""));
    assert!(matches!(kis.issue_access_token(), Ok(TokenStep::Send(_))));
    assert_eq!(kis.complete_access_token(200, r#"{"access_token":"abc"}"#), Ok(()));
    assert_eq!(kis.account_info.get_access_token(), "abc");
    assert!(kis.account_info.is_acces_token_valid());
    let quote = kis.get_stock_current_price("005930").unwrap();
    assert_eq!(quote.header("authorization"), Some("Bearer abc".to_string()));
}

#[test]
fn buy_order_tag_by_account_class() {
    let sim = KisApi::new(config(false, "t"));
    let draft = sim.order_buy_stock("005930", "00", 1, 950).unwrap();
    let order = sim.sign_order(draft, "k").unwrap();
    assert_eq!(order.header("tr_id"), Some("VTTC0802U".to_string()));
    let real = KisApi::new(config(true, "t"));
    let draft = real.order_buy_stock("005930", "00", 1, 950).unwrap();
    let order = real.sign_order(draft, "k").unwrap();
    assert_eq!(order.header("tr_id"), Some("TTTC0802U".to_string()));
    let draft = real.order_sell_stock("005930", "00", 1, 950).unwrap();
    let order = real.sign_order(draft, "k").unwrap();
    assert_eq!(order.header("tr_id"), Some("TTTC0801U".to_string()));
}

#[test]
fn open_orders_refused_in_simulation() {
    let kis = KisApi::new(config(false, "t"));
    assert_eq!(
        kis.get_ordered_list().unwrap_err(),
        KisError::Domain(DomainError::NotAvailableInSimulation)
    );
    let real = KisApi::new(config(true, "t")).get_ordered_list().unwrap();
    assert_eq!(real.header("tr_id"), Some("TTTC8036R".to_string()));
    assert_eq!(real.parameter("INQR_DVSN_1"), Some("0".to_string()));
}

#[test]
fn duration_prices_carry_range() {
    let kis = KisApi::new(config(true, "t"));
    let req = kis.get_stock_duration_prices("005930", "20220101", "20220130", "D").unwrap();
    assert_eq!(req.parameter("fid_input_date_1"), Some("20220101".to_string()));
    assert_eq!(req.parameter("fid_input_date_2"), Some("20220130".to_string()));
    assert_eq!(req.parameter("FID_ORG_ADJ_PRC"), Some("0".to_string()));
    let req = kis.get_sector_duration_prices("0001", "20220101", "20220130", "W").unwrap();
    assert_eq!(req.parameter("fid_cond_mrkt_div_code"), Some("U".to_string()));
    assert_eq!(req.parameter("fid_period_div_code"), Some("W".to_string()));
}

#[test]
fn malformed_url_is_refused() {
    let mut conf = config(false, "t");
    conf.url = String::new();
    let kis = KisApi::new(conf);
    assert_eq!(kis.get_stock_current_price("005930").unwrap_err(), KisError::InvalidUrl);
    let mut conf = config(false, "t");
    conf.url = "http://exa mple.com".to_string();
    assert_eq!(KisApi::new(conf).get_account_balance().unwrap_err(), KisError::InvalidUrl);
}

#[test]
fn control_character_in_header_is_refused() {
    let mut conf = config(false, "t");
    conf.key = "bad\nkey".to_string();
    let kis = KisApi::new(conf);
    assert_eq!(kis.get_stock_current_price("005930").unwrap_err(), KisError::InvalidHeaderValue);
    let kis = KisApi::new(config(false, "t"));
    let draft = kis.order_buy_stock("005930", "00", 1, 0).unwrap();
    assert_eq!(kis.sign_order(draft, "a\u{7f}b").unwrap_err(), KisError::InvalidHeaderValue);
    let mut conf = config(false, "t");
    conf.secret = "tab\tand\u{e9}".to_string();
    assert!(KisApi::new(conf).get_stock_current_price("005930").is_ok());
}

#[test]
fn token_answer_errors_leave_config_unchanged() {
    let mut kis = KisApi::new(config(false, ""));
    assert_eq!(
        kis.complete_access_token(403, "denied"),
        Err(KisError::Upstream { status: 403, body: "denied".to_string() })
    );
    assert_eq!(kis.complete_access_token(200, "not json"), Err(KisError::Decode));
    assert_eq!(kis.complete_access_token(200, r#"{"token":"x"}"#), Err(KisError::Decode));
    assert_eq!(kis.complete_access_token(200, r#"{"access_token":7}"#), Err(KisError::Decode));
    assert_eq!(kis.complete_access_token(200, r#"{"access_token":""}"#), Err(KisError::Decode));
    assert_eq!(kis.account_info.get_access_token(), "");
    assert!(!kis.account_info.is_acces_token_valid());
}

#[test]
fn token_member_rules() {
    assert_eq!(token_from_member(Some("abc".to_string())), Ok("abc".to_string()));
    assert_eq!(token_from_member(Some(String::new())), Err(KisError::Decode));
    assert_eq!(token_from_member(None), Err(KisError::Decode));
    let mut kis = KisApi::new(config(false, "old"));
    assert_eq!(kis.accept_access_token(Err(KisError::Decode)), Err(KisError::Decode));
    assert_eq!(kis.account_info.get_access_token(), "old");
    assert_eq!(kis.accept_access_token(Ok("new".to_string())), Ok(()));
    assert_eq!(kis.account_info.get_access_token(), "new");
}

#[test]
fn hashkey_is_read_and_unquoted() {
    assert_eq!(hashkey_from_response(200, r#"{"HASH":"a1b2"}"#), Ok("a1b2".to_string()));
    assert_eq!(hashkey_from_response(200, r#"{"BODY":{}}"#), Err(KisError::Decode));
    assert_eq!(hashkey_from_response(200, "{"), Err(KisError::Decode));
    assert_eq!(
        hashkey_from_response(500, "oops"),
        Err(KisError::Upstream { status: 500, body: "oops".to_string() })
    );
}

#[test]
fn responses_decode_only_on_200_json() {
    let v = decode_response(200, r#"{"rt_cd":"0","output":{"stck_prpr":"71000"}}"#).unwrap();
    assert_eq!(v["output"]["stck_prpr"], "71000");
    assert_eq!(decode_response(200, "<html>"), Err(KisError::Decode));
    assert_eq!(
        decode_response(404, "{}"),
        Err(KisError::Upstream { status: 404, body: "{}".to_string() })
    );
}

#[test]
fn account_config_accessors() {
    let mut conf = AccountConfig::new();
    assert!(!conf.is_real());
    assert_eq!(conf.get_apikey(), "");
    assert!(!conf.is_acces_token_valid());
    conf.set_access_token("xyz");
    assert_eq!(conf.get_access_token(), "xyz");
    assert!(conf.is_acces_token_valid());
    let conf = config(true, "");
    assert!(conf.is_real());
    assert_eq!(conf.get_secret(), "PSsecret");
    assert_eq!(conf.get_url(), BASE);
    assert_eq!(conf.get_account_no(), "50067252");
}

#[test]
fn header_names_fold_to_lower_case() {
    let conf = config(false, "t");
    let req = make_request(&conf, RequestType::GET, "/x", &[("Content-Type", "text/plain"), ("TR_ID", "A")], &[])
        .unwrap();
    assert_eq!(req.header("content-type"), Some("text/plain".to_string()));
    assert_eq!(req.header("tr_id"), Some("A".to_string()));
    assert_eq!(header_names(&req), vec!["appkey", "appsecret", "authorization", "content-type", "tr_id"]);
    let req = make_request(&conf, RequestType::GET, "/x", &[("tr_id", "A"), ("Tr_Id", "B")], &[]).unwrap();
    assert_eq!(req.header("tr_id"), Some("B".to_string()));
}

#[test]
fn refused_header_names_are_errors() {
    let conf = config(false, "t");
    let bad = |name: &str| make_request(&conf, RequestType::GET, "/x", &[(name, "v")], &[]);
    assert_eq!(bad("bad name").unwrap_err(), KisError::InvalidHeaderValue);
    assert_eq!(bad("").unwrap_err(), KisError::InvalidHeaderValue);
    assert_eq!(bad("x:y").unwrap_err(), KisError::InvalidHeaderValue);
    assert_eq!(bad("caf\u{e9}").unwrap_err(), KisError::InvalidHeaderValue);
    assert!(bad("x-custom_1~").is_ok());
}

#[test]
fn hashkey_member_text_is_unquoted() {
    assert_eq!(hashkey_from_response(200, r#"{"HASH":7}"#), Ok("7".to_string()));
    assert_eq!(hashkey_from_response(200, r#"[1,2]"#), Err(KisError::Decode));
    assert_eq!(hashkey_from_response(200, r#"{"HASH":"\"q\""}"#), Ok("\\\"q\\".to_string()));
}
