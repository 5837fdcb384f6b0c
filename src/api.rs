//! The trading operations. Each one builds the request that the upstream
//! API expects; the steps that depend on an upstream answer take it as an
//! argument, so that the caller performs every network exchange.
use vstd::prelude::*;
use crate::account::AccountConfig;
use crate::error::{DomainError, KisError};
use crate::json::{json_member_text, json_str_member, json_valid, member_text, str_member};
use crate::pairs::{overlay, pairs_map, str_pairs};
use crate::request::{
    authorized_headers, build_request, build_spec, lower, lower_keys, make_request, outcome, request_spec,
    seeded_parameters, KisRequest, RequestModel, RequestType,
};
use crate::text::{decimal, decimal_text, strip_quotes, unquoted};

verus! {

/// A client of the trading API for one account.
pub struct KisApi {
    pub account_info: AccountConfig,
}

/// What the caller does next to hold a token.
#[derive(Debug)]
pub enum TokenStep {
    /// A token is held: nothing to send.
    Ready,
    /// Send this request, then hand its answer to `complete_access_token`.
    Send(KisRequest),
}

/// An order waiting for its hashkey: `signing` is the hashkey request,
/// whose parameters are the order's.
#[derive(Debug)]
pub struct OrderDraft {
    pub buy: bool,
    pub signing: KisRequest,
}

/// The token step that a configuration calls for: `None` when a token is
/// held, else the token request.
pub open spec fn token_step_spec(conf: AccountConfig) -> Result<Option<RequestModel>, KisError> {
    if conf.token_issued() {
        Ok(None)
    } else {
        match request_spec(conf, RequestType::POSTTOKEN, "/oauth2/tokenP"@, seq![], seq![]) {
            Ok(m) => Ok(Some(m)),
            Err(e) => Err(e),
        }
    }
}

/// What a token step stands for, or its error.
pub open spec fn step_outcome(r: Result<TokenStep, KisError>) -> Result<Option<RequestModel>, KisError> {
    match r {
        Ok(TokenStep::Ready) => Ok(None),
        Ok(TokenStep::Send(q)) => Ok(Some(q@)),
        Err(e) => Err(e),
    }
}

/// The transaction tag of the balance inquiry.
pub open spec fn balance_tr_id(live: bool) -> Seq<char> {
    if live {
        "TTTC8434R"@
    } else {
        "VTTC8434R"@
    }
}

/// The transaction tag of an order, by side and by account class.
pub open spec fn order_tr_id(buy: bool, live: bool) -> Seq<char> {
    if buy {
        if live {
            "TTTC0802U"@
        } else {
            "VTTC0802U"@
        }
    } else {
        if live {
            "TTTC0801U"@
        } else {
            "VTTC0801U"@
        }
    }
}

/// The parameters of the balance inquiry: a single page, no continuation key.
pub open spec fn balance_parameters(conf: AccountConfig) -> Seq<(Seq<char>, Seq<char>)> {
    seq![
        ("CANO"@, conf.account@),
        ("ACNT_PRDT_CD"@, "01"@),
        ("AFHR_FLPR_YN"@, "N"@),
        ("FNCG_AMT_AUTO_RDPT_YN"@, "N"@),
        ("FUND_STTL_ICLD_YN"@, "N"@),
        ("INQR_DVSN"@, "01"@),
        ("OFL_YN"@, "N"@),
        ("PRCS_DVSN"@, "01"@),
        ("UNPR_DVSN"@, "01"@),
        ("CTX_AREA_FK100"@, ""@),
        ("CTX_AREA_NK100"@, ""@),
    ]
}

/// The parameters of a cash order.
pub open spec fn order_parameters(
    conf: AccountConfig,
    ticker: Seq<char>,
    order_type: Seq<char>,
    count: u32,
    price: u32,
) -> Seq<(Seq<char>, Seq<char>)> {
    seq![
        ("CANO"@, conf.account@),
        ("ACNT_PRDT_CD"@, "01"@),
        ("PDNO"@, ticker),
        ("ORD_DVSN"@, order_type),
        ("ORD_QTY"@, decimal(count as nat)),
        ("ORD_UNPR"@, decimal(price as nat)),
        ("ALGO_NO"@, ""@),
    ]
}

/// A draft of the order on `buy`'s side, whose hashkey request signs the
/// order's parameters, or the error of building that request.
pub open spec fn draft_outcome(
    conf: AccountConfig,
    ticker: Seq<char>,
    order_type: Seq<char>,
    count: u32,
    price: u32,
    buy: bool,
    r: Result<OrderDraft, KisError>,
) -> bool {
    let signing = request_spec(
        conf,
        RequestType::POST,
        "/uapi/hashkey"@,
        seq![],
        order_parameters(conf, ticker, order_type, count, price),
    );
    match r {
        Ok(d) => d.buy == buy && d.signing.wf() && signing == Ok::<RequestModel, KisError>(d.signing@),
        Err(e) => signing == Err::<RequestModel, KisError>(e),
    }
}

/// The headers of a signed order.
pub open spec fn order_headers(buy: bool, live: bool, hashkey: Seq<char>) -> Seq<(Seq<char>, Seq<char>)> {
    seq![("custtype"@, "P"@), ("tr_id"@, order_tr_id(buy, live)), ("hashkey"@, hashkey)]
}

/// The signed order request of a draft.
pub open spec fn signed_order_spec(conf: AccountConfig, draft: OrderDraft, hashkey: Seq<char>) -> Result<RequestModel, KisError> {
    build_spec(
        conf,
        RequestType::POST,
        "/uapi/domestic-stock/v1/trading/order-cash"@,
        order_headers(draft.buy, conf.real, hashkey),
        draft.signing@.parameters,
    )
}

/// A quotation inquiry: market division and instrument code as the query.
pub open spec fn quote_spec(
    conf: AccountConfig,
    path: Seq<char>,
    tr_id: Seq<char>,
    market: Seq<char>,
    ticker: Seq<char>,
) -> Result<RequestModel, KisError> {
    request_spec(
        conf,
        RequestType::GET,
        path,
        seq![("tr_id"@, tr_id)],
        seq![("fid_cond_mrkt_div_code"@, market), ("fid_input_iscd"@, ticker)],
    )
}

/// The hashkey that a signing answer carries, or the error; a hashkey
/// never starts or ends with a quote.
pub open spec fn hashkey_outcome_ok(status: u16, body: Seq<char>, r: Result<String, KisError>) -> bool {
    &&& status != 200 ==> (r matches Err(KisError::Upstream { status: s, body: b }) && s == status
        && b@ == body)
    &&& status == 200 ==> match json_member_text(body, "HASH"@) {
        Some(t) => r matches Ok(h) && unquoted(t, h@),
        None => r == Err::<String, KisError>(KisError::Decode),
    }
    &&& status == 200 && !json_valid(body) ==> r == Err::<String, KisError>(KisError::Decode)
    &&& r is Ok ==> status == 200 && json_valid(body)
    &&& r matches Ok(h) ==> (h@.len() > 0 ==> h@[0] != '"' && h@.last() != '"')
}

fn balance_tr_id_text(live: bool) -> (r: &'static str)
    ensures
        r@ == balance_tr_id(live),
{
    if live {
        "TTTC8434R"
    } else {
        "VTTC8434R"
    }
}

fn order_tr_id_text(buy: bool, live: bool) -> (r: &'static str)
    ensures
        r@ == order_tr_id(buy, live),
{
    if buy {
        if live {
            "TTTC0802U"
        } else {
            "VTTC0802U"
        }
    } else {
        if live {
            "TTTC0801U"
        } else {
            "VTTC0801U"
        }
    }
}

/// The hashkey that a signing answer carries, with its surrounding quotes
/// removed: any status but 200 is an upstream error, and a body that is not
/// JSON or lacks a `HASH` member is a decode error.
pub fn hashkey_from_response(status: u16, body: &str) -> (r: Result<String, KisError>)
    ensures
        hashkey_outcome_ok(status, body@, r),
{
    if status != 200 {
        return Err(KisError::Upstream { status, body: body.to_owned() });
    }
    match member_text(body, "HASH") {
        Some(text) => {
            let signature = strip_quotes(text.as_str());
            proof {
                let s = text@;
                let (i, j) = choose|i: int, j: int|
                    0 <= i <= j <= s.len() && signature@ == s.subrange(i, j) && (forall|k: int|
                        0 <= k < i ==> s[k] == '"') && (forall|k: int| j <= k < s.len() ==> s[k] == '"')
                        && (i < j ==> s[i] != '"' && s[j - 1] != '"');
                if signature@.len() > 0 {
                    assert(signature@[0] == s[i]);
                    assert(signature@.last() == s[j - 1]);
                }
            }
            Ok(signature)
        },
        None => Err(KisError::Decode),
    }
}

/// The token that an issuance answer carries, from the text of its
/// `access_token` member: absent or empty is a decode error.
pub fn token_from_member(member: Option<String>) -> (r: Result<String, KisError>)
    ensures
        match member {
            Some(t) => if t@.len() > 0 {
                r matches Ok(u) && u@ == t@
            } else {
                r == Err::<String, KisError>(KisError::Decode)
            },
            None => r == Err::<String, KisError>(KisError::Decode),
        },
{
    match member {
        Some(t) => {
            if t.as_str().is_empty() {
                Err(KisError::Decode)
            } else {
                Ok(t)
            }
        },
        None => Err(KisError::Decode),
    }
}

impl KisApi {
    pub fn new(account_info: AccountConfig) -> (r: Self)
        ensures
            r.account_info == account_info,
    {
        Self { account_info }
    }

    /// The request that signs `parameters`: a POST of them to the hashkey
    /// endpoint. The signature comes back through `hashkey_from_response`.
    pub fn get_hashkey(&self, parameters: &[(&str, &str)]) -> (r: Result<KisRequest, KisError>)
        ensures
            outcome(r) == request_spec(
                self.account_info,
                RequestType::POST,
                "/uapi/hashkey"@,
                seq![],
                str_pairs(parameters@),
            ),
            r is Ok ==> r->Ok_0.wf(),
    {
        let headers: [(&str, &str); 0] = [];
        let r = make_request(&self.account_info, RequestType::POST, "/uapi/hashkey", &headers, parameters);
        assert(str_pairs(headers@) =~= seq![]);
        r
    }

    /// The first token step: `Ready` when a token is held, else the token
    /// request to send.
    pub fn issue_access_token(&self) -> (r: Result<TokenStep, KisError>)
        ensures
            step_outcome(r) == token_step_spec(self.account_info),
            r matches Ok(TokenStep::Send(q)) ==> q.wf(),
    {
        if self.account_info.is_acces_token_valid() {
            return Ok(TokenStep::Ready);
        }
        let none: [(&str, &str); 0] = [];
        let r = make_request(&self.account_info, RequestType::POSTTOKEN, "/oauth2/tokenP", &none, &none);
        assert(str_pairs(none@) =~= seq![]);
        match r {
            Ok(q) => Ok(TokenStep::Send(q)),
            Err(e) => Err(e),
        }
    }

    /// Stores an issued token. On an error nothing changes.
    pub fn accept_access_token(&mut self, issued: Result<String, KisError>) -> (r: Result<(), KisError>)
        ensures
            match issued {
                Ok(t) => r is Ok && final(self).account_info.token@ == t@,
                Err(e) => r == Err::<(), KisError>(e) && final(self).account_info == old(self).account_info,
            },
            final(self).account_info.id == old(self).account_info.id,
            final(self).account_info.real == old(self).account_info.real,
            final(self).account_info.key == old(self).account_info.key,
            final(self).account_info.account == old(self).account_info.account,
            final(self).account_info.phone == old(self).account_info.phone,
            final(self).account_info.url == old(self).account_info.url,
            final(self).account_info.ops == old(self).account_info.ops,
            final(self).account_info.secret == old(self).account_info.secret,
    {
        match issued {
            Ok(t) => {
                self.account_info.set_access_token(t.as_str());
                Ok(())
            },
            Err(e) => Err(e),
        }
    }

    /// The second token step: reads the token out of the issuance answer and
    /// stores it. Any status but 200 is an upstream error; a body that is not
    /// JSON, or whose `access_token` is absent, not a string or empty, is a
    /// decode error. On an error nothing changes.
    pub fn complete_access_token(&mut self, status: u16, body: &str) -> (r: Result<(), KisError>)
        ensures
            status != 200 ==> (r matches Err(KisError::Upstream { status: s, body: b }) && s == status
                && b@ == body@),
            status == 200 ==> match json_str_member(body@, "access_token"@) {
                Some(t) => if t.len() > 0 {
                    r is Ok && final(self).account_info.token@ == t
                } else {
                    r == Err::<(), KisError>(KisError::Decode)
                },
                None => r == Err::<(), KisError>(KisError::Decode),
            },
            status == 200 && !json_valid(body@) ==> r == Err::<(), KisError>(KisError::Decode),
            r is Ok ==> final(self).account_info.token_issued(),
            r is Err ==> final(self).account_info == old(self).account_info,
            final(self).account_info.id == old(self).account_info.id,
            final(self).account_info.real == old(self).account_info.real,
            final(self).account_info.key == old(self).account_info.key,
            final(self).account_info.account == old(self).account_info.account,
            final(self).account_info.phone == old(self).account_info.phone,
            final(self).account_info.url == old(self).account_info.url,
            final(self).account_info.ops == old(self).account_info.ops,
            final(self).account_info.secret == old(self).account_info.secret,
    {
        if status != 200 {
            return Err(KisError::Upstream { status, body: body.to_owned() });
        }
        let issued = token_from_member(str_member(body, "access_token"));
        self.accept_access_token(issued)
    }

    /// The balance inquiry of the configured account.
    pub fn get_account_balance(&self) -> (r: Result<KisRequest, KisError>)
        ensures
            outcome(r) == request_spec(
                self.account_info,
                RequestType::GET,
                "/uapi/domestic-stock/v1/trading/inquire-balance"@,
                seq![("tr_id"@, balance_tr_id(self.account_info.real))],
                balance_parameters(self.account_info),
            ),
            r is Ok ==> r->Ok_0.wf(),
    {
        let tr_id = balance_tr_id_text(self.account_info.is_real());
        let headers = [("tr_id", tr_id)];
        let query = [
            ("CANO", self.account_info.get_account_no()),
            ("ACNT_PRDT_CD", "01"),
            ("AFHR_FLPR_YN", "N"),
            ("FNCG_AMT_AUTO_RDPT_YN", "N"),
            ("FUND_STTL_ICLD_YN", "N"),
            ("INQR_DVSN", "01"),
            ("OFL_YN", "N"),
            ("PRCS_DVSN", "01"),
            ("UNPR_DVSN", "01"),
            ("CTX_AREA_FK100", ""),
            ("CTX_AREA_NK100", ""),
        ];
        assert(str_pairs(headers@) =~= seq![("tr_id"@, balance_tr_id(self.account_info.real))]);
        assert(str_pairs(query@) =~= balance_parameters(self.account_info));
        make_request(
            &self.account_info,
            RequestType::GET,
            "/uapi/domestic-stock/v1/trading/inquire-balance",
            &headers,
            &query,
        )
    }
}

impl KisApi {
    /// The first order step: the hashkey request that signs the order's
    /// parameters. `count` and `price` go as decimal text; a price of zero
    /// asks for a market order.
    pub fn order_stock(
        &self,
        ticker: &str,
        order_type: &str,
        count: u32,
        price: u32,
        buy: bool,
    ) -> (r: Result<OrderDraft, KisError>)
        ensures
            draft_outcome(self.account_info, ticker@, order_type@, count, price, buy, r),
    {
        let qty = decimal_text(count);
        let unit_price = decimal_text(price);
        let parameters = [
            ("CANO", self.account_info.get_account_no()),
            ("ACNT_PRDT_CD", "01"),
            ("PDNO", ticker),
            ("ORD_DVSN", order_type),
            ("ORD_QTY", qty.as_str()),
            ("ORD_UNPR", unit_price.as_str()),
            ("ALGO_NO", ""),
        ];
        assert(str_pairs(parameters@) =~= order_parameters(
            self.account_info,
            ticker@,
            order_type@,
            count,
            price,
        ));
        match self.get_hashkey(&parameters) {
            Ok(signing) => Ok(OrderDraft { buy, signing }),
            Err(e) => Err(e),
        }
    }

    pub fn order_buy_stock(&self, ticker: &str, order_type: &str, count: u32, price: u32) -> (r: Result<
        OrderDraft,
        KisError,
    >)
        ensures
            draft_outcome(self.account_info, ticker@, order_type@, count, price, true, r),
    {
        self.order_stock(ticker, order_type, count, price, true)
    }

    pub fn order_sell_stock(&self, ticker: &str, order_type: &str, count: u32, price: u32) -> (r: Result<
        OrderDraft,
        KisError,
    >)
        ensures
            draft_outcome(self.account_info, ticker@, order_type@, count, price, false, r),
    {
        self.order_stock(ticker, order_type, count, price, false)
    }

    /// The second order step: the order request, signed with `hashkey`. Its
    /// parameter set is the draft's own, moved unchanged, so that the order
    /// carries exactly what was signed.
    pub fn sign_order(&self, draft: OrderDraft, hashkey: &str) -> (r: Result<KisRequest, KisError>)
        requires
            draft.signing.wf(),
        ensures
            outcome(r) == signed_order_spec(self.account_info, draft, hashkey@),
            r is Ok ==> r->Ok_0.wf(),
    {
        let tr_id = order_tr_id_text(draft.buy, self.account_info.is_real());
        let headers = [("custtype", "P"), ("tr_id", tr_id), ("hashkey", hashkey)];
        assert(str_pairs(headers@) =~= order_headers(
            draft.buy,
            self.account_info.real,
            hashkey@,
        ));
        build_request(
            &self.account_info,
            RequestType::POST,
            "/uapi/domestic-stock/v1/trading/order-cash",
            &headers,
            draft.signing.parameters,
        )
    }

    /// The inquiry of orders that can still be revised or cancelled. Real
    /// accounts only: in simulation it fails before building anything.
    pub fn get_ordered_list(&self) -> (r: Result<KisRequest, KisError>)
        ensures
            !self.account_info.real ==> r == Err::<KisRequest, KisError>(
                KisError::Domain(DomainError::NotAvailableInSimulation),
            ),
            self.account_info.real ==> outcome(r) == request_spec(
                self.account_info,
                RequestType::GET,
                "/uapi/domestic-stock/v1/trading/inquire-psbl-rvsecncl"@,
                seq![("tr_id"@, "TTTC8036R"@)],
                seq![
                    ("CANO"@, self.account_info.account@),
                    ("ACNT_PRDT_CD"@, "01"@),
                    ("CTX_AREA_FK100"@, ""@),
                    ("CTX_AREA_NK100"@, ""@),
                    ("INQR_DVSN_1"@, "0"@),
                    ("INQR_DVSN_2"@, "0"@),
                ],
            ),
            r is Ok ==> r->Ok_0.wf(),
    {
        if !self.account_info.is_real() {
            return Err(KisError::Domain(DomainError::NotAvailableInSimulation));
        }
        let headers = [("tr_id", "TTTC8036R")];
        let query = [
            ("CANO", self.account_info.get_account_no()),
            ("ACNT_PRDT_CD", "01"),
            ("CTX_AREA_FK100", ""),
            ("CTX_AREA_NK100", ""),
            ("INQR_DVSN_1", "0"),
            ("INQR_DVSN_2", "0"),
        ];
        assert(str_pairs(headers@) =~= seq![("tr_id"@, "TTTC8036R"@)]);
        assert(str_pairs(query@) =~= seq![
            ("CANO"@, self.account_info.account@),
            ("ACNT_PRDT_CD"@, "01"@),
            ("CTX_AREA_FK100"@, ""@),
            ("CTX_AREA_NK100"@, ""@),
            ("INQR_DVSN_1"@, "0"@),
            ("INQR_DVSN_2"@, "0"@),
        ]);
        make_request(
            &self.account_info,
            RequestType::GET,
            "/uapi/domestic-stock/v1/trading/inquire-psbl-rvsecncl",
            &headers,
            &query,
        )
    }

    fn quote(&self, path: &str, tr_id: &str, market: &str, ticker: &str) -> (r: Result<KisRequest, KisError>)
        ensures
            outcome(r) == quote_spec(self.account_info, path@, tr_id@, market@, ticker@),
            r is Ok ==> r->Ok_0.wf(),
    {
        let headers = [("tr_id", tr_id)];
        let query = [("fid_cond_mrkt_div_code", market), ("fid_input_iscd", ticker)];
        assert(str_pairs(headers@) =~= seq![("tr_id"@, tr_id@)]);
        assert(str_pairs(query@) =~= seq![
            ("fid_cond_mrkt_div_code"@, market@),
            ("fid_input_iscd"@, ticker@),
        ]);
        make_request(&self.account_info, RequestType::GET, path, &headers, &query)
    }

    /// Current price of a domestic stock.
    pub fn get_stock_current_price(&self, ticker: &str) -> (r: Result<KisRequest, KisError>)
        ensures
            outcome(r) == quote_spec(
                self.account_info,
                "/uapi/domestic-stock/v1/quotations/inquire-price"@,
                "FHKST01010100"@,
                "J"@,
                ticker@,
            ),
            r is Ok ==> r->Ok_0.wf(),
    {
        self.quote("/uapi/domestic-stock/v1/quotations/inquire-price", "FHKST01010100", "J", ticker)
    }

    /// Recent trades of a domestic stock.
    pub fn get_stock_current_concluded(&self, ticker: &str) -> (r: Result<KisRequest, KisError>)
        ensures
            outcome(r) == quote_spec(
                self.account_info,
                "/uapi/domestic-stock/v1/quotations/inquire-ccnl"@,
                "FHKST01010300"@,
                "J"@,
                ticker@,
            ),
            r is Ok ==> r->Ok_0.wf(),
    {
        self.quote("/uapi/domestic-stock/v1/quotations/inquire-ccnl", "FHKST01010300", "J", ticker)
    }

    /// Daily prices of a domestic stock, adjusted.
    pub fn get_stock_daily_price(&self, ticker: &str) -> (r: Result<KisRequest, KisError>)
        ensures
            outcome(r) == request_spec(
                self.account_info,
                RequestType::GET,
                "/uapi/domestic-stock/v1/quotations/inquire-daily-price"@,
                seq![("tr_id"@, "FHKST01010400"@)],
                seq![
                    ("fid_cond_mrkt_div_code"@, "J"@),
                    ("fid_input_iscd"@, ticker@),
                    ("fid_org_adj_prc"@, "1"@),
                    ("fid_period_div_code"@, "D"@),
                ],
            ),
            r is Ok ==> r->Ok_0.wf(),
    {
        let headers = [("tr_id", "FHKST01010400")];
        let query = [
            ("fid_cond_mrkt_div_code", "J"),
            ("fid_input_iscd", ticker),
            ("fid_org_adj_prc", "1"),
            ("fid_period_div_code", "D"),
        ];
        assert(str_pairs(headers@) =~= seq![("tr_id"@, "FHKST01010400"@)]);
        assert(str_pairs(query@) =~= seq![
            ("fid_cond_mrkt_div_code"@, "J"@),
            ("fid_input_iscd"@, ticker@),
            ("fid_org_adj_prc"@, "1"@),
            ("fid_period_div_code"@, "D"@),
        ]);
        make_request(
            &self.account_info,
            RequestType::GET,
            "/uapi/domestic-stock/v1/quotations/inquire-daily-price",
            &headers,
            &query,
        )
    }

    /// Bid and ask prices, with the expected trade, of a domestic stock.
    pub fn get_stock_bid_ask_prices(&self, ticker: &str) -> (r: Result<KisRequest, KisError>)
        ensures
            outcome(r) == quote_spec(
                self.account_info,
                "/uapi/domestic-stock/v1/quotations/inquire-asking-price-exp-ccn"@,
                "FHKST01010200"@,
                "J"@,
                ticker@,
            ),
            r is Ok ==> r->Ok_0.wf(),
    {
        self.quote(
            "/uapi/domestic-stock/v1/quotations/inquire-asking-price-exp-ccn",
            "FHKST01010200",
            "J",
            ticker,
        )
    }

    /// Trading by investor class of a domestic stock.
    pub fn get_stock_investor_list(&self, ticker: &str) -> (r: Result<KisRequest, KisError>)
        ensures
            outcome(r) == quote_spec(
                self.account_info,
                "/uapi/domestic-stock/v1/quotations/inquire-investor"@,
                "FHKST01010900"@,
                "J"@,
                ticker@,
            ),
            r is Ok ==> r->Ok_0.wf(),
    {
        self.quote("/uapi/domestic-stock/v1/quotations/inquire-investor", "FHKST01010900", "J", ticker)
    }

    /// Trading by member firm of a domestic stock.
    pub fn get_stock_membership_list(&self, ticker: &str) -> (r: Result<KisRequest, KisError>)
        ensures
            outcome(r) == quote_spec(
                self.account_info,
                "/uapi/domestic-stock/v1/quotations/inquire-member"@,
                "FHKST01010600"@,
                "J"@,
                ticker@,
            ),
            r is Ok ==> r->Ok_0.wf(),
    {
        self.quote("/uapi/domestic-stock/v1/quotations/inquire-member", "FHKST01010600", "J", ticker)
    }

    /// Current price of an ELW.
    pub fn get_stock_elw_price(&self, ticker: &str) -> (r: Result<KisRequest, KisError>)
        ensures
            outcome(r) == quote_spec(
                self.account_info,
                "/uapi/domestic-stock/v1/quotations/inquire-elw-price"@,
                "FHKEW15010000"@,
                "W"@,
                ticker@,
            ),
            r is Ok ==> r->Ok_0.wf(),
    {
        self.quote("/uapi/domestic-stock/v1/quotations/inquire-elw-price", "FHKEW15010000", "W", ticker)
    }

    /// Prices of a domestic stock over `begin`..`end`, by `duration`
    /// (day, week, month or year), adjusted.
    pub fn get_stock_duration_prices(&self, ticker: &str, begin: &str, end: &str, duration: &str) -> (r:
        Result<KisRequest, KisError>)
        ensures
            outcome(r) == request_spec(
                self.account_info,
                RequestType::GET,
                "/uapi/domestic-stock/v1/quotations/inquire-daily-itemchartprice"@,
                seq![("tr_id"@, "[실전투자]"@)],
                seq![
                    ("fid_cond_mrkt_div_code"@, "J"@),
                    ("fid_input_iscd"@, ticker@),
                    ("fid_input_date_1"@, begin@),
                    ("fid_input_date_2"@, end@),
                    ("fid_period_div_code"@, duration@),
                    ("FID_ORG_ADJ_PRC"@, "0"@),
                ],
            ),
            r is Ok ==> r->Ok_0.wf(),
    {
        let headers = [("tr_id", "[실전투자]")];
        let query = [
            ("fid_cond_mrkt_div_code", "J"),
            ("fid_input_iscd", ticker),
            ("fid_input_date_1", begin),
            ("fid_input_date_2", end),
            ("fid_period_div_code", duration),
            ("FID_ORG_ADJ_PRC", "0"),
        ];
        assert(str_pairs(headers@) =~= seq![("tr_id"@, "[실전투자]"@)]);
        assert(str_pairs(query@) =~= seq![
            ("fid_cond_mrkt_div_code"@, "J"@),
            ("fid_input_iscd"@, ticker@),
            ("fid_input_date_1"@, begin@),
            ("fid_input_date_2"@, end@),
            ("fid_period_div_code"@, duration@),
            ("FID_ORG_ADJ_PRC"@, "0"@),
        ]);
        make_request(
            &self.account_info,
            RequestType::GET,
            "/uapi/domestic-stock/v1/quotations/inquire-daily-itemchartprice",
            &headers,
            &query,
        )
    }

    /// Index prices of a sector over `begin`..`end`, by `duration`.
    pub fn get_sector_duration_prices(&self, section: &str, begin: &str, end: &str, duration: &str) -> (r:
        Result<KisRequest, KisError>)
        ensures
            outcome(r) == request_spec(
                self.account_info,
                RequestType::GET,
                "/uapi/domestic-stock/v1/quotations/inquire-daily-indexchartprice"@,
                seq![("tr_id"@, "[실전투자]"@)],
                seq![
                    ("fid_cond_mrkt_div_code"@, "U"@),
                    ("fid_input_iscd"@, section@),
                    ("fid_input_date_1"@, begin@),
                    ("fid_input_date_2"@, end@),
                    ("fid_period_div_code"@, duration@),
                ],
            ),
            r is Ok ==> r->Ok_0.wf(),
    {
        let headers = [("tr_id", "[실전투자]")];
        let query = [
            ("fid_cond_mrkt_div_code", "U"),
            ("fid_input_iscd", section),
            ("fid_input_date_1", begin),
            ("fid_input_date_2", end),
            ("fid_period_div_code", duration),
        ];
        assert(str_pairs(headers@) =~= seq![("tr_id"@, "[실전투자]"@)]);
        assert(str_pairs(query@) =~= seq![
            ("fid_cond_mrkt_div_code"@, "U"@),
            ("fid_input_iscd"@, section@),
            ("fid_input_date_1"@, begin@),
            ("fid_input_date_2"@, end@),
            ("fid_period_div_code"@, duration@),
        ]);
        make_request(
            &self.account_info,
            RequestType::GET,
            "/uapi/domestic-stock/v1/quotations/inquire-daily-indexchartprice",
            &headers,
            &query,
        )
    }
}

/// A held token is reused: when the configuration holds a token, the token
/// step asks for no request. Since a completed issuance leaves a token held,
/// two token steps in succession send at most one token request.
pub proof fn lemma_token_requested_at_most_once(conf: AccountConfig)
    requires
        conf.token_issued(),
    ensures
        token_step_spec(conf) == Ok::<Option<RequestModel>, KisError>(None),
{
}

/// The hashkey request of an order and the signed order request carry the
/// same parameter set, for every order and every signature.
pub proof fn lemma_signed_order_keeps_parameters(
    conf: AccountConfig,
    ticker: Seq<char>,
    order_type: Seq<char>,
    count: u32,
    price: u32,
    draft: OrderDraft,
    hashkey: Seq<char>,
)
    requires
        request_spec(
            conf,
            RequestType::POST,
            "/uapi/hashkey"@,
            seq![],
            order_parameters(conf, ticker, order_type, count, price),
        ) == Ok::<RequestModel, KisError>(draft.signing@),
    ensures
        signed_order_spec(conf, draft, hashkey) matches Ok(m) ==> m.parameters == draft.signing@.parameters
            && m.parameters == pairs_map(order_parameters(conf, ticker, order_type, count, price)),
{
    assert(seeded_parameters(RequestType::POST, conf) =~= Map::empty());
}

/// The balance inquiry carries `TTTC8434R` for a real account and
/// `VTTC8434R` in simulation, whatever else the configuration holds.
pub proof fn lemma_balance_tr_id(conf: AccountConfig)
    ensures
        request_spec(
            conf,
            RequestType::GET,
            "/uapi/domestic-stock/v1/trading/inquire-balance"@,
            seq![("tr_id"@, balance_tr_id(conf.real))],
            balance_parameters(conf),
        ) matches Ok(m) ==> m.headers["tr_id"@] == balance_tr_id(conf.real)
            && (conf.real ==> m.headers["tr_id"@] == "TTTC8434R"@)
            && (!conf.real ==> m.headers["tr_id"@] == "VTTC8434R"@),
{
    reveal_strlit("tr_id");
    assert(lower("tr_id"@) =~= "tr_id"@);
    let s = seq![("tr_id"@, balance_tr_id(conf.real))];
    assert(lower_keys(s) =~= s);
    assert(s.drop_last() =~= seq![]);
}

/// A signed order carries the tag of its side and account class, and the
/// hashkey it was signed with.
pub proof fn lemma_order_tr_id(conf: AccountConfig, draft: OrderDraft, hashkey: Seq<char>)
    ensures
        signed_order_spec(conf, draft, hashkey) matches Ok(m) ==> m.headers["tr_id"@] == order_tr_id(
            draft.buy,
            conf.real,
        ) && m.headers["hashkey"@] == hashkey && m.headers["custtype"@] == "P"@,
{
    reveal_strlit("tr_id");
    reveal_strlit("hashkey");
    reveal_strlit("custtype");
    assert(lower("tr_id"@) =~= "tr_id"@);
    assert(lower("hashkey"@) =~= "hashkey"@);
    assert(lower("custtype"@) =~= "custtype"@);
    let s = order_headers(draft.buy, conf.real, hashkey);
    assert(lower_keys(s) =~= s);
    assert(s.drop_last().drop_last().drop_last() =~= seq![]);
    assert(s.drop_last().drop_last() =~= seq![("custtype"@, "P"@)]);
    assert(s.drop_last() =~= seq![("custtype"@, "P"@), ("tr_id"@, order_tr_id(draft.buy, conf.real))]);
    let a = authorized_headers(RequestType::POST, conf);
    assert(overlay(a, s) == overlay(a, s.drop_last()).insert("hashkey"@, hashkey));
    assert(overlay(a, s.drop_last()) == overlay(a, s.drop_last().drop_last()).insert(
        "tr_id"@,
        order_tr_id(draft.buy, conf.real),
    ));
    assert(overlay(a, s.drop_last().drop_last()) == overlay(a, seq![]).insert("custtype"@, "P"@));
    assert("hashkey"@.len() == 7 && "tr_id"@.len() == 5 && "custtype"@.len() == 8);
    assert("hashkey"@ != "tr_id"@);
    assert("hashkey"@ != "custtype"@);
    assert("tr_id"@ != "custtype"@);
}

} // verus!
