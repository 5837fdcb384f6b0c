//! The real-time order-book stream: the subscription it starts with, and
//! the decoding of its frames.
//!
//! A frame is `|`-separated; its first field is a tag, and a data frame
//! (tag `0`) carries in its fourth field a `^`-separated payload of 59
//! positional fields. Other tags mark control frames, which carry no record.
use vstd::prelude::*;
use crate::account::AccountConfig;
use crate::error::KisError;
use crate::split::{free_of, join_spec, lemma_split_join, lemma_split_len, split_spec, split_text};

verus! {

/// Number of positional fields of an order-book payload.
pub const ORDER_BOOK_FIELDS: usize = 59;

/// The view of a list of texts.
pub open spec fn texts(v: Seq<String>) -> Seq<Seq<char>> {
    v.map_values(|x: String| x@)
}

/// One order-book snapshot, field by field as the payload gives it.
#[derive(Debug, Clone)]
pub struct OrderBookRecord {
    /// Instrument code (position 0).
    pub code: String,
    /// Business time (1).
    pub time: String,
    /// Session-type code (2).
    pub session_type: String,
    /// Ask prices, best first (3 to 12).
    pub ask_prices: Vec<String>,
    /// Bid prices, best first (13 to 22).
    pub bid_prices: Vec<String>,
    /// Ask quantities, best first (23 to 32).
    pub ask_quantities: Vec<String>,
    /// Bid quantities, best first (33 to 42).
    pub bid_quantities: Vec<String>,
    /// (43)
    pub total_ask_quantity: String,
    /// (44)
    pub total_bid_quantity: String,
    /// (45)
    pub overtime_total_ask_quantity: String,
    /// (46)
    pub overtime_total_bid_quantity: String,
    /// Expected trade price (47).
    pub expected_price: String,
    /// Expected trade quantity (48).
    pub expected_quantity: String,
    /// Expected volume (49).
    pub expected_volume: String,
    /// Expected change against the previous close (50).
    pub expected_change: String,
    /// Sign of that change (51).
    pub expected_change_sign: String,
    /// Rate of that change (52).
    pub expected_change_rate: String,
    /// Cumulative volume (53).
    pub accumulated_volume: String,
    /// (54)
    pub total_ask_quantity_delta: String,
    /// (55)
    pub total_bid_quantity_delta: String,
    /// (56)
    pub overtime_total_ask_quantity_delta: String,
    /// (57)
    pub overtime_total_bid_quantity_delta: String,
    /// Trade-type code (58).
    pub trade_type_code: String,
}

impl OrderBookRecord {
    pub open spec fn wf(&self) -> bool {
        &&& self.ask_prices@.len() == 10
        &&& self.bid_prices@.len() == 10
        &&& self.ask_quantities@.len() == 10
        &&& self.bid_quantities@.len() == 10
    }

    /// The record's fields in payload order.
    pub open spec fn fields(&self) -> Seq<Seq<char>> {
        seq![self.code@, self.time@, self.session_type@] + texts(self.ask_prices@) + texts(
            self.bid_prices@,
        ) + texts(self.ask_quantities@) + texts(self.bid_quantities@) + seq![
            self.total_ask_quantity@,
            self.total_bid_quantity@,
            self.overtime_total_ask_quantity@,
            self.overtime_total_bid_quantity@,
            self.expected_price@,
            self.expected_quantity@,
            self.expected_volume@,
            self.expected_change@,
            self.expected_change_sign@,
            self.expected_change_rate@,
            self.accumulated_volume@,
            self.total_ask_quantity_delta@,
            self.total_bid_quantity_delta@,
            self.overtime_total_ask_quantity_delta@,
            self.overtime_total_bid_quantity_delta@,
            self.trade_type_code@,
        ]
    }
}

/// What a frame decodes to: no record for a control frame, the payload's
/// first 59 fields for a data frame, and a decode error for a data frame
/// with fewer than four fields or a payload with fewer than 59.
pub open spec fn decode_spec(frame: Seq<char>) -> Result<Option<Seq<Seq<char>>>, KisError> {
    let parts = split_spec(frame, '|');
    if parts[0] != "0"@ {
        Ok(None)
    } else if parts.len() < 4 {
        Err(KisError::Decode)
    } else {
        let values = split_spec(parts[3], '^');
        if values.len() < 59 {
            Err(KisError::Decode)
        } else {
            Ok(Some(values.take(59)))
        }
    }
}

/// Copies of `values[from..to]`.
fn copy_range(values: &Vec<String>, from: usize, to: usize) -> (r: Vec<String>)
    requires
        from <= to <= values@.len(),
    ensures
        texts(r@) == texts(values@).subrange(from as int, to as int),
{
    let mut r: Vec<String> = Vec::new();
    let mut i: usize = from;
    while i < to
        invariant
            from <= i <= to <= values@.len(),
            texts(r@) == texts(values@).subrange(from as int, i as int),
        decreases to - i,
    {
        let ghost before = texts(r@);
        r.push(values[i].clone());
        assert(texts(r@) =~= before.push(values@[i as int]@));
        assert(texts(values@).subrange(from as int, i as int + 1) =~= texts(values@).subrange(
            from as int,
            i as int,
        ).push(values@[i as int]@));
        i = i + 1;
    }
    r
}

impl OrderBookRecord {
    /// The record whose fields are the first 59 of `values`, in order.
    pub fn from_values(values: &Vec<String>) -> (r: Self)
        requires
            values@.len() >= 59,
        ensures
            r.wf(),
            r.fields() == texts(values@).take(59),
    {
        let r = OrderBookRecord {
            code: values[0].clone(),
            time: values[1].clone(),
            session_type: values[2].clone(),
            ask_prices: copy_range(values, 3, 13),
            bid_prices: copy_range(values, 13, 23),
            ask_quantities: copy_range(values, 23, 33),
            bid_quantities: copy_range(values, 33, 43),
            total_ask_quantity: values[43].clone(),
            total_bid_quantity: values[44].clone(),
            overtime_total_ask_quantity: values[45].clone(),
            overtime_total_bid_quantity: values[46].clone(),
            expected_price: values[47].clone(),
            expected_quantity: values[48].clone(),
            expected_volume: values[49].clone(),
            expected_change: values[50].clone(),
            expected_change_sign: values[51].clone(),
            expected_change_rate: values[52].clone(),
            accumulated_volume: values[53].clone(),
            total_ask_quantity_delta: values[54].clone(),
            total_bid_quantity_delta: values[55].clone(),
            overtime_total_ask_quantity_delta: values[56].clone(),
            overtime_total_bid_quantity_delta: values[57].clone(),
            trade_type_code: values[58].clone(),
        };
        assert(r.fields() =~= texts(values@).take(59));
        r
    }
}

/// Decodes one stream frame: `None` for a control frame, the record of a
/// data frame, or a decode error for a malformed data frame.
pub fn decode_frame(frame: &str) -> (r: Result<Option<OrderBookRecord>, KisError>)
    ensures
        match r {
            Ok(Some(rec)) => rec.wf() && decode_spec(frame@) == Ok::<
                Option<Seq<Seq<char>>>,
                KisError,
            >(Some(rec.fields())),
            Ok(None) => decode_spec(frame@) == Ok::<Option<Seq<Seq<char>>>, KisError>(None),
            Err(e) => decode_spec(frame@) == Err::<Option<Seq<Seq<char>>>, KisError>(e),
        },
{
    let parts = split_text(frame, '|');
    proof {
        lemma_split_len(frame@, '|');
        assert(texts(parts@) == split_spec(frame@, '|'));
    }
    let data_tag = "0".to_owned();
    assert(parts@[0]@ == texts(parts@)[0]);
    if parts[0] != data_tag {
        return Ok(None);
    }
    if parts.len() < 4 {
        return Err(KisError::Decode);
    }
    assert(parts@[3]@ == texts(parts@)[3]);
    let values = split_text(parts[3].as_str(), '^');
    if values.len() < ORDER_BOOK_FIELDS {
        return Err(KisError::Decode);
    }
    Ok(Some(OrderBookRecord::from_values(&values)))
}

/// The characters of a join are separators or characters of its pieces.
pub proof fn lemma_join_free_of(fs: Seq<Seq<char>>, sep: char, c: char)
    requires
        free_of(fs, c),
        sep != c,
    ensures
        forall|j: int| 0 <= j < join_spec(fs, sep).len() ==> join_spec(fs, sep)[j] != c,
    decreases fs.len(),
{
    if fs.len() == 1 {
        assert forall|j: int| 0 <= j < fs[0].len() implies fs[0][j] != c by {
            assert(fs[0][j] != c);
        }
    } else if fs.len() > 1 {
        let init = fs.drop_last();
        assert(free_of(init, c)) by {
            assert forall|i: int, j: int| 0 <= i < init.len() && 0 <= j < init[i].len() implies init[i][j]
                != c by {
                assert(init[i] == fs[i]);
            }
        }
        lemma_join_free_of(init, sep, c);
        let a = join_spec(init, sep).push(sep);
        let f = fs.last();
        assert forall|j: int| 0 <= j < join_spec(fs, sep).len() implies join_spec(fs, sep)[j] != c by {
            if j >= a.len() {
                assert(join_spec(fs, sep)[j] == f[j - a.len()]);
                assert(fs[fs.len() - 1][j - a.len()] != c);
            } else if j < a.len() - 1 {
                assert(join_spec(fs, sep)[j] == join_spec(init, sep)[j]);
            }
        }
    }
}

/// A data frame whose payload is 59 fields joined with `^` decodes to those
/// very fields, in order, whatever the two fields between tag and payload.
pub proof fn lemma_data_frame_round_trip(
    second: Seq<char>,
    third: Seq<char>,
    fields: Seq<Seq<char>>,
)
    requires
        fields.len() == 59,
        free_of(fields, '^'),
        free_of(fields, '|'),
        free_of(seq![second, third], '|'),
    ensures
        decode_spec(join_spec(seq!["0"@, second, third, join_spec(fields, '^')], '|')) == Ok::<
            Option<Seq<Seq<char>>>,
            KisError,
        >(Some(fields)),
{
    reveal_strlit("0");
    let payload = join_spec(fields, '^');
    lemma_join_free_of(fields, '^', '|');
    let parts = seq!["0"@, second, third, payload];
    assert(free_of(parts, '|')) by {
        assert forall|i: int, j: int| 0 <= i < parts.len() && 0 <= j < parts[i].len() implies parts[i][j]
            != '|' by {
            if i == 1 {
                assert(seq![second, third][0][j] != '|');
            } else if i == 2 {
                assert(seq![second, third][1][j] != '|');
            }
        }
    }
    lemma_split_join(parts, '|');
    lemma_split_join(fields, '^');
    assert(fields.take(59) =~= fields);
}

/// A frame whose tag is not `0` yields no record.
pub proof fn lemma_control_frame_ignored(tag: Seq<char>, rest: Seq<Seq<char>>)
    requires
        tag != "0"@,
        free_of(seq![tag] + rest, '|'),
    ensures
        decode_spec(join_spec(seq![tag] + rest, '|')) == Ok::<Option<Seq<Seq<char>>>, KisError>(None),
{
    lemma_split_join(seq![tag] + rest, '|');
}

/// The subscription message that opens an order-book stream.
#[derive(Debug, Clone)]
pub struct Subscription {
    pub appkey: String,
    pub appsecret: String,
    pub custtype: String,
    pub tr_type: String,
    pub content_type: String,
    pub tr_id: String,
    pub tr_key: String,
}

/// The order-book subscription of instrument `ticker`: a personal customer
/// registering for the `H0STASP0` feed.
pub fn order_book_subscription(conf: &AccountConfig, ticker: &str) -> (r: Subscription)
    ensures
        r.appkey@ == conf.key@,
        r.appsecret@ == conf.secret@,
        r.custtype@ == "P"@,
        r.tr_type@ == "1"@,
        r.content_type@ == "utf-8"@,
        r.tr_id@ == "H0STASP0"@,
        r.tr_key@ == ticker@,
{
    Subscription {
        appkey: conf.get_apikey().to_owned(),
        appsecret: conf.get_secret().to_owned(),
        custtype: "P".to_owned(),
        tr_type: "1".to_owned(),
        content_type: "utf-8".to_owned(),
        tr_id: "H0STASP0".to_owned(),
        tr_key: ticker.to_owned(),
    }
}

/// The stream endpoint of each account class.
pub fn stream_endpoint(live: bool) -> (r: &'static str)
    ensures
        live ==> r@ == "ws://ops.koreainvestment.com:21000"@,
        !live ==> r@ == "ws://ops.koreainvestment.com:31000"@,
{
    if live {
        "ws://ops.koreainvestment.com:21000"
    } else {
        "ws://ops.koreainvestment.com:31000"
    }
}

} // verus!
