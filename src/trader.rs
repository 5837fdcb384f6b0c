//! A simple trading strategy: the list of stocks to buy and the prices to
//! order them at.
use vstd::prelude::*;

verus! {

/// The buy and sell prices chosen for one stock.
#[derive(Debug, Clone)]
pub struct OrderPrice {
    pub ticker: String,
    pub buy: u32,
    pub sell: u32,
}

/// A strategy that trades each listed stock inside a box of prices.
#[derive(Debug)]
pub struct SimpleTrade {
    pub stock_order_list: Vec<OrderPrice>,
}

/// The index of the first column named `name`, or 0 when none is.
pub open spec fn column_index(headers: Seq<String>, name: Seq<char>) -> int {
    if exists|i: int| 0 <= i < headers.len() && headers[i]@ == name {
        choose|i: int|
            0 <= i < headers.len() && headers[i]@ == name && forall|j: int|
                0 <= j < i ==> headers[j]@ != name
    } else {
        0
    }
}

/// The tickers of a table: a leading `TEST` entry, then the column named
/// `column_name` (the first column when no column has that name), row by row.
/// Every row must reach that column.
pub fn tickers_from_table(headers: &Vec<String>, rows: &Vec<Vec<String>>, column_name: &str) -> (r: Vec<
    String,
>)
    requires
        forall|k: int|
            0 <= k < rows@.len() ==> #[trigger] rows@[k]@.len() > column_index(headers@, column_name@),
    ensures
        r@.len() == rows@.len() + 1,
        r@[0]@ == "TEST"@,
        forall|k: int|
            0 <= k < rows@.len() ==> r@[k + 1]@ == #[trigger] rows@[k]@[column_index(headers@, column_name@)]@,
{
    let name = column_name.to_owned();
    let mut index: usize = 0;
    let mut found = false;
    let mut i: usize = 0;
    while i < headers.len()
        invariant
            i <= headers@.len(),
            name@ == column_name@,
            !found ==> index == 0,
            !found ==> forall|j: int| 0 <= j < i ==> headers@[j]@ != column_name@,
            found ==> index < headers@.len() && headers@[index as int]@ == column_name@ && forall|j: int|
                0 <= j < index ==> headers@[j]@ != column_name@,
        decreases headers@.len() - i,
    {
        if !found && headers[i] == name {
            index = i;
            found = true;
        }
        i = i + 1;
    }
    proof {
        if found {
            let w = index as int;
            assert(exists|i: int| 0 <= i < headers@.len() && headers@[i]@ == column_name@);
            let c = column_index(headers@, column_name@);
            if c < w {
                assert(headers@[c]@ != column_name@);
            }
            assert(c == w);
        }
    }
    let mut result: Vec<String> = Vec::new();
    result.push("TEST".to_owned());
    let mut k: usize = 0;
    while k < rows.len()
        invariant
            k <= rows@.len(),
            index as int == column_index(headers@, column_name@),
            forall|m: int| 0 <= m < rows@.len() ==> #[trigger] rows@[m]@.len() > index,
            result@.len() == k + 1,
            result@[0]@ == "TEST"@,
            forall|m: int| 0 <= m < k ==> result@[m + 1]@ == #[trigger] rows@[m]@[index as int]@,
        decreases rows@.len() - k,
    {
        let row = &rows[k];
        result.push(row[index].clone());
        k = k + 1;
    }
    result
}

impl SimpleTrade {
    /// A strategy with no stock listed yet.
    pub fn new() -> (r: Self)
        ensures
            r.stock_order_list@.len() == 0,
    {
        SimpleTrade { stock_order_list: Vec::new() }
    }

    /// The prices for `stock`; no pricing rule is set, so both are zero.
    pub fn calculate_order_price(&self, stock: &str) -> (r: OrderPrice)
        ensures
            r.ticker@ == stock@,
            r.buy == 0,
            r.sell == 0,
    {
        OrderPrice { ticker: stock.to_owned(), buy: 0, sell: 0 }
    }

    /// Appends the priced entry of each of `stocks`, in order.
    pub fn make_list_stocks_to_buy(&mut self, stocks: &Vec<String>)
        ensures
            final(self).stock_order_list@.len() == old(self).stock_order_list@.len() + stocks@.len(),
            forall|k: int|
                0 <= k < old(self).stock_order_list@.len() ==> final(self).stock_order_list@[k]
                    == old(self).stock_order_list@[k],
            forall|k: int|
                0 <= k < stocks@.len() ==> {
                    let p = #[trigger] final(self).stock_order_list@[old(self).stock_order_list@.len() + k];
                    p.ticker@ == stocks@[k]@ && p.buy == 0 && p.sell == 0
                },
    {
        let ghost start = self.stock_order_list@;
        let mut i: usize = 0;
        while i < stocks.len()
            invariant
                i <= stocks@.len(),
                self.stock_order_list@.len() == start.len() + i,
                forall|k: int| 0 <= k < start.len() ==> self.stock_order_list@[k] == start[k],
                forall|k: int|
                    0 <= k < i ==> {
                        let p = #[trigger] self.stock_order_list@[start.len() + k];
                        p.ticker@ == stocks@[k]@ && p.buy == 0 && p.sell == 0
                    },
            decreases stocks@.len() - i,
        {
            let p = self.calculate_order_price(stocks[i].as_str());
            self.stock_order_list.push(p);
            i = i + 1;
        }
    }
}

} // verus!
