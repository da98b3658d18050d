//! Orders, order requests, and their enum tags.
use vstd::prelude::*;

verus! {

/// Which side of the exchange an order is on.
#[derive(Clone, Copy, Debug, PartialEq, Eq, Structural)]
pub enum Type {
    Buy,
    Sell,
}

/// A currency an amount is denominated in.
#[derive(Clone, Copy, Debug, PartialEq, Eq, Structural)]
pub enum Currency {
    Sat,
    Brl,
    Usd,
    Eur,
    Chf,
}

/// The lowercase tag naming a side.
pub open spec fn type_tag(t: Type) -> Seq<char> {
    match t {
        Type::Buy => seq!['b', 'u', 'y'],
        Type::Sell => seq!['s', 'e', 'l', 'l'],
    }
}

/// The lowercase tag naming a currency.
pub open spec fn currency_tag(c: Currency) -> Seq<char> {
    match c {
        Currency::Sat => seq!['s', 'a', 't'],
        Currency::Brl => seq!['b', 'r', 'l'],
        Currency::Usd => seq!['u', 's', 'd'],
        Currency::Eur => seq!['e', 'u', 'r'],
        Currency::Chf => seq!['c', 'h', 'f'],
    }
}

/// A tag between double quotes: the form a tag takes as a JSON string and
/// in a stored column.
pub open spec fn quoted(s: Seq<char>) -> Seq<char> {
    seq!['"'] + s + seq!['"']
}

/// The side whose stored column text is `s`, if any.
pub open spec fn type_from_column(s: Seq<char>) -> Option<Type> {
    if s == quoted(type_tag(Type::Buy)) {
        Some(Type::Buy)
    } else if s == quoted(type_tag(Type::Sell)) {
        Some(Type::Sell)
    } else {
        None
    }
}

/// The currency whose stored column text is `s`, if any.
pub open spec fn currency_from_column(s: Seq<char>) -> Option<Currency> {
    if s == quoted(currency_tag(Currency::Sat)) {
        Some(Currency::Sat)
    } else if s == quoted(currency_tag(Currency::Brl)) {
        Some(Currency::Brl)
    } else if s == quoted(currency_tag(Currency::Usd)) {
        Some(Currency::Usd)
    } else if s == quoted(currency_tag(Currency::Eur)) {
        Some(Currency::Eur)
    } else if s == quoted(currency_tag(Currency::Chf)) {
        Some(Currency::Chf)
    } else {
        None
    }
}

/// Whether two strings hold the same characters.
pub fn same_text(a: &str, b: &str) -> (r: bool)
    ensures
        r == (a@ == b@),
{
    let n = a.unicode_len();
    if n != b.unicode_len() {
        return false;
    }
    let mut i: usize = 0;
    while i < n
        invariant
            n == a@.len(),
            n == b@.len(),
            i <= n,
            a@.subrange(0, i as int) == b@.subrange(0, i as int),
        decreases n - i,
    {
        if a.get_char(i) != b.get_char(i) {
            return false;
        }
        assert(a@.subrange(0, i + 1) == a@.subrange(0, i as int).push(a@[i as int]));
        assert(b@.subrange(0, i + 1) == b@.subrange(0, i as int).push(b@[i as int]));
        i = i + 1;
    }
    assert(a@ == a@.subrange(0, n as int));
    assert(b@ == b@.subrange(0, n as int));
    true
}

/// The number of sides.
pub const TYPE_COUNT: usize = 2;

/// The number of currencies.
pub const CURRENCY_COUNT: usize = 5;

impl Type {
    /// The side at position `i` of the order Buy, Sell.
    pub fn from_index(i: usize) -> (r: Type)
        requires
            i < TYPE_COUNT,
        ensures
            r == (if i == 0 {
                Type::Buy
            } else {
                Type::Sell
            }),
    {
        if i == 0 {
            Type::Buy
        } else {
            Type::Sell
        }
    }

    /// The side's tag.
    pub fn tag(&self) -> (r: &'static str)
        ensures
            r@ == type_tag(*self),
    {
        match self {
            Type::Buy => {
                proof {
                    reveal_strlit("buy");
                }
                "buy"
            },
            Type::Sell => {
                proof {
                    reveal_strlit("sell");
                }
                "sell"
            },
        }
    }

    /// The text stored in a column for this side: its tag as a JSON string.
    pub fn to_column(&self) -> (r: String)
        ensures
            r@ == quoted(type_tag(*self)),
    {
        let mut r = String::from_str("\"");
        r.append(self.tag());
        r.append("\"");
        proof {
            reveal_strlit("\"");
        }
        r
    }

    /// The side stored as `s`, or `None` where `s` is no side's column text.
    pub fn from_column(s: &str) -> (r: Option<Type>)
        ensures
            r == type_from_column(s@),
    {
        let buy = Type::Buy.to_column();
        let sell = Type::Sell.to_column();
        if same_text(s, buy.as_str()) {
            Some(Type::Buy)
        } else if same_text(s, sell.as_str()) {
            Some(Type::Sell)
        } else {
            None
        }
    }
}

impl Currency {
    /// The currency at position `i` of the order Sat, Brl, Usd, Eur, Chf.
    pub fn from_index(i: usize) -> (r: Currency)
        requires
            i < CURRENCY_COUNT,
        ensures
            r == seq![Currency::Sat, Currency::Brl, Currency::Usd, Currency::Eur, Currency::Chf][i as int],
    {
        if i == 0 {
            Currency::Sat
        } else if i == 1 {
            Currency::Brl
        } else if i == 2 {
            Currency::Usd
        } else if i == 3 {
            Currency::Eur
        } else {
            Currency::Chf
        }
    }

    /// The currency's tag.
    pub fn tag(&self) -> (r: &'static str)
        ensures
            r@ == currency_tag(*self),
    {
        match self {
            Currency::Sat => {
                proof {
                    reveal_strlit("sat");
                }
                "sat"
            },
            Currency::Brl => {
                proof {
                    reveal_strlit("brl");
                }
                "brl"
            },
            Currency::Usd => {
                proof {
                    reveal_strlit("usd");
                }
                "usd"
            },
            Currency::Eur => {
                proof {
                    reveal_strlit("eur");
                }
                "eur"
            },
            Currency::Chf => {
                proof {
                    reveal_strlit("chf");
                }
                "chf"
            },
        }
    }

    /// The text stored in a column for this currency: its tag as a JSON string.
    pub fn to_column(&self) -> (r: String)
        ensures
            r@ == quoted(currency_tag(*self)),
    {
        let mut r = String::from_str("\"");
        r.append(self.tag());
        r.append("\"");
        proof {
            reveal_strlit("\"");
        }
        r
    }

    /// The currency stored as `s`, or `None` where `s` is no currency's column text.
    pub fn from_column(s: &str) -> (r: Option<Currency>)
        ensures
            r == currency_from_column(s@),
    {
        let all = [Currency::Sat, Currency::Brl, Currency::Usd, Currency::Eur, Currency::Chf];
        let mut i: usize = 0;
        while i < 5
            invariant
                0 <= i <= 5,
                all@ == seq![Currency::Sat, Currency::Brl, Currency::Usd, Currency::Eur, Currency::Chf],
                forall|j: int| 0 <= j < i ==> s@ != quoted(currency_tag(#[trigger] all@[j])),
            decreases 5 - i,
        {
            let c = all[i];
            let text = c.to_column();
            if same_text(s, text.as_str()) {
                return Some(c);
            }
            i = i + 1;
        }
        assert(s@ != quoted(currency_tag(all@[0])));
        assert(s@ != quoted(currency_tag(all@[1])));
        assert(s@ != quoted(currency_tag(all@[2])));
        assert(s@ != quoted(currency_tag(all@[3])));
        assert(s@ != quoted(currency_tag(all@[4])));
        None
    }
}

/// An amount: the bit pattern of an IEEE-754 single-precision number.
///
/// Amounts are carried, stored and returned, never computed with.
#[derive(Clone, Copy, Debug, PartialEq, Eq, Structural)]
pub struct Amount {
    pub bits: u32,
}

/// What a client submits to create an order: every field of an order but its id.
#[derive(Clone, Copy, Debug, PartialEq, Eq, Structural)]
pub struct OrderRequest {
    pub kind: Type,
    pub make_amount: Amount,
    pub make_denomination: Currency,
    pub take_amount: Amount,
    pub take_denomination: Currency,
}

/// A stored offer to exchange the make amount for the take amount.
#[derive(Debug)]
pub struct Order {
    pub id: String,
    pub kind: Type,
    pub make_amount: Amount,
    pub make_denomination: Currency,
    pub take_amount: Amount,
    pub take_denomination: Currency,
}

/// An order as a mathematical value.
pub struct OrderView {
    pub id: Seq<char>,
    pub kind: Type,
    pub make_amount: Amount,
    pub make_denomination: Currency,
    pub take_amount: Amount,
    pub take_denomination: Currency,
}

impl View for Order {
    type V = OrderView;

    open spec fn view(&self) -> OrderView {
        OrderView {
            id: self.id@,
            kind: self.kind,
            make_amount: self.make_amount,
            make_denomination: self.make_denomination,
            take_amount: self.take_amount,
            take_denomination: self.take_denomination,
        }
    }
}

/// The order that a request becomes once it has been given `id`.
pub open spec fn order_of(id: Seq<char>, req: OrderRequest) -> OrderView {
    OrderView {
        id: id,
        kind: req.kind,
        make_amount: req.make_amount,
        make_denomination: req.make_denomination,
        take_amount: req.take_amount,
        take_denomination: req.take_denomination,
    }
}

impl Order {
    /// The order made of `req` under the id `id`.
    pub fn from_request(id: String, req: &OrderRequest) -> (r: Order)
        ensures
            r@ == order_of(id@, *req),
    {
        Order {
            id,
            kind: req.kind,
            make_amount: req.make_amount,
            make_denomination: req.make_denomination,
            take_amount: req.take_amount,
            take_denomination: req.take_denomination,
        }
    }
}

/// One row of the orders table, column by column: the enums as their stored
/// text, the amounts as the single-precision values the table holds.
#[derive(Debug)]
pub struct StoredRow {
    pub id: String,
    pub kind: String,
    pub make_amount: Amount,
    pub make_denomination: String,
    pub take_amount: Amount,
    pub take_denomination: String,
}

/// A row as a mathematical value.
pub struct RowView {
    pub id: Seq<char>,
    pub kind: Seq<char>,
    pub make_amount: Amount,
    pub make_denomination: Seq<char>,
    pub take_amount: Amount,
    pub take_denomination: Seq<char>,
}

impl View for StoredRow {
    type V = RowView;

    open spec fn view(&self) -> RowView {
        RowView {
            id: self.id@,
            kind: self.kind@,
            make_amount: self.make_amount,
            make_denomination: self.make_denomination@,
            take_amount: self.take_amount,
            take_denomination: self.take_denomination@,
        }
    }
}

/// The row that stores `o`.
pub open spec fn row_of(o: OrderView) -> RowView {
    RowView {
        id: o.id,
        kind: quoted(type_tag(o.kind)),
        make_amount: o.make_amount,
        make_denomination: quoted(currency_tag(o.make_denomination)),
        take_amount: o.take_amount,
        take_denomination: quoted(currency_tag(o.take_denomination)),
    }
}

/// The order a row stores, or `None` where one of its enum columns holds no known tag.
pub open spec fn order_of_row(r: RowView) -> Option<OrderView> {
    match (
        type_from_column(r.kind),
        currency_from_column(r.make_denomination),
        currency_from_column(r.take_denomination),
    ) {
        (Some(kind), Some(make), Some(take)) => Some(
            OrderView {
                id: r.id,
                kind: kind,
                make_amount: r.make_amount,
                make_denomination: make,
                take_amount: r.take_amount,
                take_denomination: take,
            },
        ),
        _ => None,
    }
}

/// The orders a listing of `rows` yields, in row order: rows that do not
/// decode are left out.
pub open spec fn orders_of_rows(rows: Seq<RowView>) -> Seq<OrderView>
    decreases rows.len(),
{
    if rows.len() == 0 {
        Seq::empty()
    } else {
        let front = orders_of_rows(rows.drop_last());
        match order_of_row(rows.last()) {
            Some(o) => front.push(o),
            None => front,
        }
    }
}

/// The views of a sequence of rows.
pub open spec fn rows_view(rows: Seq<StoredRow>) -> Seq<RowView> {
    rows.map_values(|r: StoredRow| r@)
}

/// The views of a sequence of orders.
pub open spec fn orders_view(orders: Seq<Order>) -> Seq<OrderView> {
    orders.map_values(|o: Order| o@)
}

/// The row that stores `o`.
pub fn encode_row(o: &Order) -> (r: StoredRow)
    ensures
        r@ == row_of(o@),
{
    StoredRow {
        id: o.id.clone(),
        kind: o.kind.to_column(),
        make_amount: o.make_amount,
        make_denomination: o.make_denomination.to_column(),
        take_amount: o.take_amount,
        take_denomination: o.take_denomination.to_column(),
    }
}

/// The order `row` stores, or `None` where an enum column holds no known tag.
pub fn decode_row(row: &StoredRow) -> (r: Option<Order>)
    ensures
        match r {
            Some(o) => order_of_row(row@) == Some(o@),
            None => order_of_row(row@) is None,
        },
{
    let kind = Type::from_column(row.kind.as_str());
    let make = Currency::from_column(row.make_denomination.as_str());
    let take = Currency::from_column(row.take_denomination.as_str());
    match (kind, make, take) {
        (Some(kind), Some(make), Some(take)) => Some(
            Order {
                id: row.id.clone(),
                kind,
                make_amount: row.make_amount,
                make_denomination: make,
                take_amount: row.take_amount,
                take_denomination: take,
            },
        ),
        _ => None,
    }
}

/// The orders of a listing: each row decoded in turn, those that do not
/// decode dropped without error.
pub fn decode_rows(rows: &Vec<StoredRow>) -> (r: Vec<Order>)
    ensures
        orders_view(r@) == orders_of_rows(rows_view(rows@)),
{
    let mut out: Vec<Order> = Vec::new();
    let mut i: usize = 0;
    while i < rows.len()
        invariant
            i <= rows.len(),
            orders_view(out@) == orders_of_rows(rows_view(rows@.subrange(0, i as int))),
        decreases rows.len() - i,
    {
        let ghost before = out@;
        assert(rows@.subrange(0, i + 1).drop_last() == rows@.subrange(0, i as int));
        assert(rows_view(rows@.subrange(0, i + 1)).drop_last() == rows_view(
            rows@.subrange(0, i as int),
        ));
        assert(rows_view(rows@.subrange(0, i + 1)).last() == rows@[i as int]@);
        match decode_row(&rows[i]) {
            Some(o) => {
                out.push(o);
                assert(orders_view(out@) == orders_view(before).push(o@));
            },
            None => {},
        }
        i = i + 1;
    }
    assert(rows@.subrange(0, rows.len() as int) == rows@);
    out
}

} // verus!
