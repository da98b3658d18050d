//! What holds across calls: listing after a create or a delete, deleting an
//! absent id, and the preflight response.
use vstd::prelude::*;
use crate::model::{
    currency_from_column, currency_tag, order_of, order_of_row, orders_of_rows, quoted, row_of,
    type_from_column, type_tag, Currency, OrderRequest, OrderView, RowView, Type,
};
use crate::response::{options_response, preflight_headers, wire_message};
use crate::service::{delete_outcome, order_not_found, route_of, RouteView};

verus! {

broadcast use vstd::seq_lib::group_seq_properties;

/// The orders among `orders` whose id is `id`.
pub open spec fn with_id(orders: Seq<OrderView>, id: Seq<char>) -> Seq<OrderView> {
    orders.filter(|o: OrderView| o.id == id)
}

/// The rows a table holding `rows` holds once the rows with id `id` are
/// deleted, in their order.
pub open spec fn rows_without(rows: Seq<RowView>, id: Seq<char>) -> Seq<RowView> {
    rows.filter(|r: RowView| r.id != id)
}

proof fn lemma_type_column(t: Type)
    ensures
        type_from_column(quoted(type_tag(t))) == Some(t),
{
    let buy = quoted(type_tag(Type::Buy));
    let sell = quoted(type_tag(Type::Sell));
    assert(buy.len() != sell.len());
}

proof fn lemma_currency_column(c: Currency)
    ensures
        currency_from_column(quoted(currency_tag(c))) == Some(c),
{
    let sat = quoted(currency_tag(Currency::Sat));
    let brl = quoted(currency_tag(Currency::Brl));
    let usd = quoted(currency_tag(Currency::Usd));
    let eur = quoted(currency_tag(Currency::Eur));
    let chf = quoted(currency_tag(Currency::Chf));
    assert(sat[1] == 's' && brl[1] == 'b' && usd[1] == 'u' && eur[1] == 'e' && chf[1] == 'c');
}

/// A stored order reads back as itself.
pub proof fn lemma_row_round_trip(o: OrderView)
    ensures
        order_of_row(row_of(o)) == Some(o),
{
    lemma_type_column(o.kind);
    lemma_currency_column(o.make_denomination);
    lemma_currency_column(o.take_denomination);
}

/// Listing decodes row by row: the orders of two runs of rows are those of
/// the first run followed by those of the second.
pub proof fn lemma_orders_of_concat(a: Seq<RowView>, b: Seq<RowView>)
    ensures
        orders_of_rows(a + b) == orders_of_rows(a) + orders_of_rows(b),
    decreases b.len(),
{
    if b.len() == 0 {
        assert(a + b =~= a);
        assert(orders_of_rows(a) + orders_of_rows(b) =~= orders_of_rows(a));
    } else {
        lemma_orders_of_concat(a, b.drop_last());
        assert((a + b).drop_last() =~= a + b.drop_last());
        assert((a + b).last() == b.last());
        match order_of_row(b.last()) {
            Some(o) => {
                assert(orders_of_rows(a) + orders_of_rows(b) =~= (orders_of_rows(a)
                    + orders_of_rows(b.drop_last())).push(o));
            },
            None => {},
        }
    }
}

/// A listing of rows none of which has id `id` holds no order with that id.
pub proof fn lemma_listing_without_id(rows: Seq<RowView>, id: Seq<char>)
    requires
        forall|i: int| 0 <= i < rows.len() ==> (#[trigger] rows[i]).id != id,
    ensures
        with_id(orders_of_rows(rows), id) == Seq::<OrderView>::empty(),
        forall|j: int|
            0 <= j < orders_of_rows(rows).len() ==> (#[trigger] orders_of_rows(rows)[j]).id != id,
    decreases rows.len(),
{
    if rows.len() > 0 {
        let front = rows.drop_last();
        assert forall|i: int| 0 <= i < front.len() implies (#[trigger] front[i]).id != id by {
            assert(front[i] == rows[i]);
        }
        lemma_listing_without_id(front, id);
        assert(rows.last() == rows[rows.len() - 1]);
        match order_of_row(rows.last()) {
            Some(o) => {
                let orders = orders_of_rows(rows);
                assert(orders == orders_of_rows(front).push(o));
                assert(orders.drop_last() == orders_of_rows(front));
                assert forall|j: int| 0 <= j < orders.len() implies (#[trigger] orders[j]).id
                    != id by {
                    if j < orders.len() - 1 {
                        assert(orders[j] == orders_of_rows(front)[j]);
                    }
                }
                reveal(Seq::filter);
                assert(with_id(orders, id) =~= with_id(orders_of_rows(front), id));
            },
            None => {},
        }
    }
}

/// Creating an order and then listing: wherever the store lists the new row
/// among rows none of which has the new id, the listing holds exactly one
/// order with that id, and it is the request's fields under that id.
pub proof fn create_then_list(
    req: OrderRequest,
    id: Seq<char>,
    front: Seq<RowView>,
    back: Seq<RowView>,
)
    requires
        forall|i: int| 0 <= i < front.len() ==> (#[trigger] front[i]).id != id,
        forall|i: int| 0 <= i < back.len() ==> (#[trigger] back[i]).id != id,
    ensures
        with_id(orders_of_rows(front + seq![row_of(order_of(id, req))] + back), id) == seq![
            order_of(id, req),
        ],
{
    let o = order_of(id, req);
    let single = seq![row_of(o)];
    lemma_row_round_trip(o);
    assert(single.drop_last() =~= Seq::<RowView>::empty());
    assert(orders_of_rows(single.drop_last()) =~= Seq::<OrderView>::empty());
    assert(orders_of_rows(single) =~= seq![o]);
    lemma_orders_of_concat(front, single);
    lemma_orders_of_concat(front + single, back);
    lemma_listing_without_id(front, id);
    lemma_listing_without_id(back, id);
    let pred = |x: OrderView| x.id == id;
    let all = orders_of_rows(front + single + back);
    assert(all == orders_of_rows(front) + seq![o] + orders_of_rows(back));
    Seq::filter_distributes_over_add(
        orders_of_rows(front) + seq![o],
        orders_of_rows(back),
        pred,
    );
    Seq::filter_distributes_over_add(orders_of_rows(front), seq![o], pred);
    assert(seq![o].drop_last() =~= Seq::<OrderView>::empty());
    reveal(Seq::filter);
    assert(seq![o].drop_last().filter(pred) =~= Seq::<OrderView>::empty());
    assert(seq![o].filter(pred) =~= seq![o]);
    assert(with_id(all, id) =~= seq![o]);
}

/// Deleting and then listing: once the rows with id `id` are deleted, no
/// listing of the table holds an order with that id.
pub proof fn delete_then_list(rows: Seq<RowView>, id: Seq<char>)
    ensures
        with_id(orders_of_rows(rows_without(rows, id)), id) == Seq::<OrderView>::empty(),
{
    let after = rows_without(rows, id);
    assert forall|i: int| 0 <= i < after.len() implies (#[trigger] after[i]).id != id by {
        rows.lemma_filter_pred(|r: RowView| r.id != id, i);
    }
    lemma_listing_without_id(after, id);
}

/// Deleting an id that no row has removes nothing and leaves the table as it
/// was, so the answer is "not found", and stays so however often it is repeated.
pub proof fn delete_absent(rows: Seq<RowView>, id: Seq<char>)
    requires
        forall|i: int| 0 <= i < rows.len() ==> (#[trigger] rows[i]).id != id,
    ensures
        rows_without(rows, id) == rows,
        delete_outcome(id, Ok((rows.len() - rows_without(rows, id).len()) as nat))
            == order_not_found(id),
    decreases rows.len(),
{
    if rows.len() > 0 {
        let front = rows.drop_last();
        assert forall|i: int| 0 <= i < front.len() implies (#[trigger] front[i]).id != id by {
            assert(front[i] == rows[i]);
        }
        delete_absent(front, id);
        assert(rows.last() == rows[rows.len() - 1]);
        reveal(Seq::filter);
        assert(rows_without(rows, id) =~= rows_without(front, id).push(rows.last()));
        assert(front.push(rows.last()) =~= rows);
    }
}

/// A preflight is answered the same whatever the path and whatever the store
/// holds: status 204, the cross-origin headers, an empty body.
pub proof fn preflight_neutral(path: Seq<char>)
    ensures
        route_of("OPTIONS"@, path) == RouteView::Preflight,
        options_response() == wire_message(204, "No Content"@, preflight_headers(), Seq::empty()),
{
}

} // verus!
