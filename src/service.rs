//! The router and the endpoints: what each request asks of the record
//! store, and the response once the store has answered.
use vstd::prelude::*;
use crate::id::{generate_id, is_order_id};
use crate::model::{
    decode_rows, encode_row, order_of, orders_of_rows, orders_view, row_of, rows_view, same_text,
    Order, OrderRequest, StoredRow,
};
use crate::request::{Request, RequestView};
use crate::response::{create_json_response, create_options_response, json_response, options_response};

verus! {

/// The endpoint a request is for.
#[derive(Debug)]
pub enum Route {
    /// `OPTIONS` on any path.
    Preflight,
    /// `GET /orders`.
    ListOrders,
    /// `POST /order`.
    CreateOrder,
    /// `DELETE /order/{id}`, with the id.
    DeleteOrder(String),
    /// Anything else.
    NotFound,
}

/// A route as a mathematical value.
pub enum RouteView {
    Preflight,
    ListOrders,
    CreateOrder,
    DeleteOrder(Seq<char>),
    NotFound,
}

impl View for Route {
    type V = RouteView;

    open spec fn view(&self) -> RouteView {
        match self {
            Route::Preflight => RouteView::Preflight,
            Route::ListOrders => RouteView::ListOrders,
            Route::CreateOrder => RouteView::CreateOrder,
            Route::DeleteOrder(id) => RouteView::DeleteOrder(id@),
            Route::NotFound => RouteView::NotFound,
        }
    }
}

/// The path prefix of the delete endpoint.
pub open spec fn delete_prefix() -> Seq<char> {
    "/order/"@
}

/// The endpoint for `method` on `path`: exact matches, but for the delete
/// endpoint, which takes every path after the prefix `/order/` as the id.
pub open spec fn route_of(method: Seq<char>, path: Seq<char>) -> RouteView {
    if method == "OPTIONS"@ {
        RouteView::Preflight
    } else if method == "GET"@ && path == "/orders"@ {
        RouteView::ListOrders
    } else if method == "POST"@ && path == "/order"@ {
        RouteView::CreateOrder
    } else if method == "DELETE"@ && path.len() >= 7 && path.subrange(0, 7) == delete_prefix() {
        RouteView::DeleteOrder(path.subrange(7, path.len() as int))
    } else {
        RouteView::NotFound
    }
}

/// The endpoint for `method` on `path`.
pub fn route(method: &str, path: &str) -> (r: Route)
    ensures
        r@ == route_of(method@, path@),
{
    if same_text(method, "OPTIONS") {
        Route::Preflight
    } else if same_text(method, "GET") && same_text(path, "/orders") {
        Route::ListOrders
    } else if same_text(method, "POST") && same_text(path, "/order") {
        Route::CreateOrder
    } else if same_text(method, "DELETE") {
        let n = path.unicode_len();
        proof {
            reveal_strlit("/order/");
        }
        if n >= 7 && same_text(path.substring_char(0, 7), "/order/") {
            Route::DeleteOrder(path.substring_char(7, n).to_owned())
        } else {
            Route::NotFound
        }
    } else {
        Route::NotFound
    }
}

/// The JSON body of an error response.
pub open spec fn error_body(message: Seq<char>) -> Seq<char> {
    "{\"error\": \""@ + message + "\"}"@
}

/// The response to a request that no endpoint serves.
pub open spec fn endpoint_not_found() -> Seq<char> {
    json_response(404, "Not Found"@, "{\"error\": \"Endpoint not found\"}"@)
}

/// The response to a request the record store failed on, with its message.
pub open spec fn storage_failure(detail: Seq<char>) -> Seq<char> {
    json_response(500, "Internal Server Error"@, error_body("Database error: "@ + detail))
}

/// The response to a listing whose orders could not be written as JSON.
pub open spec fn encoding_failure(detail: Seq<char>) -> Seq<char> {
    json_response(500, "Internal Server Error"@, error_body("JSON serialization error: "@ + detail))
}

/// The response to a create request without a body.
pub open spec fn missing_body() -> Seq<char> {
    json_response(400, "Bad Request"@, "{\"error\": \"Missing request body\"}"@)
}

/// The response to a create request whose body is no order request, with
/// the decoder's message.
pub open spec fn invalid_body(detail: Seq<char>) -> Seq<char> {
    json_response(400, "Bad Request"@, error_body("Invalid JSON: "@ + detail))
}

/// The response to a listing, with the orders as JSON.
pub open spec fn orders_listed(json: Seq<char>) -> Seq<char> {
    json_response(200, "OK"@, json)
}

/// The response to a stored order, with the order as JSON.
pub open spec fn order_created(json: Seq<char>) -> Seq<char> {
    json_response(201, "Created"@, json)
}

/// The response to a delete of `id` that removed a row.
pub open spec fn order_deleted(id: Seq<char>) -> Seq<char> {
    json_response(
        200,
        "OK"@,
        "{\"message\": \"Order "@ + id + " deleted successfully\"}"@,
    )
}

/// The response to a delete of `id` that removed nothing.
pub open spec fn order_not_found(id: Seq<char>) -> Seq<char> {
    json_response(404, "Not Found"@, error_body("Order "@ + id + " not found"@))
}

/// The response to a delete of `id`, given what the store answered: the
/// number of rows removed, or its error message.
pub open spec fn delete_outcome(id: Seq<char>, removed: Result<nat, Seq<char>>) -> Seq<char> {
    match removed {
        Ok(n) => if n > 0 {
            order_deleted(id)
        } else {
            order_not_found(id)
        },
        Err(detail) => storage_failure(detail),
    }
}

/// `prefix`, then `middle`, then `suffix`, as one string.
fn join3(prefix: &str, middle: &str, suffix: &str) -> (r: String)
    ensures
        r@ == prefix@ + middle@ + suffix@,
{
    let mut r = String::from_str(prefix);
    r.append(middle);
    r.append(suffix);
    r
}

/// The JSON error body carrying `message`.
pub fn error_json(message: &str) -> (r: String)
    ensures
        r@ == error_body(message@),
{
    join3("{\"error\": \"", message, "\"}")
}

/// The response to a request that no endpoint serves.
pub fn endpoint_not_found_response() -> (r: String)
    ensures
        r@ == endpoint_not_found(),
{
    create_json_response(404, "Not Found", "{\"error\": \"Endpoint not found\"}")
}

/// The response to a request the record store failed on.
pub fn storage_failure_response(detail: &str) -> (r: String)
    ensures
        r@ == storage_failure(detail@),
{
    let message = join3("Database error: ", detail, "");
    proof {
        reveal_strlit("");
    }
    assert(message@ =~= "Database error: "@ + detail@);
    let body = error_json(message.as_str());
    create_json_response(500, "Internal Server Error", body.as_str())
}

/// The response to a listing, given the orders written as JSON or the
/// encoder's error message.
pub fn list_response(json: &Result<String, String>) -> (r: String)
    ensures
        r@ == match json {
            Ok(text) => orders_listed(text@),
            Err(detail) => encoding_failure(detail@),
        },
{
    match json {
        Ok(text) => create_json_response(200, "OK", text.as_str()),
        Err(detail) => {
            let message = join3("JSON serialization error: ", detail.as_str(), "");
            proof {
                reveal_strlit("");
            }
            assert(message@ =~= "JSON serialization error: "@ + detail@);
            let body = error_json(message.as_str());
            create_json_response(500, "Internal Server Error", body.as_str())
        },
    }
}

/// The response to a create request without a body.
pub fn missing_body_response() -> (r: String)
    ensures
        r@ == missing_body(),
{
    create_json_response(400, "Bad Request", "{\"error\": \"Missing request body\"}")
}

/// The response to a create request whose body did not decode as an order
/// request, with the decoder's message.
pub fn invalid_body_response(detail: &str) -> (r: String)
    ensures
        r@ == invalid_body(detail@),
{
    let message = join3("Invalid JSON: ", detail, "");
    proof {
        reveal_strlit("");
    }
    assert(message@ =~= "Invalid JSON: "@ + detail@);
    let body = error_json(message.as_str());
    create_json_response(400, "Bad Request", body.as_str())
}

/// The response to a create request, given what inserting its row gave:
/// the order written as JSON, or the store's error message.
pub fn create_response(stored: &Result<String, String>) -> (r: String)
    ensures
        r@ == match stored {
            Ok(json) => order_created(json@),
            Err(detail) => storage_failure(detail@),
        },
{
    match stored {
        Ok(json) => create_json_response(201, "Created", json.as_str()),
        Err(detail) => storage_failure_response(detail.as_str()),
    }
}

/// The response to a delete of `id`, given what the store answered: the
/// number of rows removed, or its error message.
pub fn delete_response(id: &str, removed: &Result<usize, String>) -> (r: String)
    ensures
        r@ == delete_outcome(
            id@,
            match removed {
                Ok(n) => Ok(*n as nat),
                Err(detail) => Err(detail@),
            },
        ),
{
    match removed {
        Ok(n) => {
            if *n > 0 {
                let body = join3("{\"message\": \"Order ", id, " deleted successfully\"}");
                create_json_response(200, "OK", body.as_str())
            } else {
                let message = join3("Order ", id, " not found");
                let body = error_json(message.as_str());
                create_json_response(404, "Not Found", body.as_str())
            }
        },
        Err(detail) => storage_failure_response(detail.as_str()),
    }
}

/// A new order made of `req` under a fresh id, and the row that stores it.
pub fn place_order(req: &OrderRequest) -> (r: (Order, StoredRow))
    ensures
        is_order_id(r.0.id@),
        r.0@ == order_of(r.0.id@, *req),
        r.1@ == row_of(r.0@),
{
    let id = generate_id();
    let order = Order::from_request(id, req);
    let row = encode_row(&order);
    (order, row)
}

/// What the server does first for a request: answer it at once, or first
/// have the record store or the JSON decoder do their part.
#[derive(Debug)]
pub enum Step {
    /// Write this response.
    Respond(String),
    /// Read every row of the table, then go on with `on_rows_listed`.
    ListRows,
    /// Decode this body as an order request, then go on with `on_body_decoded`.
    DecodeBody(String),
    /// Delete the rows with this id, then answer with `delete_response`.
    DeleteRows(String),
}

/// A step as a mathematical value.
pub enum StepView {
    Respond(Seq<char>),
    ListRows,
    DecodeBody(Seq<char>),
    DeleteRows(Seq<char>),
}

impl View for Step {
    type V = StepView;

    open spec fn view(&self) -> StepView {
        match self {
            Step::Respond(r) => StepView::Respond(r@),
            Step::ListRows => StepView::ListRows,
            Step::DecodeBody(b) => StepView::DecodeBody(b@),
            Step::DeleteRows(id) => StepView::DeleteRows(id@),
        }
    }
}

/// The first step for `req`, by its route: a preflight, a create without a
/// body and an unknown endpoint are answered at once.
pub open spec fn first_step(req: RequestView) -> StepView {
    match route_of(req.method, req.path) {
        RouteView::Preflight => StepView::Respond(options_response()),
        RouteView::ListOrders => StepView::ListRows,
        RouteView::CreateOrder => match req.body {
            Some(body) => StepView::DecodeBody(body),
            None => StepView::Respond(missing_body()),
        },
        RouteView::DeleteOrder(id) => StepView::DeleteRows(id),
        RouteView::NotFound => StepView::Respond(endpoint_not_found()),
    }
}

/// The first step for `req`.
pub fn handle_request(req: &Request) -> (r: Step)
    ensures
        r@ == first_step(req@),
{
    match route(req.method.as_str(), req.path.as_str()) {
        Route::Preflight => Step::Respond(create_options_response()),
        Route::ListOrders => Step::ListRows,
        Route::CreateOrder => match &req.body {
            Some(body) => Step::DecodeBody(body.clone()),
            None => Step::Respond(missing_body_response()),
        },
        Route::DeleteOrder(id) => Step::DeleteRows(id),
        Route::NotFound => Step::Respond(endpoint_not_found_response()),
    }
}

/// What follows a listing of the table.
#[derive(Debug)]
pub enum Listing {
    /// Write this response.
    Respond(String),
    /// Write these orders as JSON, then answer with `list_response`.
    Encode(Vec<Order>),
}

/// What follows a listing, given the rows the store read or its error
/// message: the decoded orders, rows that do not decode left out.
pub fn on_rows_listed(listed: &Result<Vec<StoredRow>, String>) -> (r: Listing)
    ensures
        match (listed, r) {
            (Ok(rows), Listing::Encode(orders)) => orders_view(orders@) == orders_of_rows(
                rows_view(rows@),
            ),
            (Err(detail), Listing::Respond(resp)) => resp@ == storage_failure(detail@),
            _ => false,
        },
{
    match listed {
        Ok(rows) => Listing::Encode(decode_rows(rows)),
        Err(detail) => Listing::Respond(storage_failure_response(detail.as_str())),
    }
}

/// What follows the decoding of a create request's body.
#[derive(Debug)]
pub enum Creation {
    /// The body was no order request: write this response.
    Rejected(String),
    /// Insert the row, then answer with `create_response`.
    Insert(Order, StoredRow),
}

/// What follows the decoding of a create request's body, given the request
/// it decoded to or the decoder's message: a new order under a fresh id and
/// its row, or the 400 answer.
pub fn on_body_decoded(decoded: &Result<OrderRequest, String>) -> (r: Creation)
    ensures
        match (decoded, r) {
            (Ok(req), Creation::Insert(order, row)) => {
                &&& is_order_id(order.id@)
                &&& order@ == order_of(order.id@, *req)
                &&& row@ == row_of(order@)
            },
            (Err(detail), Creation::Rejected(resp)) => resp@ == invalid_body(detail@),
            _ => false,
        },
{
    match decoded {
        Ok(req) => {
            let (order, row) = place_order(req);
            Creation::Insert(order, row)
        },
        Err(detail) => Creation::Rejected(invalid_body_response(detail.as_str())),
    }
}

} // verus!
