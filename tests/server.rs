use granola::id::{generate_id, hex_text};
use granola::model::{
    decode_row, decode_rows, encode_row, same_text, Amount, Currency, Order, OrderRequest,
    StoredRow, Type, CURRENCY_COUNT, TYPE_COUNT,
};
use granola::request::{parse_request, parse_request_text, REQUEST_BUFFER_SIZE};
use granola::response::{create_json_response, create_options_response, decimal_text};
use granola::service::{
    create_response, delete_response, endpoint_not_found_response, error_json, handle_request,
    invalid_body_response, list_response, missing_body_response, on_body_decoded,
    on_rows_listed, place_order, route, storage_failure_response, Creation, Listing, Route, Step,
};

const CORS: &str = "Access-Control-Allow-Origin: *\r\n\
                    Access-Control-Allow-Methods: GET, POST, DELETE, OPTIONS\r\n\
                    Access-Control-Allow-Headers: Content-Type, Origin, Accept\r\n";

fn json_message(status: &str, body: &str) -> String {
    format!(
        "HTTP/1.1 {}\r\nContent-Type: application/json\r\n{}Content-Length: {}\r\n\r\n{}",
        status,
        CORS,
        body.len(),
        body
    )
}

fn is_lower_hex_id(s: &str) -> bool {
    s.len() == 64 && s.chars().all(|c| c.is_ascii_digit() || ('a'..='f').contains(&c))
}

fn sample_request() -> OrderRequest {
    OrderRequest {
        kind: Type::Buy,
        make_amount: Amount { bits: 10.0f32.to_bits() },
        make_denomination: Currency::Usd,
        take_amount: Amount { bits: 0.001f32.to_bits() },
        take_denomination: Currency::Sat,
    }
}

fn row(id: &str, kind: &str, make: &str, take: &str) -> StoredRow {
    StoredRow {
        id: id.to_string(),
        kind: kind.to_string(),
        make_amount: Amount { bits: 1.5f32.to_bits() },
        make_denomination: make.to_string(),
        take_amount: Amount { bits: 2.5f32.to_bits() },
        take_denomination: take.to_string(),
    }
}

#[test]
fn parses_method_path_and_body() {
    let req = parse_request_text("POST /order HTTP/1.1\r\nHost: x\r\n\r\n{\"a\":1}").unwrap();
    assert_eq!(req.method, "POST");
    assert_eq!(req.path, "/order");
    assert_eq!(req.body.as_deref(), Some("{\"a\":1}"));
}

#[test]
fn body_is_everything_after_first_blank_line() {
    let req = parse_request_text("POST /order\r\n\r\nab\r\n\r\ncd").unwrap();
    assert_eq!(req.body.as_deref(), Some("ab\r\n\r\ncd"));
}

#[test]
fn body_absent_without_blank_line() {
    let req = parse_request_text("GET /orders HTTP/1.1\r\nHost: x\r\n").unwrap();
    assert_eq!(req.body, None);
}

#[test]
fn empty_body_after_blank_line() {
    let req = parse_request_text("GET /orders HTTP/1.1\r\n\r\n").unwrap();
    assert_eq!(req.body.as_deref(), Some(""));
}

#[test]
fn request_line_needs_two_tokens() {
    assert!(parse_request_text("GET\r\n\r\n").is_none());
    assert!(parse_request_text("").is_none());
    assert!(parse_request_text("\r\nGET /orders").is_none());
    assert!(parse_request_text("   \t ").is_none());
}

#[test]
fn tokens_split_on_any_white_space() {
    let req = parse_request_text("  DELETE\t\u{3000}/order/x  HTTP/1.1").unwrap();
    assert_eq!(req.method, "DELETE");
    assert_eq!(req.path, "/order/x");
    assert_eq!(req.body, None);
}

#[test]
fn parses_raw_bytes_lossily() {
    let bytes = b"GET /orders\xff HTTP/1.1\r\n\r\n";
    let req = parse_request(bytes).unwrap();
    assert_eq!(req.method, "GET");
    assert_eq!(req.path, "/orders\u{fffd}");
    assert!(parse_request(b"GET").is_none());
    assert_eq!(REQUEST_BUFFER_SIZE, 4096);
}

#[test]
fn routes_each_endpoint() {
    assert!(matches!(route("OPTIONS", "/anything"), Route::Preflight));
    assert!(matches!(route("OPTIONS", "*"), Route::Preflight));
    assert!(matches!(route("GET", "/orders"), Route::ListOrders));
    assert!(matches!(route("POST", "/order"), Route::CreateOrder));
    match route("DELETE", "/order/deadbeef") {
        Route::DeleteOrder(id) => assert_eq!(id, "deadbeef"),
        other => panic!("unexpected route {:?}", other),
    }
    match route("DELETE", "/order/a/b") {
        Route::DeleteOrder(id) => assert_eq!(id, "a/b"),
        other => panic!("unexpected route {:?}", other),
    }
    match route("DELETE", "/order/") {
        Route::DeleteOrder(id) => assert_eq!(id, ""),
        other => panic!("unexpected route {:?}", other),
    }
}

#[test]
fn unknown_requests_are_not_found() {
    assert!(matches!(route("GET", "/order"), Route::NotFound));
    assert!(matches!(route("POST", "/orders"), Route::NotFound));
    assert!(matches!(route("DELETE", "/orders"), Route::NotFound));
    assert!(matches!(route("PUT", "/order/x"), Route::NotFound));
    assert!(matches!(route("get", "/orders"), Route::NotFound));
    assert_eq!(
        endpoint_not_found_response(),
        json_message("404 Not Found", "{\"error\": \"Endpoint not found\"}")
    );
}

#[test]
fn json_response_layout() {
    assert_eq!(
        create_json_response(200, "OK", "[]"),
        format!(
            "HTTP/1.1 200 OK\r\nContent-Type: application/json\r\n{}Content-Length: 2\r\n\r\n[]",
            CORS
        )
    );
}

#[test]
fn content_length_counts_bytes() {
    let r = create_json_response(200, "OK", "\u{e9}\u{20ac}");
    assert!(r.contains("Content-Length: 5\r\n"));
    assert!(r.ends_with("\r\n\r\n\u{e9}\u{20ac}"));
}

#[test]
fn preflight_response_is_empty_204() {
    let expected = format!(
        "HTTP/1.1 204 No Content\r\n{}Access-Control-Max-Age: 86400\r\nContent-Length: 0\r\n\r\n",
        CORS
    );
    assert_eq!(create_options_response(), expected);
    assert!(!create_options_response().contains("Content-Type: application/json"));
}

#[test]
fn preflight_on_any_path() {
    for path in ["/", "/orders", "/order/x", "*", ""] {
        assert!(matches!(route("OPTIONS", path), Route::Preflight));
    }
}

#[test]
fn empty_listing_is_empty_array() {
    assert_eq!(list_response(&Ok("[]".to_string())), json_message("200 OK", "[]"));
    assert!(decode_rows(&Vec::new()).is_empty());
}

#[test]
fn listing_encoding_failure_is_500() {
    assert_eq!(
        list_response(&Err("bad".to_string())),
        json_message(
            "500 Internal Server Error",
            "{\"error\": \"JSON serialization error: bad\"}"
        )
    );
}

#[test]
fn delete_of_absent_id_is_404() {
    let expected = json_message("404 Not Found", "{\"error\": \"Order deadbeef not found\"}");
    assert_eq!(delete_response("deadbeef", &Ok(0)), expected);
    assert_eq!(delete_response("deadbeef", &Ok(0)), expected);
}

#[test]
fn delete_of_present_id_is_200() {
    assert_eq!(
        delete_response("abc", &Ok(1)),
        json_message("200 OK", "{\"message\": \"Order abc deleted successfully\"}")
    );
}

#[test]
fn store_failure_is_500() {
    let expected = json_message(
        "500 Internal Server Error",
        "{\"error\": \"Database error: disk I/O error\"}",
    );
    assert_eq!(delete_response("abc", &Err("disk I/O error".to_string())), expected);
    assert_eq!(storage_failure_response("disk I/O error"), expected);
    assert_eq!(create_response(&Err("disk I/O error".to_string())), expected);
}

#[test]
fn malformed_body_is_400_with_message() {
    let detail = "missing field `make_amount` at line 1 column 14";
    let r = invalid_body_response(detail);
    assert_eq!(
        r,
        json_message(
            "400 Bad Request",
            "{\"error\": \"Invalid JSON: missing field `make_amount` at line 1 column 14\"}"
        )
    );
    assert!(r.contains("make_amount"));
}

#[test]
fn missing_body_is_400() {
    assert_eq!(
        missing_body_response(),
        json_message("400 Bad Request", "{\"error\": \"Missing request body\"}")
    );
}

#[test]
fn error_body_shape() {
    assert_eq!(error_json("x y"), "{\"error\": \"x y\"}");
}

#[test]
fn created_order_is_201() {
    let body = "{\"id\":\"00\",\"kind\":\"buy\"}";
    assert_eq!(create_response(&Ok(body.to_string())), json_message("201 Created", body));
}

#[test]
fn placing_an_order_keeps_request_fields() {
    let req = sample_request();
    let (order, stored) = place_order(&req);
    assert!(is_lower_hex_id(&order.id));
    assert_eq!(order.kind, Type::Buy);
    assert_eq!(order.make_amount, req.make_amount);
    assert_eq!(order.make_denomination, Currency::Usd);
    assert_eq!(order.take_amount, req.take_amount);
    assert_eq!(order.take_denomination, Currency::Sat);
    assert_eq!(stored.id, order.id);
    assert_eq!(stored.kind, "\"buy\"");
    assert_eq!(stored.make_denomination, "\"usd\"");
    assert_eq!(stored.take_denomination, "\"sat\"");
    assert_eq!(f32::from_bits(stored.take_amount.bits), 0.001f32);
}

#[test]
fn created_then_listed_round_trip() {
    let (order, stored) = place_order(&sample_request());
    let rows = vec![row("other", "\"sell\"", "\"eur\"", "\"chf\""), stored];
    let listed = decode_rows(&rows);
    let same: Vec<&Order> = listed.iter().filter(|o| o.id == order.id).collect();
    assert_eq!(same.len(), 1);
    assert_eq!(same[0].kind, order.kind);
    assert_eq!(same[0].make_amount, order.make_amount);
    assert_eq!(same[0].take_denomination, order.take_denomination);
}

#[test]
fn ids_are_hex_and_distinct() {
    let ids: Vec<String> = (0..200).map(|_| generate_id()).collect();
    for id in &ids {
        assert!(is_lower_hex_id(id));
    }
    let mut sorted = ids.clone();
    sorted.sort();
    sorted.dedup();
    assert_eq!(sorted.len(), ids.len());
}

#[test]
fn hex_text_two_digits_per_byte() {
    assert_eq!(hex_text(&vec![0x00, 0xff, 0x1a, 0x09]), "00ff1a09");
    assert_eq!(hex_text(&Vec::new()), "");
}

#[test]
fn decimal_text_values() {
    assert_eq!(decimal_text(0), "0");
    assert_eq!(decimal_text(204), "204");
    assert_eq!(decimal_text(86400), "86400");
    assert_eq!(decimal_text(u64::MAX), u64::MAX.to_string());
}

#[test]
fn enum_tags_and_columns() {
    assert_eq!(Type::Sell.tag(), "sell");
    assert_eq!(Type::Buy.to_column(), "\"buy\"");
    assert_eq!(Currency::Brl.to_column(), "\"brl\"");
    assert_eq!(Currency::Chf.tag(), "chf");
    assert_eq!(Type::from_column("\"sell\""), Some(Type::Sell));
    assert_eq!(Currency::from_column("\"eur\""), Some(Currency::Eur));
    assert_eq!(Type::from_column("buy"), None);
    assert_eq!(Currency::from_column("\"USD\""), None);
}

#[test]
fn undecodable_rows_are_dropped() {
    let rows = vec![
        row("a", "\"buy\"", "\"sat\"", "\"brl\""),
        row("b", "\"hold\"", "\"sat\"", "\"brl\""),
        row("c", "\"sell\"", "\"gbp\"", "\"brl\""),
        row("d", "\"sell\"", "\"usd\"", "\"eur\""),
    ];
    let listed = decode_rows(&rows);
    let ids: Vec<&str> = listed.iter().map(|o| o.id.as_str()).collect();
    assert_eq!(ids, vec!["a", "d"]);
    assert!(decode_row(&rows[1]).is_none());
    assert_eq!(listed[1].make_denomination, Currency::Usd);
}

#[test]
fn encode_then_decode_row() {
    let order = Order::from_request("id1".to_string(), &sample_request());
    let stored = encode_row(&order);
    let back = decode_row(&stored).unwrap();
    assert_eq!(back.id, "id1");
    assert_eq!(back.kind, Type::Buy);
    assert_eq!(back.make_denomination, Currency::Usd);
}

#[test]
fn same_text_compares_characters() {
    assert!(same_text("abc", "abc"));
    assert!(!same_text("abc", "abd"));
    assert!(!same_text("abc", "ab"));
    assert!(same_text("", ""));
}

#[test]
fn enums_by_index() {
    assert_eq!(TYPE_COUNT, 2);
    assert_eq!(CURRENCY_COUNT, 5);
    assert_eq!(Type::from_index(0), Type::Buy);
    assert_eq!(Type::from_index(1), Type::Sell);
    assert_eq!(Currency::from_index(0), Currency::Sat);
    assert_eq!(Currency::from_index(2), Currency::Usd);
    assert_eq!(Currency::from_index(4), Currency::Chf);
}

const SCENARIO_BODY: &str = "{\"kind\":\"buy\",\"make_amount\":10.0,\"make_denomination\":\"usd\",\"take_amount\":0.001,\"take_denomination\":\"sat\"}";

#[test]
fn create_scenario_steps() {
    let text = format!("POST /order HTTP/1.1\r\nContent-Type: application/json\r\n\r\n{}", SCENARIO_BODY);
    let request = parse_request(text.as_bytes()).unwrap();
    let body = match handle_request(&request) {
        Step::DecodeBody(body) => body,
        other => panic!("unexpected step {:?}", other),
    };
    assert_eq!(body, SCENARIO_BODY);
    let parsed: serde_json::Value = serde_json::from_str(&body).unwrap();
    assert_eq!(parsed["kind"].as_str(), Some(Type::Buy.tag()));
    let (order, stored) = match on_body_decoded(&Ok(sample_request())) {
        Creation::Insert(order, stored) => (order, stored),
        other => panic!("unexpected outcome {:?}", other),
    };
    assert!(is_lower_hex_id(&order.id));
    assert_eq!(order.kind, Type::Buy);
    assert_eq!(stored.kind, "\"buy\"");
    let json = format!("{{\"id\":\"{}\",\"kind\":\"{}\"}}", order.id, order.kind.tag());
    let response = create_response(&Ok(json.clone()));
    assert!(response.starts_with("HTTP/1.1 201 Created\r\n"));
    assert!(response.ends_with(&json));
    assert!(response.contains("\"kind\":\"buy\""));
}

#[test]
fn rejected_body_scenario() {
    match on_body_decoded(&Err("missing field `make_amount` at line 1 column 14".to_string())) {
        Creation::Rejected(response) => {
            assert!(response.starts_with("HTTP/1.1 400 Bad Request\r\n"));
            assert!(response.contains("make_amount"));
        }
        other => panic!("unexpected outcome {:?}", other),
    }
}

#[test]
fn create_without_body_is_answered_at_once() {
    let request = parse_request_text("POST /order HTTP/1.1\r\nHost: x").unwrap();
    match handle_request(&request) {
        Step::Respond(response) => assert_eq!(response, missing_body_response()),
        other => panic!("unexpected step {:?}", other),
    }
}

#[test]
fn steps_for_each_route() {
    let preflight = parse_request_text("OPTIONS /whatever HTTP/1.1\r\n\r\n").unwrap();
    match handle_request(&preflight) {
        Step::Respond(response) => assert_eq!(response, create_options_response()),
        other => panic!("unexpected step {:?}", other),
    }
    let list = parse_request_text("GET /orders HTTP/1.1\r\n\r\n").unwrap();
    assert!(matches!(handle_request(&list), Step::ListRows));
    let delete = parse_request_text("DELETE /order/deadbeef HTTP/1.1\r\n\r\n").unwrap();
    match handle_request(&delete) {
        Step::DeleteRows(id) => assert_eq!(id, "deadbeef"),
        other => panic!("unexpected step {:?}", other),
    }
    let unknown = parse_request_text("PATCH /orders HTTP/1.1\r\n\r\n").unwrap();
    match handle_request(&unknown) {
        Step::Respond(response) => assert_eq!(response, endpoint_not_found_response()),
        other => panic!("unexpected step {:?}", other),
    }
}

#[test]
fn listing_steps() {
    match on_rows_listed(&Ok(Vec::new())) {
        Listing::Encode(orders) => assert!(orders.is_empty()),
        other => panic!("unexpected outcome {:?}", other),
    }
    let rows = vec![row("a", "\"buy\"", "\"sat\"", "\"brl\""), row("b", "\"x\"", "\"sat\"", "\"brl\"")];
    match on_rows_listed(&Ok(rows)) {
        Listing::Encode(orders) => {
            assert_eq!(orders.len(), 1);
            assert_eq!(orders[0].id, "a");
        }
        other => panic!("unexpected outcome {:?}", other),
    }
    match on_rows_listed(&Err("no such table: orders".to_string())) {
        Listing::Respond(response) => {
            assert_eq!(response, storage_failure_response("no such table: orders"))
        }
        other => panic!("unexpected outcome {:?}", other),
    }
}
