//! The response encoder: a status and a body as a complete wire message.
use vstd::prelude::*;
use vstd::utf8::encode_utf8;

verus! {

/// The decimal digits, in order of value.
pub open spec fn digits() -> Seq<char> {
    seq!['0', '1', '2', '3', '4', '5', '6', '7', '8', '9']
}

/// `n` written in decimal, without leading zeros.
pub open spec fn decimal(n: nat) -> Seq<char>
    decreases n,
{
    if n < 10 {
        seq![digits()[n as int]]
    } else {
        decimal(n / 10) + seq![digits()[(n % 10) as int]]
    }
}

/// A message as it goes on the wire: the status line, the header lines
/// (each ending in CRLF), a blank line, the body.
pub open spec fn wire_message(
    code: nat,
    reason: Seq<char>,
    headers: Seq<char>,
    body: Seq<char>,
) -> Seq<char> {
    "HTTP/1.1 "@ + decimal(code) + " "@ + reason + "\r\n"@ + headers + "\r\n"@ + body
}

/// The cross-origin headers every response carries: any origin, the four
/// methods served, and the request headers a client may send.
pub open spec fn cors_headers() -> Seq<char> {
    "Access-Control-Allow-Origin: *\r\n"@ + "Access-Control-Allow-Methods: GET, POST, DELETE, OPTIONS\r\n"@
        + "Access-Control-Allow-Headers: Content-Type, Origin, Accept\r\n"@
}

/// The headers of a response with a JSON body of `len` bytes.
pub open spec fn json_headers(len: nat) -> Seq<char> {
    "Content-Type: application/json\r\n"@ + cors_headers() + "Content-Length: "@ + decimal(len)
        + "\r\n"@
}

/// The headers of the preflight response.
pub open spec fn preflight_headers() -> Seq<char> {
    cors_headers() + "Access-Control-Max-Age: 86400\r\n"@ + "Content-Length: 0\r\n"@
}

/// The response with status `code`, reason `reason` and the JSON text `body`.
pub open spec fn json_response(code: nat, reason: Seq<char>, body: Seq<char>) -> Seq<char> {
    wire_message(code, reason, json_headers(encode_utf8(body).len()), body)
}

/// The preflight response: 204, the cross-origin headers, no body.
pub open spec fn options_response() -> Seq<char> {
    wire_message(204, "No Content"@, preflight_headers(), Seq::empty())
}

fn digit_text(d: u64) -> (r: &'static str)
    requires
        d < 10,
    ensures
        r@ == seq![digits()[d as int]],
{
    proof {
        reveal_strlit("0123456789");
    }
    "0123456789".substring_char(d as usize, d as usize + 1)
}

/// `n` written in decimal.
pub fn decimal_text(n: u64) -> (r: String)
    ensures
        r@ == decimal(n as nat),
    decreases n,
{
    if n < 10 {
        String::from_str(digit_text(n))
    } else {
        let mut r = decimal_text(n / 10);
        r.append(digit_text(n % 10));
        r
    }
}

/// The message with status `code` and reason `reason`, the given header
/// lines, and `body`.
fn write_message(code: u64, reason: &str, headers: &str, body: &str) -> (r: String)
    ensures
        r@ == wire_message(code as nat, reason@, headers@, body@),
{
    let mut r = String::from_str("HTTP/1.1 ");
    let code_text = decimal_text(code);
    r.append(code_text.as_str());
    r.append(" ");
    r.append(reason);
    r.append("\r\n");
    r.append(headers);
    r.append("\r\n");
    r.append(body);
    r
}

fn cors_header_text() -> (r: String)
    ensures
        r@ == cors_headers(),
{
    let mut r = String::from_str("Access-Control-Allow-Origin: *\r\n");
    r.append("Access-Control-Allow-Methods: GET, POST, DELETE, OPTIONS\r\n");
    r.append("Access-Control-Allow-Headers: Content-Type, Origin, Accept\r\n");
    r
}

/// The preflight response: status 204, the cross-origin headers, an empty body.
pub fn create_options_response() -> (r: String)
    ensures
        r@ == options_response(),
{
    let mut headers = cors_header_text();
    headers.append("Access-Control-Max-Age: 86400\r\n");
    headers.append("Content-Length: 0\r\n");
    proof {
        reveal_strlit("");
    }
    assert(headers@ =~= preflight_headers());
    write_message(204, "No Content", headers.as_str(), "")
}

/// The response with status `status_code`, reason `status_text` and the JSON
/// text `body`, whose length in bytes it gives as the content length.
pub fn create_json_response(status_code: u32, status_text: &str, body: &str) -> (r: String)
    ensures
        r@ == json_response(status_code as nat, status_text@, body@),
{
    let mut headers = String::from_str("Content-Type: application/json\r\n");
    let cors = cors_header_text();
    headers.append(cors.as_str());
    headers.append("Content-Length: ");
    let byte_len = body.as_bytes().len();
    let len_text = decimal_text(byte_len as u64);
    headers.append(len_text.as_str());
    headers.append("\r\n");
    assert(headers@ =~= json_headers(encode_utf8(body@).len()));
    write_message(status_code as u64, status_text, headers.as_str(), body)
}

} // verus!
