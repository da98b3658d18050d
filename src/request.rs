//! The request parser: method, path and body of one inbound message.
use vstd::prelude::*;
use vstd::std_specs::iter::IteratorSpec;

verus! {

/// A parsed request.
#[derive(Debug)]
pub struct Request {
    pub method: String,
    pub path: String,
    pub body: Option<String>,
}

/// A request as a mathematical value.
pub struct RequestView {
    pub method: Seq<char>,
    pub path: Seq<char>,
    pub body: Option<Seq<char>>,
}

impl View for Request {
    type V = RequestView;

    open spec fn view(&self) -> RequestView {
        RequestView {
            method: self.method@,
            path: self.path@,
            body: match self.body {
                Some(b) => Some(b@),
                None => None,
            },
        }
    }
}

/// The characters with the Unicode White_Space property: those that
/// separate the tokens of the request line.
pub open spec fn is_space(c: char) -> bool {
    let u = c as u32;
    (0x09 <= u <= 0x0d) || u == 0x20 || u == 0x85 || u == 0xa0 || u == 0x1680 || (0x2000 <= u
        <= 0x200a) || u == 0x2028 || u == 0x2029 || u == 0x202f || u == 0x205f || u == 0x3000
}

/// The first index at or after `i` holding `c`, or the length of `t` where none does.
pub open spec fn find_char_from(t: Seq<char>, c: char, i: int) -> int
    decreases t.len() - i,
{
    if i >= t.len() {
        t.len() as int
    } else if t[i] == c {
        i
    } else {
        find_char_from(t, c, i + 1)
    }
}

/// The first index at or after `i` that is not white space, or the length of `t`.
pub open spec fn skip_space_from(t: Seq<char>, i: int) -> int
    decreases t.len() - i,
{
    if i >= t.len() {
        t.len() as int
    } else if !is_space(t[i]) {
        i
    } else {
        skip_space_from(t, i + 1)
    }
}

/// The first index at or after `i` that is white space, or the length of `t`.
pub open spec fn token_end_from(t: Seq<char>, i: int) -> int
    decreases t.len() - i,
{
    if i >= t.len() {
        t.len() as int
    } else if is_space(t[i]) {
        i
    } else {
        token_end_from(t, i + 1)
    }
}

/// The blank-line separator between the head and the body of a message.
pub open spec fn blank_line() -> Seq<char> {
    seq!['\r', '\n', '\r', '\n']
}

/// The first index at or after `i` where a blank-line separator starts, or
/// the length of `t` where none does.
pub open spec fn find_blank_from(t: Seq<char>, i: int) -> int
    decreases t.len() - i,
{
    if i + 4 > t.len() {
        t.len() as int
    } else if t.subrange(i, i + 4) == blank_line() {
        i
    } else {
        find_blank_from(t, i + 1)
    }
}

/// The first line of `t`: up to the first line feed, without the carriage
/// return that ends it; all of `t` where there is no line feed.
pub open spec fn first_line(t: Seq<char>) -> Seq<char> {
    let n = find_char_from(t, '\n', 0);
    if n < t.len() {
        let line = t.subrange(0, n);
        if line.len() > 0 && line.last() == '\r' {
            line.drop_last()
        } else {
            line
        }
    } else {
        t
    }
}

/// The first two white-space separated tokens of `line`, where it has two.
pub open spec fn request_line_parts(line: Seq<char>) -> Option<(Seq<char>, Seq<char>)> {
    let a = skip_space_from(line, 0);
    let b = token_end_from(line, a);
    let c = skip_space_from(line, b);
    let d = token_end_from(line, c);
    if c < line.len() {
        Some((line.subrange(a, b), line.subrange(c, d)))
    } else {
        None
    }
}

/// Everything after the first blank-line separator, where there is one.
pub open spec fn body_of(t: Seq<char>) -> Option<Seq<char>> {
    let j = find_blank_from(t, 0);
    if j < t.len() {
        Some(t.subrange(j + 4, t.len() as int))
    } else {
        None
    }
}

/// The request that the text `t` holds: method and path are the first two
/// tokens of the first line, the body what follows the first blank line.
/// `None` where the first line has fewer than two tokens.
pub open spec fn request_of(t: Seq<char>) -> Option<RequestView> {
    match request_line_parts(first_line(t)) {
        Some((method, path)) => Some(RequestView { method, path, body: body_of(t) }),
        None => None,
    }
}

/// The characters of `s`, one by one.
pub fn chars_of(s: &str) -> (r: Vec<char>)
    ensures
        r@ == s@,
{
    let n = s.unicode_len();
    let mut r: Vec<char> = Vec::with_capacity(n);
    let mut it = s.chars();
    let mut i: usize = 0;
    while i < n
        invariant
            n == s@.len(),
            i <= n,
            r@ == s@.subrange(0, i as int),
            it.remaining() == s@.subrange(i as int, n as int),
            it.obeys_prophetic_iter_laws(),
        decreases n - i,
    {
        let c = it.next();
        match c {
            Some(c) => {
                r.push(c);
            },
            None => {
                return r;
            },
        }
        i = i + 1;
    }
    r
}

/// Whether `c` is white space (Unicode White_Space).
pub fn is_space_char(c: char) -> (r: bool)
    ensures
        r == is_space(c),
{
    let u = c as u32;
    (0x09 <= u && u <= 0x0d) || u == 0x20 || u == 0x85 || u == 0xa0 || u == 0x1680 || (0x2000 <= u
        && u <= 0x200a) || u == 0x2028 || u == 0x2029 || u == 0x202f || u == 0x205f || u == 0x3000
}

fn find_char(t: &Vec<char>, c: char, i: usize) -> (r: usize)
    requires
        i <= t.len(),
    ensures
        r as int == find_char_from(t@, c, i as int),
        i <= r <= t.len(),
{
    let mut j = i;
    while j < t.len()
        invariant
            i <= j <= t.len(),
            find_char_from(t@, c, i as int) == find_char_from(t@, c, j as int),
        decreases t.len() - j,
    {
        if t[j] == c {
            return j;
        }
        j = j + 1;
    }
    j
}

fn skip_space(t: &Vec<char>, i: usize) -> (r: usize)
    requires
        i <= t.len(),
    ensures
        r as int == skip_space_from(t@, i as int),
        i <= r <= t.len(),
{
    let mut j = i;
    while j < t.len()
        invariant
            i <= j <= t.len(),
            skip_space_from(t@, i as int) == skip_space_from(t@, j as int),
        decreases t.len() - j,
    {
        if !is_space_char(t[j]) {
            return j;
        }
        j = j + 1;
    }
    j
}

fn token_end(t: &Vec<char>, i: usize) -> (r: usize)
    requires
        i <= t.len(),
    ensures
        r as int == token_end_from(t@, i as int),
        i <= r <= t.len(),
{
    let mut j = i;
    while j < t.len()
        invariant
            i <= j <= t.len(),
            token_end_from(t@, i as int) == token_end_from(t@, j as int),
        decreases t.len() - j,
    {
        if is_space_char(t[j]) {
            return j;
        }
        j = j + 1;
    }
    j
}

fn find_blank(t: &Vec<char>) -> (r: usize)
    ensures
        r as int == find_blank_from(t@, 0),
        r < t.len() ==> r + 4 <= t.len(),
{
    let mut j: usize = 0;
    while j < t.len() && t.len() - j >= 4
        invariant
            j <= t.len(),
            find_blank_from(t@, 0) == find_blank_from(t@, j as int),
        decreases t.len() - j,
    {
        if t[j] == '\r' && t[j + 1] == '\n' && t[j + 2] == '\r' && t[j + 3] == '\n' {
            assert(t@.subrange(j as int, j + 4) == blank_line());
            return j;
        }
        assert(t@.subrange(j as int, j + 4) != blank_line()) by {
            if t@.subrange(j as int, j + 4) == blank_line() {
                assert(t@.subrange(j as int, j + 4)[0] == t@[j as int]);
                assert(t@.subrange(j as int, j + 4)[1] == t@[j + 1]);
                assert(t@.subrange(j as int, j + 4)[2] == t@[j + 2]);
                assert(t@.subrange(j as int, j + 4)[3] == t@[j + 3]);
            }
        }
        j = j + 1;
    }
    t.len()
}

/// The characters of `s` from `lo` up to `hi`, as a string of their own.
fn slice_of(s: &str, lo: usize, hi: usize) -> (r: String)
    requires
        lo <= hi <= s@.len(),
    ensures
        r@ == s@.subrange(lo as int, hi as int),
{
    s.substring_char(lo, hi).to_owned()
}

/// The request held by the decoded text `text`: method and path are the
/// first two tokens of its first line, the body everything after the first
/// blank line. `None` where the first line has fewer than two tokens.
pub fn parse_request_text(text: &str) -> (r: Option<Request>)
    ensures
        match r {
            Some(req) => request_of(text@) == Some(req@),
            None => request_of(text@) is None,
        },
{
    let t = chars_of(text);
    let n = t.len();
    let nl = find_char(&t, '\n', 0);
    let line_end = if nl < n && nl > 0 && t[nl - 1] == '\r' {
        nl - 1
    } else {
        nl
    };
    let ghost line = first_line(t@);
    assert(line == t@.subrange(0, line_end as int));
    // The first line is a prefix of the text: its token offsets are offsets in the text too.
    let line_chars = {
        let mut v: Vec<char> = Vec::new();
        let mut k: usize = 0;
        while k < line_end
            invariant
                k <= line_end <= n,
                n == t.len(),
                v@ == t@.subrange(0, k as int),
            decreases line_end - k,
        {
            v.push(t[k]);
            assert(t@.subrange(0, k + 1) == t@.subrange(0, k as int).push(t@[k as int]));
            k = k + 1;
        }
        v
    };
    assert(line_chars@ == line);
    let a = skip_space(&line_chars, 0);
    let b = token_end(&line_chars, a);
    let c = skip_space(&line_chars, b);
    let d = token_end(&line_chars, c);
    if c >= line_chars.len() {
        return None;
    }
    assert(line.subrange(a as int, b as int) == text@.subrange(a as int, b as int));
    assert(line.subrange(c as int, d as int) == text@.subrange(c as int, d as int));
    let method = slice_of(text, a, b);
    let path = slice_of(text, c, d);
    let j = find_blank(&t);
    let body = if j < n {
        Some(slice_of(text, j + 4, n))
    } else {
        None
    };
    Some(Request { method, path, body })
}

/// The size of the one read made on a connection; a longer request is cut
/// at this many bytes.
pub const REQUEST_BUFFER_SIZE: usize = 4096;

/// The text that `b` decodes to as UTF-8, each invalid sequence replaced by
/// U+FFFD.
pub uninterp spec fn utf8_lossy(b: Seq<u8>) -> Seq<char>;

/// Relies on `String::from_utf8_lossy`: decodes the bytes, replacing each
/// invalid sequence; the result depends on the bytes alone.
#[verifier::external_body]
fn decode_lossy(b: &[u8]) -> (r: String)
    ensures
        r@ == utf8_lossy(b@),
{
    String::from_utf8_lossy(b).into_owned()
}

/// The request held by the bytes `buf` read from a connection, decoded as
/// UTF-8 with invalid sequences replaced. `None` where the first line has
/// fewer than two tokens: such a connection gets no response.
pub fn parse_request(buf: &[u8]) -> (r: Option<Request>)
    ensures
        match r {
            Some(req) => request_of(utf8_lossy(buf@)) == Some(req@),
            None => request_of(utf8_lossy(buf@)) is None,
        },
{
    let text = decode_lossy(buf);
    parse_request_text(text.as_str())
}

} // verus!
