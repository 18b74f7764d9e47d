//! The computing part of the hello-world HTTP server: taking the request line
//! out of the bytes read from a connection, and building the response.

use vstd::prelude::*;
use vstd::string::*;
use crate::text::{decimal, push_decimal};
use crate::exercises::parsing::{digits_value, is_digits, lemma_decimal_is_digits};

verus! {

/// Index of the first line feed (byte 10) in `data`, or its length if there is none.
pub open spec fn line_end(data: Seq<u8>) -> nat
    decreases data.len(),
{
    if data.len() == 0 {
        0
    } else if data[0] == 10 {
        0
    } else {
        1 + line_end(data.drop_first())
    }
}

/// The first line of `data` as a line reader hands it out: `None` when there
/// is no byte at all; otherwise the bytes before the first line feed, without
/// that line feed and, when the line was ended by one, without a carriage
/// return (byte 13) just before it.
pub open spec fn first_line_of(data: Seq<u8>) -> Option<Seq<u8>> {
    if data.len() == 0 {
        None
    } else {
        let end = line_end(data);
        let line = data.take(end as int);
        if end < data.len() && end > 0 && data[end - 1] == 13 {
            Some(line.drop_last())
        } else {
            Some(line)
        }
    }
}

proof fn lemma_line_end_bounds(data: Seq<u8>)
    ensures
        line_end(data) <= data.len(),
        forall|k: int| 0 <= k < line_end(data) ==> data[k] != 10,
        line_end(data) < data.len() ==> data[line_end(data) as int] == 10,
    decreases data.len(),
{
    if data.len() > 0 && data[0] != 10 {
        let rest = data.drop_first();
        lemma_line_end_bounds(rest);
        assert forall|k: int| 0 <= k < line_end(data) implies data[k] != 10 by {
            if k > 0 {
                assert(data[k] == rest[k - 1]);
            }
        }
    }
}

proof fn lemma_line_end_skip(data: Seq<u8>, i: int)
    requires
        0 <= i <= data.len(),
        forall|k: int| 0 <= k < i ==> data[k] != 10,
    ensures
        line_end(data) == i + line_end(data.skip(i)),
    decreases i,
{
    if i > 0 {
        let rest = data.drop_first();
        assert forall|k: int| 0 <= k < i - 1 implies rest[k] != 10 by {
            assert(rest[k] == data[k + 1]);
        }
        lemma_line_end_skip(rest, i - 1);
        assert(rest.skip(i - 1) =~= data.skip(i));
    } else {
        assert(data.skip(0) =~= data);
    }
}

/// The first line is every byte before the first line feed, less one
/// carriage return just before it.
pub proof fn lemma_first_line_before_line_feed(data: Seq<u8>, e: int)
    requires
        0 <= e < data.len(),
        data[e] == 10,
        forall|k: int| 0 <= k < e ==> data[k] != 10,
    ensures
        first_line_of(data) == Some(
            if e > 0 && data[e - 1] == 13 {
                data.take(e - 1)
            } else {
                data.take(e)
            },
        ),
{
    lemma_line_end_bounds(data);
    if line_end(data) < e {
        assert(data[line_end(data) as int] == 10);
    }
    assert(line_end(data) == e);
    if e > 0 && data[e - 1] == 13 {
        assert(data.take(e).drop_last() =~= data.take(e - 1));
    }
}

/// Without any line feed, the first line is all the bytes, a final carriage
/// return included; without any byte there is no line.
pub proof fn lemma_first_line_without_line_feed(data: Seq<u8>)
    requires
        forall|k: int| 0 <= k < data.len() ==> data[k] != 10,
    ensures
        data.len() == 0 ==> first_line_of(data) is None,
        data.len() > 0 ==> first_line_of(data) == Some(data),
{
    lemma_line_end_bounds(data);
    if line_end(data) < data.len() {
        assert(data[line_end(data) as int] == 10);
    }
    assert(data.take(data.len() as int) =~= data);
}

/// The first line of the bytes read from a connection (see [`first_line_of`]).
pub fn first_line(data: &[u8]) -> (line: Option<Vec<u8>>)
    ensures
        match line {
            Some(l) => first_line_of(data@) == Some(l@),
            None => first_line_of(data@) is None,
        },
{
    if data.len() == 0 {
        return None;
    }
    let mut end: usize = 0;
    while end < data.len() && data[end] != 10u8
        invariant
            end <= data@.len(),
            forall|k: int| 0 <= k < end ==> data@[k] != 10,
        decreases data@.len() - end,
    {
        end = end + 1;
    }
    proof {
        lemma_line_end_skip(data@, end as int);
        if end < data@.len() {
            assert(data@.skip(end as int)[0] == 10);
        }
    }
    let mut stop = end;
    if end < data.len() && end > 0 && data[end - 1] == 13u8 {
        stop = end - 1;
    }
    let mut line: Vec<u8> = Vec::new();
    let mut i: usize = 0;
    while i < stop
        invariant
            stop <= end <= data@.len(),
            i <= stop,
            line@ == data@.take(i as int),
        decreases stop - i,
    {
        line.push(data[i]);
        i = i + 1;
        assert(line@ =~= data@.take(i as int));
    }
    proof {
        let t = data@.take(end as int);
        if stop < end {
            assert(line@ =~= t.drop_last());
        } else {
            assert(line@ =~= t);
        }
    }
    Some(line)
}

/// The text of an HTTP response with the given status line whose body is
/// `body`, announced as `body_bytes` bytes long.
pub open spec fn response_text(status_line: Seq<char>, body: Seq<char>, body_bytes: nat) -> Seq<
    char,
> {
    status_line + "\r\nContent-Length: "@ + decimal(body_bytes) + "\r\n\r\n"@ + body
}

/// A response is the status line, `"\r\nContent-Length: "`, a run of digits
/// whose value is the announced body length, `"\r\n\r\n"`, then the body.
pub proof fn lemma_response_layout(status_line: Seq<char>, body: Seq<char>, n: nat)
    ensures
        ({
            let r = response_text(status_line, body, n);
            let start = status_line.len() + 18int;
            let end = r.len() - 4 - body.len();
            &&& start < end
            &&& r.subrange(0, status_line.len() as int) == status_line
            &&& r.subrange(status_line.len() as int, start) == "\r\nContent-Length: "@
            &&& is_digits(r.subrange(start, end))
            &&& digits_value(r.subrange(start, end)) == n
            &&& r.subrange(end, end + 4) == "\r\n\r\n"@
            &&& r.subrange(end + 4, r.len() as int) == body
        }),
{
    reveal_strlit("\r\nContent-Length: ");
    reveal_strlit("\r\n\r\n");
    lemma_decimal_is_digits(n);
    let r = response_text(status_line, body, n);
    let h = "\r\nContent-Length: "@;
    let d = decimal(n);
    let t = "\r\n\r\n"@;
    assert(r == status_line + h + d + t + body);
    let start = status_line.len() + 18int;
    let end = r.len() - 4 - body.len();
    assert(r.subrange(0, status_line.len() as int) =~= status_line);
    assert(r.subrange(status_line.len() as int, start) =~= h);
    assert(r.subrange(start, end) =~= d);
    assert(r.subrange(end, end + 4) =~= t);
    assert(r.subrange(end + 4, r.len() as int) =~= body);
}

/// An HTTP response: the status line, a `Content-Length` header that gives
/// the length of `contents` in bytes, a blank line, then `contents`.
pub fn http_response(status_line: &str, contents: &str) -> (r: String)
    ensures
        r@ == response_text(status_line@, contents@, contents.len() as nat),
{
    let mut r = String::from_str(status_line);
    r.append("\r\nContent-Length: ");
    let length = contents.len();
    push_decimal(&mut r, length as u64);
    r.append("\r\n\r\n");
    r.append(contents);
    r
}

/// The status line of a successful response.
pub open spec fn ok_status() -> Seq<char> {
    "HTTP/1.1 200 OK"@
}

/// The page that the server answers every request with.
pub open spec fn hello_page() -> Seq<char> {
    "<html><body><h1>Hello from Naive Threaded Rust Server!</h1></body></html>"@
}

/// The response the server sends to every request: status 200 and the hello
/// page, whose length in bytes equals its number of characters.
pub fn hello_response() -> (r: String)
    ensures
        r@ == response_text(ok_status(), hello_page(), hello_page().len()),
{
    let status_line = "HTTP/1.1 200 OK";
    let contents = "<html><body><h1>Hello from Naive Threaded Rust Server!</h1></body></html>";
    proof {
        reveal_strlit("<html><body><h1>Hello from Naive Threaded Rust Server!</h1></body></html>");
        assert(vstd::utf8::is_ascii_chars(contents@));
        vstd::utf8::is_ascii_chars_encode_utf8(contents@);
    }
    http_response(status_line, contents)
}

} // verus!
