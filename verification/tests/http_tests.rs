use rust_servers::http::{first_line, hello_response, http_response};

#[test]
fn first_line_strips_crlf() {
    let got = first_line(b"GET / HTTP/1.1\r\nHost: x\r\n\r\n");
    assert_eq!(got, Some(b"GET / HTTP/1.1".to_vec()));
}

#[test]
fn first_line_strips_lone_lf() {
    assert_eq!(first_line(b"abc\ndef"), Some(b"abc".to_vec()));
}

#[test]
fn first_line_without_newline_is_whole_input() {
    assert_eq!(first_line(b"abc\r"), Some(b"abc\r".to_vec()));
    assert_eq!(first_line(b"xyz"), Some(b"xyz".to_vec()));
}

#[test]
fn first_line_of_nothing_is_none() {
    assert_eq!(first_line(b""), None);
}

#[test]
fn first_line_can_be_empty() {
    assert_eq!(first_line(b"\r\nrest"), Some(Vec::new()));
    assert_eq!(first_line(b"\n"), Some(Vec::new()));
}

#[test]
fn response_carries_byte_length() {
    let r = http_response("HTTP/1.1 200 OK", "hello");
    assert_eq!(r, "HTTP/1.1 200 OK\r\nContent-Length: 5\r\n\r\nhello");
}

#[test]
fn response_length_counts_bytes_not_chars() {
    let r = http_response("HTTP/1.1 200 OK", "é");
    assert_eq!(r, "HTTP/1.1 200 OK\r\nContent-Length: 2\r\n\r\né");
}

#[test]
fn response_with_empty_body() {
    let r = http_response("HTTP/1.1 404 NOT FOUND", "");
    assert_eq!(r, "HTTP/1.1 404 NOT FOUND\r\nContent-Length: 0\r\n\r\n");
}

#[test]
fn hello_response_is_exact() {
    let contents = "<html><body><h1>Hello from Naive Threaded Rust Server!</h1></body></html>";
    let expected = format!(
        "HTTP/1.1 200 OK\r\nContent-Length: {}\r\n\r\n{}",
        contents.len(),
        contents
    );
    assert_eq!(hello_response(), expected);
    assert!(hello_response().contains("Content-Length: 73\r\n"));
}
