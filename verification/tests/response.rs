use docker_client::http::number::{read_digits, read_i32, read_usize, trim_bytes};
use docker_client::http::response::{parse_head, Head};
use docker_client::http::scan::{find_bytes, matches_at, split_first, starts_with_bytes};
use docker_client::http::{Decoder, ExchangeError, FramingError, Progress, Response};

fn reads(chunks: &[&[u8]]) -> Vec<Vec<u8>> {
    chunks.iter().map(|c| c.to_vec()).collect()
}

#[test]
fn body_arrives_in_two_reads() {
    let input = reads(&[b"HTTP/1.1 200 OK\r\nContent-Length: 11\r\n\r\nhello ", b"world"]);
    let response = Response::read(&input, 16).unwrap();
    assert_eq!(response.status, 200);
    assert_eq!(response.body, "hello world");
    assert_eq!(response.content_length, 11);
}

#[test]
fn body_arrives_byte_by_byte() {
    let input = reads(&[b"HTTP/1.1 200 OK\r\nContent-Length: 3\r\n\r\n", b"a", b"b", b"c", b"d"]);
    let response = Response::read(&input, 3).unwrap();
    assert_eq!(response.body, "abc");
}

#[test]
fn no_content_returns_at_once() {
    let input = reads(&[b"HTTP/1.1 204 No Content\r\nContent-Length: 50\r\n\r\n"]);
    let response = Response::read(&input, 0).unwrap();
    assert_eq!(response.status, 204);
    assert_eq!(response.body, "");
    assert_eq!(response.content_length, 50);
}

#[test]
fn no_content_ignores_later_reads() {
    let input = reads(&[b"HTTP/1.1 204 No Content\r\nContent-Length: 5\r\n\r\n", b"late!"]);
    let response = Response::read(&input, 8).unwrap();
    assert_eq!(response.body, "");
}

#[test]
fn no_content_keeps_what_the_first_read_holds() {
    let input = reads(&[b"HTTP/1.1 204 No Content\r\n\r\nxyz"]);
    let response = Response::read(&input, 8).unwrap();
    assert_eq!(response.status, 204);
    assert_eq!(response.body, "xyz");
    assert_eq!(response.content_length, 0);
}

#[test]
fn missing_boundary_is_a_framing_error() {
    let input = reads(&[b"\x00\x01garbage without any blank line\r\n"]);
    let error = Response::read(&input, 8).unwrap_err();
    assert_eq!(error, ExchangeError::Framing(FramingError::MissingBoundary));
}

#[test]
fn head_split_over_two_reads_is_a_framing_error() {
    let input = reads(&[b"HTTP/1.1 200 OK\r\nContent-Le", b"ngth: 2\r\n\r\nok"]);
    let error = Response::read(&input, 8).unwrap_err();
    assert_eq!(error, ExchangeError::Framing(FramingError::MissingBoundary));
}

#[test]
fn empty_stream_is_a_framing_error() {
    let none: Vec<Vec<u8>> = Vec::new();
    assert_eq!(
        Response::read(&none, 8).unwrap_err(),
        ExchangeError::Framing(FramingError::MissingBoundary)
    );
    assert_eq!(
        Response::read(&reads(&[b""]), 8).unwrap_err(),
        ExchangeError::Framing(FramingError::MissingBoundary)
    );
}

#[test]
fn malformed_status_line_is_a_framing_error() {
    for first in [
        &b"HTTP/1.1\r\n\r\n"[..],
        b"HTTP/1.1 abc OK\r\n\r\n",
        b"HTTP/1.1  200 OK\r\n\r\n",
        b"FTP/1.1 200 OK\r\n\r\n",
        b"200 OK\r\n\r\n",
        b"HTTP/1.1 99999999999 OK\r\n\r\n",
        b"\r\n\r\n",
    ] {
        assert_eq!(parse_head(first), Err(FramingError::StatusLine), "{:?}", first);
    }
}

#[test]
fn malformed_length_is_a_framing_error() {
    for first in [
        &b"HTTP/1.1 200 OK\r\nContent-Length: eleven\r\n\r\n"[..],
        b"HTTP/1.1 200 OK\r\nContent-Length:\r\n\r\n",
        b"HTTP/1.1 200 OK\r\nContent-Length: -1\r\n\r\n",
        b"HTTP/1.1 200 OK\r\nContent-Length: 1 1\r\n\r\n",
        b"HTTP/1.1 200 OK\r\nX: Content-Length: 5\r\n\r\n",
        b"HTTP/1.1 200 OK\r\nContent-Length: 99999999999999999999999999\r\n\r\n",
    ] {
        assert_eq!(parse_head(first), Err(FramingError::ContentLength), "{:?}", first);
    }
}

#[test]
fn malformed_length_is_reported_before_the_status_line() {
    assert_eq!(
        parse_head(b"nonsense\r\nContent-Length: x\r\n\r\n"),
        Err(FramingError::ContentLength)
    );
}

#[test]
fn head_is_read_exactly() {
    assert_eq!(
        parse_head(b"HTTP/1.1 200 OK\r\nContent-Length: 11\r\n\r\nhello "),
        Ok(Head { status: 200, content_length: 11, body_start: 39 })
    );
    assert_eq!(
        parse_head(b"HTTP/1.0 404 Not Found\r\nServer: x\r\n\r\n"),
        Ok(Head { status: 404, content_length: 0, body_start: 37 })
    );
    assert_eq!(
        parse_head(b"HTTP/1.1 500\r\n\r\n"),
        Ok(Head { status: 500, content_length: 0, body_start: 16 })
    );
}

#[test]
fn length_is_found_in_any_line_that_names_it() {
    let head = parse_head(b"HTTP/1.1 200 OK\r\nX-Content-Length:\t 7 \r\n\r\n").unwrap();
    assert_eq!(head.content_length, 7);
    let head = parse_head(b"HTTP/1.1 200 OK\r\nContent-Length: 7:9\r\n\r\n").unwrap();
    assert_eq!(head.content_length, 7);
    let head = parse_head(b"HTTP/1.1 200 OK\r\ncontent-length: 7\r\n\r\n").unwrap();
    assert_eq!(head.content_length, 0);
}

#[test]
fn last_length_wins() {
    let head =
        parse_head(b"HTTP/1.1 200 OK\r\nContent-Length: 3\r\nContent-Length: +4\r\n\r\n").unwrap();
    assert_eq!(head.content_length, 4);
}

#[test]
fn head_ends_at_the_first_empty_line() {
    let input = reads(&[b"HTTP/1.1 200 OK\r\nContent-Length: 6\r\n\r\na\r\n\r\nb"]);
    let response = Response::read(&input, 0).unwrap();
    assert_eq!(response.body, "a\r\n\r\nb");
}

#[test]
fn body_longer_than_declared_is_kept_whole() {
    let input = reads(&[b"HTTP/1.1 200 OK\r\nContent-Length: 2\r\n\r\nabcdef"]);
    let response = Response::read(&input, 4).unwrap();
    assert_eq!(response.body, "abcdef");
    assert_eq!(response.content_length, 2);
}

#[test]
fn closed_stream_truncates_the_body() {
    let input = reads(&[b"HTTP/1.1 200 OK\r\nContent-Length: 11\r\n\r\nhello "]);
    assert_eq!(Response::read(&input, 16).unwrap_err(), ExchangeError::TruncatedBody);
    let input = reads(&[b"HTTP/1.1 200 OK\r\nContent-Length: 11\r\n\r\nhello ", b"", b"world"]);
    assert_eq!(Response::read(&input, 16).unwrap_err(), ExchangeError::TruncatedBody);
}

#[test]
fn spent_reads_time_out() {
    let input = reads(&[b"HTTP/1.1 200 OK\r\nContent-Length: 4\r\n\r\na", b"b", b"c", b"d"]);
    assert_eq!(Response::read(&input, 2).unwrap_err(), ExchangeError::Timeout);
    assert_eq!(Response::read(&input, 0).unwrap_err(), ExchangeError::Timeout);
    assert_eq!(Response::read(&input, 3).unwrap().body, "abcd");
}

#[test]
fn invalid_utf8_is_replaced() {
    let input = reads(&[b"HTTP/1.1 200 OK\r\nContent-Length: 3\r\n\r\na\xffb"]);
    let response = Response::read(&input, 0).unwrap();
    assert_eq!(response.body, "a\u{fffd}b");
}

#[test]
fn multibyte_character_may_span_two_reads() {
    let input = reads(&[b"HTTP/1.1 200 OK\r\nContent-Length: 3\r\n\r\na\xc3", b"\xa9"]);
    let response = Response::read(&input, 1).unwrap();
    assert_eq!(response.body, "a\u{e9}");
}

#[test]
fn first_read_alone_can_be_parsed() {
    let response = Response::parse(b"HTTP/1.1 201 Created\r\nContent-Length: 9\r\n\r\n{\"Id\"").unwrap();
    assert_eq!(response.status, 201);
    assert_eq!(response.body, "{\"Id\"");
    assert_eq!(response.content_length, 9);
    let copy = response.clone();
    assert_eq!(copy.body, response.body);
    assert_eq!(Response::parse(b"nothing").unwrap_err(), FramingError::MissingBoundary);
}

#[test]
fn decoder_takes_reads_one_by_one() {
    let mut decoder = Decoder::begin(b"HTTP/1.1 200 OK\r\nContent-Length: 4\r\n\r\nab", 2).unwrap();
    assert_eq!(decoder.progress(), Progress::WantsRead);
    assert_eq!(decoder.accept(b"c"), Ok(()));
    assert_eq!(decoder.progress(), Progress::WantsRead);
    assert_eq!(decoder.accept(b"d"), Ok(()));
    assert_eq!(decoder.progress(), Progress::Complete);
    let response = decoder.finish().unwrap();
    assert_eq!(response.body, "abcd");

    let mut decoder = Decoder::begin(b"HTTP/1.1 200 OK\r\nContent-Length: 4\r\n\r\n", 1).unwrap();
    assert_eq!(decoder.accept(b""), Err(ExchangeError::TruncatedBody));
    assert_eq!(decoder.progress(), Progress::WantsRead);
    assert_eq!(decoder.accept(b"x"), Ok(()));
    assert_eq!(decoder.progress(), Progress::TimedOut);
    assert_eq!(decoder.accept(b"yz"), Err(ExchangeError::Timeout));
    assert_eq!(decoder.finish().unwrap_err(), ExchangeError::Timeout);
    assert!(Decoder::begin(b"x", 1).is_err());

    let mut decoder = Decoder::begin(b"HTTP/1.1 200 OK\r\nContent-Length: 1\r\n\r\na", 1).unwrap();
    assert_eq!(decoder.accept(b"more"), Ok(()));
    assert_eq!(decoder.finish().unwrap().body, "a");
    let decoder = Decoder::begin(b"HTTP/1.1 200 OK\r\nContent-Length: 2\r\n\r\na", 1).unwrap();
    assert_eq!(decoder.finish().unwrap_err(), ExchangeError::TruncatedBody);
}

#[test]
fn integers_are_read_as_rust_reads_them() {
    assert_eq!(read_usize(b"11"), Some(11));
    assert_eq!(read_usize(b"+11"), Some(11));
    assert_eq!(read_usize(b"007"), Some(7));
    assert_eq!(read_usize(b"0"), Some(0));
    assert_eq!(read_usize(b""), None);
    assert_eq!(read_usize(b"+"), None);
    assert_eq!(read_usize(b"-1"), None);
    assert_eq!(read_usize(b" 1"), None);
    assert_eq!(read_usize(b"1a"), None);
    assert_eq!(read_usize(b"++1"), None);
    assert_eq!(read_usize(usize::MAX.to_string().as_bytes()), Some(usize::MAX));
    assert_eq!(read_usize(b"18446744073709551616"), None);
    assert_eq!(read_usize(b"99999999999999999999999999"), None);

    assert_eq!(read_i32(b"200"), Some(200));
    assert_eq!(read_i32(b"+7"), Some(7));
    assert_eq!(read_i32(b"-5"), Some(-5));
    assert_eq!(read_i32(b"-0"), Some(0));
    assert_eq!(read_i32(b"2147483647"), Some(i32::MAX));
    assert_eq!(read_i32(b"2147483648"), None);
    assert_eq!(read_i32(b"-2147483648"), Some(i32::MIN));
    assert_eq!(read_i32(b"-2147483649"), None);
    assert_eq!(read_i32(b""), None);
    assert_eq!(read_i32(b"-"), None);
    assert_eq!(read_i32(b"+-1"), None);
    assert_eq!(read_i32(b"1.0"), None);

    assert_eq!(read_digits(b"18446744073709551615"), Some(u64::MAX));
    assert_eq!(read_digits(b"18446744073709551616"), None);
    assert_eq!(read_digits(b"+1"), None);
}

#[test]
fn white_space_is_trimmed_at_both_ends() {
    assert_eq!(trim_bytes(b"  11\t\r\n"), b"11");
    assert_eq!(trim_bytes(b"\x0b\x0c1 1 "), b"1 1");
    assert_eq!(trim_bytes(b" \t "), b"");
    assert_eq!(trim_bytes(b""), b"");
    assert_eq!(trim_bytes(b"x"), b"x");
    assert_eq!(trim_bytes(b"\xa0x"), b"\xa0x");
}

#[test]
fn patterns_are_found_at_their_first_place() {
    assert_eq!(find_bytes(b"a\r\n\r\nb\r\n\r\n", b"\r\n\r\n"), Some(1));
    assert_eq!(find_bytes(b"aaa", b"aa"), Some(0));
    assert_eq!(find_bytes(b"abc", b"c"), Some(2));
    assert_eq!(find_bytes(b"abc", b"d"), None);
    assert_eq!(find_bytes(b"ab", b"abc"), None);
    assert_eq!(find_bytes(b"", b"a"), None);
    assert_eq!(find_bytes(b"abc", b""), Some(0));
    assert!(matches_at(b"abc", b"bc", 1));
    assert!(!matches_at(b"abc", b"bc", 2));
    assert!(!matches_at(b"abc", b"bc", 7));
    assert!(starts_with_bytes(b"HTTP/1.1", b"HTTP/"));
    assert!(!starts_with_bytes(b"HTT", b"HTTP/"));
    let (head, rest) = split_first(b"k: v: w", b": ");
    assert_eq!(head, b"k");
    assert_eq!(rest, Some(&b"v: w"[..]));
    let (head, rest) = split_first(b"none", b": ");
    assert_eq!(head, b"none");
    assert_eq!(rest, None);
}
