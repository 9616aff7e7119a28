//! How a reader of HTTP/1.1 takes a request apart, and the law that it
//! gets back what the encoder was given.

use crate::http::request::{
    header_block, header_line, method_text, sent_headers, HTTPMethod, Request,
};
use crate::http::scan::{
    find, find_last, lemma_find_first, lemma_find_last, lemma_find_last_none, occurs_at,
};
use crate::text::{decimal, digit_char};
use vstd::prelude::*;
use vstd::utf8::encode_utf8;

verus! {

/// A request as its reader sees it.
pub struct ParsedRequest {
    /// The method, as written.
    pub method: Seq<char>,
    /// The target: path and query, as written.
    pub target: Seq<char>,
    /// The header fields in the order of their lines, each value without
    /// the white space around it.
    pub headers: Seq<(Seq<char>, Seq<char>)>,
    /// The body.
    pub body: Seq<char>,
}

/// The line break.
pub open spec fn line_break() -> Seq<char> {
    seq!['\r', '\n']
}

/// The empty line that ends the header block.
pub open spec fn head_end() -> Seq<char> {
    seq!['\r', '\n', '\r', '\n']
}

/// The lines of a header block: the text between its line breaks.
pub open spec fn lines_of(head: Seq<char>) -> Seq<Seq<char>>
    decreases head.len(),
{
    match find_last(head, line_break()) {
        Some(i) => if 0 <= i && i + 2 <= head.len() {
            lines_of(head.take(i)).push(head.skip(i + 2))
        } else {
            seq![head]
        },
        None => seq![head],
    }
}

/// The method and the target of a request line
/// `<method> <target> HTTP/1.1`.
pub open spec fn request_line_of(line: Seq<char>) -> Option<(Seq<char>, Seq<char>)> {
    match find(line, seq![' ']) {
        Some(i) => {
            let rest = line.skip(i + 1);
            match find(rest, seq![' ']) {
                Some(j) => if rest.skip(j + 1) == "HTTP/1.1"@ {
                    Some((line.take(i), rest.take(j)))
                } else {
                    None
                },
                None => None,
            }
        },
        None => None,
    }
}

/// Optional white space in a header field: space and tab.
pub open spec fn is_blank(c: char) -> bool {
    c == ' ' || c == '\t'
}

/// `s` without the blanks at its start.
pub open spec fn strip_start(s: Seq<char>) -> Seq<char>
    decreases s.len(),
{
    if s.len() > 0 && is_blank(s[0]) {
        strip_start(s.skip(1))
    } else {
        s
    }
}

/// `s` without the blanks at its end.
pub open spec fn strip_end(s: Seq<char>) -> Seq<char>
    decreases s.len(),
{
    if s.len() > 0 && is_blank(s.last()) {
        strip_end(s.drop_last())
    } else {
        s
    }
}

/// The name and the value of a header line `<name>:<value>`: the name is
/// what stands before the first colon, the value what stands behind it,
/// without the blanks around it.
pub open spec fn header_of(line: Seq<char>) -> Option<(Seq<char>, Seq<char>)> {
    match find(line, seq![':']) {
        Some(i) => Some((line.take(i), strip_end(strip_start(line.skip(i + 1))))),
        None => None,
    }
}

/// The header fields of the lines `lines`, if each of them is one.
pub open spec fn headers_of(lines: Seq<Seq<char>>) -> Option<Seq<(Seq<char>, Seq<char>)>>
    decreases lines.len(),
{
    if lines.len() == 0 {
        Some(Seq::empty())
    } else {
        match (headers_of(lines.drop_last()), header_of(lines.last())) {
            (Some(hs), Some(h)) => Some(hs.push(h)),
            _ => None,
        }
    }
}

/// The digit that `c` writes.
pub open spec fn digit_of(c: char) -> Option<nat> {
    if c == '0' {
        Some(0)
    } else if c == '1' {
        Some(1)
    } else if c == '2' {
        Some(2)
    } else if c == '3' {
        Some(3)
    } else if c == '4' {
        Some(4)
    } else if c == '5' {
        Some(5)
    } else if c == '6' {
        Some(6)
    } else if c == '7' {
        Some(7)
    } else if c == '8' {
        Some(8)
    } else if c == '9' {
        Some(9)
    } else {
        None
    }
}

/// The number that `s` writes, where `s` is one or more decimal digits.
pub open spec fn numeral_of(s: Seq<char>) -> Option<nat>
    decreases s.len(),
{
    if s.len() == 0 {
        None
    } else if s.len() == 1 {
        digit_of(s[0])
    } else {
        match (numeral_of(s.drop_last()), digit_of(s.last())) {
            (Some(v), Some(d)) => Some(v * 10 + d),
            _ => None,
        }
    }
}

/// `a` and `b` are the same letter of ASCII, in either case, or the same
/// character.
pub open spec fn same_letter(a: char, b: char) -> bool {
    let x = a as u32;
    let y = b as u32;
    x == y || (65 <= x <= 90 && y == x + 32) || (65 <= y <= 90 && x == y + 32)
}

/// `name` is `Content-Length` in any mix of upper and lower case.
pub open spec fn names_length(name: Seq<char>) -> bool {
    name.len() == "Content-Length"@.len() && forall|i: int|
        0 <= i < name.len() ==> same_letter(#[trigger] name[i], "Content-Length"@[i])
}

/// Some header of `hs` declares the body's length.
pub open spec fn declares_length(hs: Seq<(Seq<char>, Seq<char>)>) -> bool {
    exists|i: int| 0 <= i < hs.len() && names_length((#[trigger] hs[i]).0)
}

/// Whether `body` is the whole body that the headers `hs` announce: with
/// a `Content-Length` header the body has as many bytes as it declares
/// (and every header of that name declares the same); without one the
/// body is empty.
pub open spec fn body_fits(hs: Seq<(Seq<char>, Seq<char>)>, body: Seq<char>) -> bool {
    if declares_length(hs) {
        let k = choose|i: int| 0 <= i < hs.len() && names_length((#[trigger] hs[i]).0);
        &&& forall|i: int|
            0 <= i < hs.len() && names_length((#[trigger] hs[i]).0) ==> hs[i].1 == hs[k].1
        &&& numeral_of(hs[k].1) == Some(encode_utf8(body).len())
    } else {
        body.len() == 0
    }
}

/// The request that the text `text` is, where it is exactly one: a
/// request line and header lines, each ended by a line break, an empty
/// line, and a body of the announced length.
pub open spec fn parse_request(text: Seq<char>) -> Option<ParsedRequest> {
    match find(text, head_end()) {
        Some(k) => {
            let lines = lines_of(text.take(k));
            let body = text.skip(k + 4);
            match (request_line_of(lines[0]), headers_of(lines.skip(1))) {
                (Some(line), Some(hs)) => if body_fits(hs, body) {
                    Some(ParsedRequest { method: line.0, target: line.1, headers: hs, body })
                } else {
                    None
                },
                _ => None,
            }
        },
        None => None,
    }
}

/// `s` holds no carriage return and no line feed.
pub open spec fn no_break(s: Seq<char>) -> bool {
    forall|i: int| 0 <= i < s.len() ==> #[trigger] s[i] != '\r' && s[i] != '\n'
}

/// A target that a request line can carry: no line break and no space.
pub open spec fn plain_target(s: Seq<char>) -> bool {
    no_break(s) && forall|i: int| 0 <= i < s.len() ==> #[trigger] s[i] != ' '
}

/// A header name that a header line can carry: no line break and no
/// colon.
pub open spec fn plain_name(s: Seq<char>) -> bool {
    no_break(s) && forall|i: int| 0 <= i < s.len() ==> #[trigger] s[i] != ':'
}

/// A header value that a header line can carry: no line break, and no
/// blank at its start or end.
pub open spec fn plain_value(s: Seq<char>) -> bool {
    no_break(s) && (s.len() > 0 ==> !is_blank(s[0]) && !is_blank(s.last()))
}

/// Every header has a plain name and a plain value.
pub open spec fn plain_headers(hs: Seq<(Seq<char>, Seq<char>)>) -> bool {
    forall|i: int|
        0 <= i < hs.len() ==> plain_name((#[trigger] hs[i]).0) && plain_value(hs[i].1)
}

/// One header as the text of its line: the name, a colon, a space, the
/// value.
pub open spec fn field_text(h: (Seq<char>, Seq<char>)) -> Seq<char> {
    h.0 + seq![':', ' '] + h.1
}

/// The lines of the headers `hs`.
pub open spec fn field_lines(hs: Seq<(Seq<char>, Seq<char>)>) -> Seq<Seq<char>> {
    Seq::new(hs.len(), |i: int| field_text(hs[i]))
}

/// A decimal numeral reads back as the number it writes, and is a plain
/// header value.
pub proof fn lemma_decimal_reads_back(n: nat)
    ensures
        numeral_of(decimal(n)) == Some(n),
        decimal(n).len() >= 1,
        forall|i: int| 0 <= i < decimal(n).len() ==> digit_of(#[trigger] decimal(n)[i]) is Some,
        plain_value(decimal(n)),
    decreases n,
{
    if n < 10 {
        assert(digit_of(digit_char(n)) == Some(n));
    } else {
        lemma_decimal_reads_back(n / 10);
        let d = decimal(n / 10);
        let full = decimal(n);
        assert(full == d.push(digit_char(n % 10)));
        assert(full.drop_last() =~= d);
        assert(digit_of(digit_char(n % 10)) == Some(n % 10));
        assert forall|i: int| 0 <= i < full.len() implies digit_of(#[trigger] full[i]) is Some by {
            if i < d.len() {
                assert(full[i] == d[i]);
            }
        }
    }
    let full = decimal(n);
    assert forall|i: int| 0 <= i < full.len() implies #[trigger] full[i] != '\r' && full[i]
        != '\n' && !is_blank(full[i]) by {
        assert(digit_of(full[i]) is Some);
    }
}

/// A plain value behind one space is found again by stripping.
proof fn lemma_strip_plain(v: Seq<char>)
    requires
        plain_value(v),
    ensures
        strip_end(strip_start(seq![' '] + v)) == v,
{
    let s = seq![' '] + v;
    assert(s.skip(1) =~= v);
    assert(strip_start(s) == strip_start(v));
}

/// The line of a plain header gives back its name and value.
proof fn lemma_header_of_field(h: (Seq<char>, Seq<char>))
    requires
        plain_name(h.0),
        plain_value(h.1),
    ensures
        header_of(field_text(h)) == Some(h),
        no_break(field_text(h)),
        field_text(h).len() >= 2,
        field_text(h)[0] != '\r',
{
    let line = field_text(h);
    let n = h.0.len() as int;
    assert(line.subrange(n, n + 1) =~= seq![':']);
    assert forall|j: int| 0 <= j < n implies !occurs_at(line, seq![':'], j) by {
        assert(line.subrange(j, j + 1)[0] == h.0[j]);
    }
    lemma_find_first(line, seq![':'], n);
    assert(line.take(n) =~= h.0);
    assert(line.skip(n + 1) =~= seq![' '] + h.1);
    lemma_strip_plain(h.1);
    assert forall|i: int| 0 <= i < line.len() implies #[trigger] line[i] != '\r' && line[i]
        != '\n' by {
        if i < n {
            assert(line[i] == h.0[i]);
        } else if i >= n + 2 {
            assert(line[i] == h.1[i - n - 2]);
        }
    }
}

/// The lines of plain headers give back the headers.
proof fn lemma_headers_of_fields(hs: Seq<(Seq<char>, Seq<char>)>)
    requires
        plain_headers(hs),
    ensures
        headers_of(field_lines(hs)) == Some(hs),
    decreases hs.len(),
{
    let lines = field_lines(hs);
    if hs.len() == 0 {
        assert(hs =~= Seq::empty());
    } else {
        lemma_headers_of_fields(hs.drop_last());
        assert(lines.drop_last() =~= field_lines(hs.drop_last()));
        assert(lines.last() == field_text(hs.last()));
        lemma_header_of_field(hs.last());
        assert(hs.drop_last().push(hs.last()) =~= hs);
    }
}

/// A carriage return stands at position `j` of `s`.
pub open spec fn break_at(s: Seq<char>, j: int) -> bool {
    0 <= j < s.len() && s[j] == '\r'
}

/// Every carriage return of `s` is followed, two places on, by something
/// that is no carriage return: `s` holds no empty line and does not end
/// in a line break.
pub open spec fn calm(s: Seq<char>) -> bool {
    forall|j: int| #[trigger] break_at(s, j) ==> j + 2 < s.len() && s[j + 2] != '\r'
}

/// A header line is a line break and the header's text.
proof fn lemma_header_line_text(h: (Seq<char>, Seq<char>))
    ensures
        header_line(h) == line_break() + field_text(h),
{
    reveal_strlit("\r\n");
    reveal_strlit(": ");
    assert(header_line(h) =~= line_break() + field_text(h));
}

/// A calm text stays calm when a line break and a line without breaks
/// are added, where the line is not empty.
proof fn lemma_calm_grows(prev: Seq<char>, line: Seq<char>)
    requires
        calm(prev),
        no_break(line),
        line.len() > 0,
    ensures
        calm(prev + line_break() + line),
{
    let head = prev + line_break() + line;
    let n = prev.len() as int;
    assert forall|j: int| #[trigger] break_at(head, j) implies j + 2 < head.len() && head[j + 2]
        != '\r' by {
        if j < n {
            assert(break_at(prev, j));
            assert(head[j + 2] == prev[j + 2]);
        } else if j == n {
            assert(head[j + 2] == line[0]);
        } else if j == n + 1 {
            assert(head[j] == '\n');
        } else {
            assert(head[j] == line[j - n - 2]);
        }
    }
}

/// The lines of a text to which a line break and a line without breaks
/// are added are its lines and that line.
proof fn lemma_lines_grow(prev: Seq<char>, line: Seq<char>)
    requires
        no_break(line),
    ensures
        lines_of(prev + line_break() + line) == lines_of(prev).push(line),
{
    let head = prev + line_break() + line;
    let n = prev.len() as int;
    assert(head.subrange(n, n + 2) =~= line_break());
    assert forall|j: int| n < j implies !occurs_at(head, line_break(), j) by {
        if occurs_at(head, line_break(), j) {
            assert(head.subrange(j, j + 2)[0] == head[j]);
            if j >= n + 2 {
                assert(head[j] == line[j - n - 2]);
            } else {
                assert(head[j] == '\n');
            }
        }
    }
    lemma_find_last(head, line_break(), n);
    assert(head.take(n) =~= prev);
    assert(head.skip(n + 2) =~= line);
}

/// A text without breaks is calm and is its own single line.
proof fn lemma_single_line(first: Seq<char>)
    requires
        no_break(first),
    ensures
        calm(first),
        lines_of(first) == seq![first],
{
    assert forall|i: int| !occurs_at(first, line_break(), i) by {
        if occurs_at(first, line_break(), i) {
            assert(first.subrange(i, i + 2)[0] == first[i]);
        }
    }
    lemma_find_last_none(first, line_break());
}

/// The text of a plain header holds no break and is not empty.
proof fn lemma_field_text_plain(h: (Seq<char>, Seq<char>))
    requires
        plain_name(h.0),
        plain_value(h.1),
    ensures
        no_break(field_text(h)),
        field_text(h).len() > 0,
{
    let line = field_text(h);
    let n = h.0.len() as int;
    assert forall|i: int| 0 <= i < line.len() implies #[trigger] line[i] != '\r' && line[i]
        != '\n' by {
        if i < n {
            assert(line[i] == h.0[i]);
        } else if i >= n + 2 {
            assert(line[i] == h.1[i - n - 2]);
        }
    }
}

/// A header block with one more header is the block, a line break and
/// that header's text.
proof fn lemma_block_grows(first: Seq<char>, hs: Seq<(Seq<char>, Seq<char>)>)
    requires
        hs.len() > 0,
    ensures
        first + header_block(hs) == first + header_block(hs.drop_last()) + line_break()
            + field_text(hs.last()),
{
    lemma_header_line_text(hs.last());
    assert(first + header_block(hs) =~= first + header_block(hs.drop_last()) + line_break()
        + field_text(hs.last()));
}

/// A request line followed by the lines of plain headers is calm, and
/// its lines are the request line and the headers' texts.
proof fn lemma_head_lines(first: Seq<char>, hs: Seq<(Seq<char>, Seq<char>)>)
    requires
        no_break(first),
        plain_headers(hs),
    ensures
        calm(first + header_block(hs)),
        lines_of(first + header_block(hs)) == seq![first] + field_lines(hs),
    decreases hs.len(),
{
    if hs.len() == 0 {
        assert(first + header_block(hs) =~= first);
        lemma_single_line(first);
        assert(seq![first] + field_lines(hs) =~= seq![first]);
    } else {
        let before = hs.drop_last();
        let prev = first + header_block(before);
        let line = field_text(hs.last());
        lemma_head_lines(first, before);
        lemma_block_grows(first, hs);
        lemma_field_text_plain(hs.last());
        lemma_calm_grows(prev, line);
        lemma_lines_grow(prev, line);
        assert(seq![first] + field_lines(hs) =~= (seq![first] + field_lines(before)).push(line));
    }
}

/// Behind a calm head, the first empty line is the one that ends it.
proof fn lemma_head_end_found(head: Seq<char>, body: Seq<char>)
    requires
        calm(head),
    ensures
        find(head + head_end() + body, head_end()) == Some(head.len() as int),
        (head + head_end() + body).take(head.len() as int) == head,
        (head + head_end() + body).skip(head.len() as int + 4) == body,
{
    let text = head + head_end() + body;
    let n = head.len() as int;
    assert(text.subrange(n, n + 4) =~= head_end());
    assert forall|j: int| 0 <= j < n implies !occurs_at(text, head_end(), j) by {
        if occurs_at(text, head_end(), j) {
            let part = text.subrange(j, j + 4);
            assert(part[0] == text[j]);
            assert(part[2] == text[j + 2]);
            assert(break_at(head, j));
            assert(text[j + 2] == head[j + 2]);
        }
    }
    lemma_find_first(text, head_end(), n);
    assert(text.take(n) =~= head);
    assert(text.skip(n + 4) =~= body);
}

/// A request line gives back its method and target, where neither holds
/// a space.
proof fn lemma_request_line(method: Seq<char>, target: Seq<char>)
    requires
        forall|i: int| 0 <= i < method.len() ==> #[trigger] method[i] != ' ',
        forall|i: int| 0 <= i < target.len() ==> #[trigger] target[i] != ' ',
    ensures
        request_line_of(method + " "@ + target + " HTTP/1.1"@) == Some((method, target)),
{
    reveal_strlit(" ");
    reveal_strlit(" HTTP/1.1");
    reveal_strlit("HTTP/1.1");
    let line = method + " "@ + target + " HTTP/1.1"@;
    let m = method.len() as int;
    let t = target.len() as int;
    assert(line.subrange(m, m + 1) =~= seq![' ']);
    assert forall|j: int| 0 <= j < m implies !occurs_at(line, seq![' '], j) by {
        assert(line.subrange(j, j + 1)[0] == method[j]);
    }
    lemma_find_first(line, seq![' '], m);
    let rest = line.skip(m + 1);
    assert(rest =~= target + " HTTP/1.1"@);
    assert(rest.subrange(t, t + 1) =~= seq![' ']);
    assert forall|j: int| 0 <= j < t implies !occurs_at(rest, seq![' '], j) by {
        assert(rest.subrange(j, j + 1)[0] == target[j]);
    }
    lemma_find_first(rest, seq![' '], t);
    assert(rest.skip(t + 1) =~= "HTTP/1.1"@);
    assert(line.take(m) =~= method);
    assert(rest.take(t) =~= target);
}

/// The fixed texts of the encoder are plain.
proof fn lemma_fixed_texts(m: HTTPMethod)
    ensures
        plain_name("Host"@),
        plain_name("Content-Length"@),
        plain_name("Content-Type"@),
        plain_value("application/json"@),
        plain_target(method_text(m)),
        no_break(" "@),
        no_break(" HTTP/1.1"@),
        head_end() == "\r\n\r\n"@,
{
    reveal_strlit("Host");
    reveal_strlit("Content-Length");
    reveal_strlit("Content-Type");
    reveal_strlit("application/json");
    reveal_strlit("GET");
    reveal_strlit("POST");
    reveal_strlit("DELETE");
    reveal_strlit(" ");
    reveal_strlit(" HTTP/1.1");
    reveal_strlit("\r\n\r\n");
    assert(head_end() =~= "\r\n\r\n"@);
}

/// The headers that a request is sent with are plain where the caller's
/// own and the `Host` value are.
proof fn lemma_sent_headers_plain(
    own: Seq<(Seq<char>, Seq<char>)>,
    host: Seq<char>,
    m: HTTPMethod,
    body: Seq<char>,
)
    requires
        plain_headers(own),
        plain_value(host),
    ensures
        plain_headers(sent_headers(own, host, m, body)),
{
    lemma_fixed_texts(m);
    lemma_decimal_reads_back(encode_utf8(body).len());
    let sent = sent_headers(own, host, m, body);
    let n = own.len() as int;
    assert forall|i: int| 0 <= i < sent.len() implies plain_name((#[trigger] sent[i]).0)
        && plain_value(sent[i].1) by {
        if i < n {
            assert(sent[i] == own[i]);
        } else if i == n {
            assert(sent[i] == ("Host"@, host));
        } else if i == n + 1 {
            assert(sent[i] == ("Content-Length"@, decimal(encode_utf8(body).len())));
        } else {
            assert(sent[i] == ("Content-Type"@, "application/json"@));
        }
    }
}

/// The body of a request is the whole body that its headers announce,
/// where the caller set no `Content-Length` and only a POST has a body.
proof fn lemma_sent_body_fits(req: Request, host: Seq<char>)
    requires
        !declares_length(req.headers()),
        req.method() == HTTPMethod::POST || req.body().len() == 0,
    ensures
        body_fits(req.headers_sent(host), req.body()),
{
    let hs = req.headers_sent(host);
    let own = req.headers();
    reveal_strlit("Host");
    reveal_strlit("Content-Length");
    reveal_strlit("Content-Type");
    assert(!names_length("Host"@));
    assert(!names_length("Content-Type"@));
    assert(names_length("Content-Length"@));
    let n = own.len() as int;
    assert forall|i: int| 0 <= i < n implies !names_length((#[trigger] hs[i]).0) by {
        assert(hs[i] == own[i]);
        assert(!names_length(own[i].0));
    }
    assert(hs[n] == ("Host"@, host));
    if req.method() == HTTPMethod::POST && req.body().len() > 0 {
        let value = decimal(encode_utf8(req.body()).len());
        assert(hs.len() == n + 3);
        assert(hs[n + 1] == ("Content-Length"@, value));
        assert(hs[n + 2] == ("Content-Type"@, "application/json"@));
        assert(declares_length(hs));
        lemma_decimal_reads_back(encode_utf8(req.body()).len());
    } else {
        assert(hs =~= own.push(("Host"@, host)));
    }
}

/// Reading back what was sent: the text of a request, read as one HTTP/1.1
/// request, gives the request's method, its target, the headers it is
/// sent with, in their order, and its body.
///
/// This holds of requests that the wire format can carry: the target
/// holds no break and no space, the header names no break and no colon,
/// the header values and the `Host` value no break and no blank at
/// either end, the caller has set no `Content-Length` in any case of
/// letters, and only a POST has a body.
pub proof fn lemma_round_trip(req: Request, host: Seq<char>)
    requires
        plain_target(req.target()),
        plain_headers(req.headers()),
        plain_value(host),
        !declares_length(req.headers()),
        req.method() == HTTPMethod::POST || req.body().len() == 0,
    ensures
        parse_request(req.text(host)) == Some(
            ParsedRequest {
                method: method_text(req.method()),
                target: req.target(),
                headers: req.headers_sent(host),
                body: req.body(),
            },
        ),
{
    let method = method_text(req.method());
    let target = req.target();
    let hs = req.headers_sent(host);
    let body = req.body();
    let first = method + " "@ + target + " HTTP/1.1"@;
    let head = first + header_block(hs);
    let text = req.text(host);
    lemma_fixed_texts(req.method());
    lemma_sent_headers_plain(req.headers(), host, req.method(), body);
    assert(no_break(first)) by {
        reveal_strlit(" ");
        reveal_strlit(" HTTP/1.1");
        let a = method.len() as int;
        let b = a + 1 + target.len();
        assert forall|i: int| 0 <= i < first.len() implies #[trigger] first[i] != '\r' && first[i]
            != '\n' by {
            if i < a {
                assert(first[i] == method[i]);
            } else if i < a + 1 {
                assert(first[i] == " "@[i - a]);
            } else if i < b {
                assert(first[i] == target[i - a - 1]);
            } else {
                assert(first[i] == " HTTP/1.1"@[i - b]);
            }
        }
    }
    lemma_head_lines(first, hs);
    lemma_head_end_found(head, body);
    assert(text =~= head + head_end() + body);
    let lines = lines_of(head);
    assert(lines[0] == first);
    assert(lines.skip(1) =~= field_lines(hs));
    lemma_request_line(method, target);
    lemma_headers_of_fields(hs);
    lemma_sent_body_fits(req, host);
}

} // verus!
