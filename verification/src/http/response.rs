//! HTTP/1.1 responses framed by `Content-Length`.
//!
//! The head of a response must arrive in the first read. It ends at the
//! first empty line; what follows in that read starts the body. The body
//! is complete when the status is 204 or as many bytes have arrived as
//! `Content-Length` declares (0 where no line declares it). Chunked
//! transfer encoding is not supported.

use crate::http::error::{ExchangeError, FramingError};
use crate::http::number::{parse_i32, parse_usize, read_i32, read_usize, trim, trim_bytes};
use crate::http::scan::{
    before_first, find, find_bytes, lemma_find_some, second_piece, split_first,
    starts_with, starts_with_bytes,
};
use vstd::prelude::*;
use vstd::slice::slice_subrange;
use vstd::utf8::{decode_utf8, valid_utf8};

verus! {

/// The line break `\r\n`.
pub open spec fn crlf() -> Seq<u8> {
    seq![13u8, 10u8]
}

/// The empty line `\r\n\r\n` that ends the header block.
pub open spec fn blank_line() -> Seq<u8> {
    seq![13u8, 10u8, 13u8, 10u8]
}

/// The text `Content-Length:`.
pub open spec fn length_marker() -> Seq<u8> {
    seq![67u8, 111u8, 110u8, 116u8, 101u8, 110u8, 116u8, 45u8, 76u8, 101u8, 110u8, 103u8, 116u8, 104u8, 58u8]
}

/// The text `HTTP/`.
pub open spec fn version_marker() -> Seq<u8> {
    seq![72u8, 84u8, 84u8, 80u8, 47u8]
}

/// A single colon.
pub open spec fn colon() -> Seq<u8> {
    seq![58u8]
}

/// A single space.
pub open spec fn space() -> Seq<u8> {
    seq![32u8]
}

/// What one line of the head says of the body's length.
pub enum LineLength {
    /// The line does not hold `Content-Length:`.
    Silent,
    /// The line declares this length.
    Declares(usize),
    /// The line holds `Content-Length:`, and no length can be read from it.
    Malformed,
}

/// What `line` says of the body's length. A line speaks of it where it
/// holds `Content-Length:` anywhere, in this spelling; the length is the
/// text between the line's first colon and its second (or its end),
/// without the white space around it, read as a `usize`.
pub open spec fn line_length(line: Seq<u8>) -> LineLength {
    if find(line, length_marker()) is None {
        LineLength::Silent
    } else {
        match second_piece(line, colon()) {
            Some(piece) => match parse_usize(trim(piece)) {
                Some(n) => LineLength::Declares(n),
                None => LineLength::Malformed,
            },
            None => LineLength::Malformed,
        }
    }
}

/// The length that the lines of `text` declare, given that the lines
/// before them declared `so_far`: the last line that speaks of the length
/// decides, and a single malformed one spoils the head.
pub open spec fn scan_length(text: Seq<u8>, so_far: usize) -> Option<usize>
    decreases text.len(),
{
    let now = match line_length(before_first(text, crlf())) {
        LineLength::Silent => Some(so_far),
        LineLength::Declares(n) => Some(n),
        LineLength::Malformed => None,
    };
    match now {
        None => None,
        Some(n) => match find(text, crlf()) {
            Some(i) => if 0 <= i && i + 2 <= text.len() {
                scan_length(text.skip(i + 2), n)
            } else {
                None
            },
            None => Some(n),
        },
    }
}

/// The length that a header block declares: 0 where no line speaks of it.
pub open spec fn declared_length(head: Seq<u8>) -> Option<usize> {
    scan_length(head, 0)
}

/// The status code of a header block: its first line must begin with
/// `HTTP/`, and the text between the line's first space and its second (or
/// its end) must read as an `i32`.
pub open spec fn status_of(head: Seq<u8>) -> Option<i32> {
    let line = before_first(head, crlf());
    if starts_with(before_first(line, space()), version_marker()) {
        match second_piece(line, space()) {
            Some(token) => parse_i32(token),
            None => None,
        }
    } else {
        None
    }
}

/// What the head of a response says.
#[derive(Debug, Clone, Copy, PartialEq, Eq, Structural)]
pub struct Head {
    /// The status code.
    pub status: i32,
    /// The declared length of the body.
    pub content_length: usize,
    /// Where the body starts in the first read.
    pub body_start: usize,
}

/// The head that the first read `first` holds, or why it holds none. A
/// missing empty line is reported first, then a malformed length, then a
/// malformed status line.
pub open spec fn head_of(first: Seq<u8>) -> Result<Head, FramingError> {
    match find(first, blank_line()) {
        None => Err(FramingError::MissingBoundary),
        Some(k) => match declared_length(first.take(k)) {
            None => Err(FramingError::ContentLength),
            Some(n) => match status_of(first.take(k)) {
                None => Err(FramingError::StatusLine),
                Some(s) => Ok(Head { status: s, content_length: n, body_start: (k + 4) as usize }),
            },
        },
    }
}

/// Whether a body of `received` bytes is complete under the head `h`.
pub open spec fn body_complete(status: i32, content_length: usize, received: nat) -> bool {
    status == 204 || received >= content_length
}

fn read_line_length(line: &[u8]) -> (r: LineLength)
    ensures
        r == line_length(line@),
{
    let marker: [u8; 15] = [67, 111, 110, 116, 101, 110, 116, 45, 76, 101, 110, 103, 116, 104, 58];
    let colon_byte: [u8; 1] = [58];
    assert(marker@ =~= length_marker());
    assert(colon_byte@ =~= colon());
    match find_bytes(line, marker.as_slice()) {
        None => LineLength::Silent,
        Some(_) => {
            let (_, rest) = split_first(line, colon_byte.as_slice());
            match rest {
                None => LineLength::Malformed,
                Some(rest) => {
                    let (piece, _) = split_first(rest, colon_byte.as_slice());
                    match read_usize(trim_bytes(piece)) {
                        Some(n) => LineLength::Declares(n),
                        None => LineLength::Malformed,
                    }
                },
            }
        },
    }
}

fn read_declared_length(head: &[u8]) -> (r: Option<usize>)
    ensures
        r == declared_length(head@),
{
    let sep: [u8; 2] = [13, 10];
    assert(sep@ =~= crlf());
    let mut rest: &[u8] = head;
    let mut so_far: usize = 0;
    loop
        invariant
            sep@ == crlf(),
            declared_length(head@) == scan_length(rest@, so_far),
        decreases rest@.len(),
    {
        let (line, more) = split_first(rest, sep.as_slice());
        proof {
            lemma_find_some(rest@, crlf());
        }
        match read_line_length(line) {
            LineLength::Malformed => {
                return None;
            },
            LineLength::Declares(n) => {
                so_far = n;
            },
            LineLength::Silent => {},
        }
        match more {
            None => {
                return Some(so_far);
            },
            Some(next) => {
                rest = next;
            },
        }
    }
}

fn read_status(head: &[u8]) -> (r: Option<i32>)
    ensures
        r == status_of(head@),
{
    let sep: [u8; 2] = [13, 10];
    let blank: [u8; 1] = [32];
    let marker: [u8; 5] = [72, 84, 84, 80, 47];
    assert(sep@ =~= crlf());
    assert(blank@ =~= space());
    assert(marker@ =~= version_marker());
    let (line, _) = split_first(head, sep.as_slice());
    let (version, rest) = split_first(line, blank.as_slice());
    if !starts_with_bytes(version, marker.as_slice()) {
        return None;
    }
    match rest {
        None => None,
        Some(rest) => {
            let (token, _) = split_first(rest, blank.as_slice());
            read_i32(token)
        },
    }
}

/// Reads the head of a response from the first read: see [`head_of`].
pub fn parse_head(first: &[u8]) -> (r: Result<Head, FramingError>)
    ensures
        r == head_of(first@),
        r matches Ok(h) ==> h.body_start <= first@.len(),
{
    let boundary: [u8; 4] = [13, 10, 13, 10];
    let n = first.len();
    assert(boundary@ =~= blank_line());
    assert(n == first@.len());
    match find_bytes(first, boundary.as_slice()) {
        None => Err(FramingError::MissingBoundary),
        Some(k) => {
            let head = slice_subrange(first, 0, k);
            match read_declared_length(head) {
                None => Err(FramingError::ContentLength),
                Some(length) => match read_status(head) {
                    None => Err(FramingError::StatusLine),
                    Some(s) => Ok(Head { status: s, content_length: length, body_start: k + 4 }),
                },
            }
        },
    }
}

/// The text that a body's bytes stand for: UTF-8, with each invalid
/// sequence replaced by U+FFFD.
pub uninterp spec fn lossy_text(bytes: Seq<u8>) -> Seq<char>;

/// `String::from_utf8_lossy` of std. Believed of it: the result is a
/// function of the bytes alone, and bytes that are valid UTF-8 give the
/// text that they encode.
#[verifier::external_body]
fn decode_lossy(bytes: &[u8]) -> (s: String)
    ensures
        s@ == lossy_text(bytes@),
        valid_utf8(bytes@) ==> s@ == decode_utf8(bytes@),
{
    String::from_utf8_lossy(bytes).into_owned()
}

/// A response: the status code, the body as text, and the length that
/// the head declared.
#[derive(Debug)]
pub struct Response {
    pub status: i32,
    pub body: String,
    pub content_length: usize,
}

impl Clone for Response {
    fn clone(&self) -> (res: Self)
        ensures
            res == *self,
    {
        Response {
            status: self.status,
            body: self.body.clone(),
            content_length: self.content_length,
        }
    }
}

/// What a decoder has taken in.
pub struct Received {
    /// The status code of the head.
    pub status: i32,
    /// The length that the head declared.
    pub content_length: usize,
    /// The bytes of the body that have arrived.
    pub body: Seq<u8>,
    /// The number of reads that may still be made.
    pub budget: nat,
}

/// What a decoder needs next.
#[derive(Debug, Clone, Copy, PartialEq, Eq, Structural)]
pub enum Progress {
    /// The body is complete: the response can be taken.
    Complete,
    /// The body is not complete: one more read is to be made.
    WantsRead,
    /// The body is not complete and no read is left.
    TimedOut,
}

/// What is needed next in the state `r`.
pub open spec fn progress_of(r: Received) -> Progress {
    if body_complete(r.status, r.content_length, r.body.len()) {
        Progress::Complete
    } else if r.budget == 0 {
        Progress::TimedOut
    } else {
        Progress::WantsRead
    }
}

/// The state after one read is taken in, and whether it was taken: a read
/// that comes when the body is complete is left aside; one that comes when
/// no read is left is a timeout; a read of no bytes means that the peer
/// has closed the stream, and the body stays short of its declared
/// length; any other read is added to the body and spends one read.
pub open spec fn taken(r: Received, chunk: Seq<u8>) -> (Received, Result<(), ExchangeError>) {
    match progress_of(r) {
        Progress::Complete => (r, Ok(())),
        Progress::TimedOut => (r, Err(ExchangeError::Timeout)),
        Progress::WantsRead => if chunk.len() == 0 {
            (r, Err(ExchangeError::TruncatedBody))
        } else {
            (Received { body: r.body + chunk, budget: (r.budget - 1) as nat, ..r }, Ok(()))
        },
    }
}

/// The body after the reads `reads` have been taken in turn, as far as
/// they are needed, starting from the state `r`; or why the body stays
/// incomplete. A read of no bytes, and the end of `reads`, mean that the
/// peer has closed the stream.
pub open spec fn gather(r: Received, reads: Seq<Seq<u8>>) -> Result<Seq<u8>, ExchangeError>
    decreases reads.len(),
{
    match progress_of(r) {
        Progress::Complete => Ok(r.body),
        Progress::TimedOut => Err(ExchangeError::Timeout),
        Progress::WantsRead => if reads.len() == 0 || reads[0].len() == 0 {
            Err(ExchangeError::TruncatedBody)
        } else {
            gather(
                Received { body: r.body + reads[0], budget: (r.budget - 1) as nat, ..r },
                reads.skip(1),
            )
        },
    }
}

/// The first of the reads, or no bytes where there is none.
pub open spec fn first_read(reads: Seq<Seq<u8>>) -> Seq<u8> {
    if reads.len() > 0 {
        reads[0]
    } else {
        Seq::empty()
    }
}

/// The status, the body's bytes and the declared length that the reads
/// `reads` give, where at most `max_reads` reads may follow the first.
pub open spec fn decoded(reads: Seq<Seq<u8>>, max_reads: usize) -> Result<
    (i32, Seq<u8>, usize),
    ExchangeError,
> {
    match head_of(first_read(reads)) {
        Err(e) => Err(ExchangeError::Framing(e)),
        Ok(h) => match gather(
            Received {
                status: h.status,
                content_length: h.content_length,
                body: first_read(reads).skip(h.body_start as int),
                budget: max_reads as nat,
            },
            reads.skip(1),
        ) {
            Ok(body) => Ok((h.status, body, h.content_length)),
            Err(e) => Err(e),
        },
    }
}

/// The bytes of each read.
pub open spec fn chunks(reads: Seq<Vec<u8>>) -> Seq<Seq<u8>> {
    Seq::new(reads.len(), |i: int| reads[i]@)
}

/// Takes in a response read by read.
pub struct Decoder {
    status: i32,
    content_length: usize,
    body: Vec<u8>,
    budget: usize,
}

impl View for Decoder {
    type V = Received;

    closed spec fn view(&self) -> Received {
        Received {
            status: self.status,
            content_length: self.content_length,
            body: self.body@,
            budget: self.budget as nat,
        }
    }
}

impl Decoder {
    /// Starts with the first read, which must hold the head; at most
    /// `max_reads` reads may follow it.
    pub fn begin(first: &[u8], max_reads: usize) -> (r: Result<Decoder, FramingError>)
        ensures
            match head_of(first@) {
                Ok(h) => r matches Ok(d) && d@ == (Received {
                    status: h.status,
                    content_length: h.content_length,
                    body: first@.skip(h.body_start as int),
                    budget: max_reads as nat,
                }),
                Err(e) => r matches Err(x) && x == e,
            },
    {
        match parse_head(first) {
            Err(e) => Err(e),
            Ok(h) => {
                let n = first.len();
                let rest = slice_subrange(first, h.body_start, n);
                let mut body: Vec<u8> = Vec::new();
                body.extend_from_slice(rest);
                assert(body@ =~= first@.skip(h.body_start as int));
                Ok(
                    Decoder {
                        status: h.status,
                        content_length: h.content_length,
                        body,
                        budget: max_reads,
                    },
                )
            },
        }
    }

    /// What is needed next.
    pub fn progress(&self) -> (p: Progress)
        ensures
            p == progress_of(self@),
    {
        if self.status == 204 || self.body.len() >= self.content_length {
            Progress::Complete
        } else if self.budget == 0 {
            Progress::TimedOut
        } else {
            Progress::WantsRead
        }
    }

    /// Takes in one read: see [`taken`].
    pub fn accept(&mut self, chunk: &[u8]) -> (r: Result<(), ExchangeError>)
        ensures
            final(self)@ == taken(old(self)@, chunk@).0,
            r == taken(old(self)@, chunk@).1,
    {
        match self.progress() {
            Progress::Complete => Ok(()),
            Progress::TimedOut => Err(ExchangeError::Timeout),
            Progress::WantsRead => {
                if chunk.len() == 0 {
                    return Err(ExchangeError::TruncatedBody);
                }
                self.body.extend_from_slice(chunk);
                self.budget = self.budget - 1;
                assert(self@.body =~= old(self)@.body + chunk@);
                Ok(())
            },
        }
    }

    /// The response, once the body is complete. A body that is not
    /// complete gives the failure that the exchange ends with: a timeout
    /// where no read is left, a truncated body otherwise.
    pub fn finish(self) -> (r: Result<Response, ExchangeError>)
        ensures
            match progress_of(self@) {
                Progress::Complete => r matches Ok(resp) && resp.status == self@.status
                    && resp.content_length == self@.content_length && resp.body@ == lossy_text(
                    self@.body,
                ) && (valid_utf8(self@.body) ==> resp.body@ == decode_utf8(self@.body)),
                Progress::TimedOut => r matches Err(e) && e == ExchangeError::Timeout,
                Progress::WantsRead => r matches Err(e) && e == ExchangeError::TruncatedBody,
            },
    {
        match self.progress() {
            Progress::Complete => {
                let body = decode_lossy(self.body.as_slice());
                Ok(Response { status: self.status, body, content_length: self.content_length })
            },
            Progress::TimedOut => Err(ExchangeError::Timeout),
            Progress::WantsRead => Err(ExchangeError::TruncatedBody),
        }
    }
}

impl Response {
    /// Reads the head from the first read, and takes what follows it in
    /// that read as the body.
    pub fn parse(first: &[u8]) -> (r: Result<Response, FramingError>)
        ensures
            match head_of(first@) {
                Ok(h) => r matches Ok(resp) && resp.status == h.status && resp.content_length
                    == h.content_length && resp.body@ == lossy_text(
                    first@.skip(h.body_start as int),
                ),
                Err(e) => r matches Err(x) && x == e,
            },
    {
        match parse_head(first) {
            Err(e) => Err(e),
            Ok(h) => {
                let n = first.len();
                let body = decode_lossy(slice_subrange(first, h.body_start, n));
                Ok(Response { status: h.status, body, content_length: h.content_length })
            },
        }
    }

    /// Decodes a response from the reads that a stream gave, in order.
    ///
    /// The first read must hold the head. With status 204 the response is
    /// given at once, with what the first read holds behind the head. Else
    /// reads are taken in until the body has the declared length; at most
    /// `max_reads` reads may follow the first. A read of no bytes, and the
    /// end of `reads`, mean that the peer has closed the stream.
    pub fn read(reads: &Vec<Vec<u8>>, max_reads: usize) -> (r: Result<Response, ExchangeError>)
        ensures
            match decoded(chunks(reads@), max_reads) {
                Ok((status, body, length)) => r matches Ok(resp) && resp.status == status
                    && resp.content_length == length && resp.body@ == lossy_text(body) && (
                valid_utf8(body) ==> resp.body@ == decode_utf8(body)),
                Err(e) => r matches Err(x) && x == e,
            },
    {
        let ghost all = chunks(reads@);
        let empty: [u8; 0] = [];
        let first: &[u8] = if reads.len() > 0 {
            reads[0].as_slice()
        } else {
            empty.as_slice()
        };
        assert(first@ =~= first_read(all));
        let mut decoder = match Decoder::begin(first, max_reads) {
            Err(e) => {
                return Err(ExchangeError::Framing(e));
            },
            Ok(d) => d,
        };
        let ghost start = decoder@;
        let mut i: usize = 1;
        assert(reads@.len() > 0) by {
            if reads@.len() == 0 {
                assert forall|k: int| !crate::http::scan::occurs_at(first@, blank_line(), k) by {}
                crate::http::scan::lemma_find_none(first@, blank_line());
            }
        }
        loop
            invariant
                all == chunks(reads@),
                1 <= i,
                i <= reads@.len(),
                decoder@.status == start.status,
                decoder@.content_length == start.content_length,
                decoded(all, max_reads) == match gather(start, all.skip(1)) {
                    Ok(body) => Ok::<(i32, Seq<u8>, usize), ExchangeError>(
                        (start.status, body, start.content_length),
                    ),
                    Err(e) => Err(e),
                },
                gather(start, all.skip(1)) == gather(decoder@, all.skip(i as int)),
            decreases reads@.len() + 1 - i,
        {
            match decoder.progress() {
                Progress::Complete => {
                    return decoder.finish();
                },
                Progress::TimedOut => {
                    return Err(ExchangeError::Timeout);
                },
                Progress::WantsRead => {
                    if i >= reads.len() {
                        return Err(ExchangeError::TruncatedBody);
                    }
                    let ghost before = decoder@;
                    assert(all.skip(i as int)[0] == reads@[i as int]@);
                    assert(all.skip(i as int).skip(1) =~= all.skip(i + 1));
                    match decoder.accept(reads[i].as_slice()) {
                        Err(e) => {
                            return Err(e);
                        },
                        Ok(()) => {},
                    }
                    i += 1;
                },
            }
        }
    }
}

/// With status 204 the response is given at once: no read follows the
/// first, whatever length the head declares and whatever reads are
/// allowed or at hand. The body is what the first read holds behind the
/// head.
pub proof fn lemma_no_content_is_immediate(reads: Seq<Seq<u8>>, max_reads: usize)
    requires
        head_of(first_read(reads)) matches Ok(h) && h.status == 204,
    ensures
        decoded(reads, max_reads) == Ok::<(i32, Seq<u8>, usize), ExchangeError>(
            (
                204i32,
                first_read(reads).skip(head_of(first_read(reads))->Ok_0.body_start as int),
                head_of(first_read(reads))->Ok_0.content_length,
            ),
        ),
{
}

/// With status 204, and nothing behind the head in the first read, the
/// body is empty, whatever length the head declares.
pub proof fn lemma_no_content_is_empty(reads: Seq<Seq<u8>>, max_reads: usize)
    requires
        head_of(first_read(reads)) matches Ok(h) && h.status == 204 && h.body_start == first_read(
            reads,
        ).len(),
    ensures
        decoded(reads, max_reads) == Ok::<(i32, Seq<u8>, usize), ExchangeError>(
            (204i32, Seq::<u8>::empty(), head_of(first_read(reads))->Ok_0.content_length),
        ),
        valid_utf8(Seq::<u8>::empty()),
        decode_utf8(Seq::<u8>::empty()) == Seq::<char>::empty(),
{
    let first = first_read(reads);
    assert(first.skip(first.len() as int) =~= Seq::<u8>::empty());
}

/// A first read without an empty line gives a framing error, whatever
/// else it holds and whatever reads follow.
pub proof fn lemma_missing_boundary_is_an_error(reads: Seq<Seq<u8>>, max_reads: usize)
    requires
        find(first_read(reads), blank_line()) is None,
    ensures
        decoded(reads, max_reads) == Err::<(i32, Seq<u8>, usize), ExchangeError>(
            ExchangeError::Framing(FramingError::MissingBoundary),
        ),
{
}

/// A body that arrives in two reads is put together: where the first read
/// holds the head and a part of the body that is short of the declared
/// length, and the second read brings the rest, the body is the two
/// parts in a row.
pub proof fn lemma_body_in_two_reads(first: Seq<u8>, second: Seq<u8>, max_reads: usize)
    requires
        head_of(first) matches Ok(h) && h.status != 204 && h.body_start <= first.len()
            && first.len() - h.body_start < h.content_length && first.len() - h.body_start
            + second.len() >= h.content_length,
        max_reads >= 1,
    ensures
        decoded(seq![first, second], max_reads) == Ok::<(i32, Seq<u8>, usize), ExchangeError>(
            (
                head_of(first)->Ok_0.status,
                first.skip(head_of(first)->Ok_0.body_start as int) + second,
                head_of(first)->Ok_0.content_length,
            ),
        ),
{
    let reads = seq![first, second];
    let h = head_of(first)->Ok_0;
    let start = Received {
        status: h.status,
        content_length: h.content_length,
        body: first.skip(h.body_start as int),
        budget: max_reads as nat,
    };
    let rest = reads.skip(1);
    assert(rest =~= seq![second]);
    assert(rest[0] == second);
    let next = Received { body: start.body + second, budget: (start.budget - 1) as nat, ..start };
    assert(progress_of(start) == Progress::WantsRead);
    assert(progress_of(next) == Progress::Complete);
    assert(gather(start, rest) == gather(next, rest.skip(1)));
}

} // verus!
