//! One request and its response over a byte stream.
//!
//! An [`Exchange`] decides; its driver acts. The driver opens the stream,
//! writes and reads as the exchange asks, and reports each outcome as an
//! [`Event`]. The exchange answers each event with the next [`Action`],
//! until it delivers the response or fails. One exchange carries one
//! request: there is no keep-alive, no pipelining and no retry.

use crate::http::error::{ExchangeError, FramingError};
use crate::http::request::{default_host, Request};
use crate::http::response::{
    head_of, lossy_text, progress_of, Decoder, Progress, Received, Response,
};
use vstd::prelude::*;
use vstd::slice::slice_subrange;
use vstd::utf8::{decode_utf8, encode_utf8, valid_utf8};

verus! {

/// What an exchange is configured with.
pub struct Settings {
    /// The value of the `Host` header.
    pub host: String,
    /// The number of bytes that one read may take.
    pub read_buffer: usize,
    /// The number of reads that may follow the first.
    pub max_reads: usize,
}

impl Settings {
    /// The defaults: `Host: 127.0.0.1`, reads of 1024 bytes, and at most
    /// 1048576 reads after the first.
    pub fn new() -> (s: Settings)
        ensures
            s.host@ == default_host(),
            s.read_buffer == 1024,
            s.max_reads == 1048576,
    {
        Settings { host: "127.0.0.1".to_owned(), read_buffer: 1024, max_reads: 1048576 }
    }
}

/// What the driver reports.
#[derive(Debug)]
pub enum Event {
    /// The stream is open.
    Opened,
    /// A write took this many bytes.
    Wrote(usize),
    /// A read gave these bytes; none where the peer has closed the stream.
    Read(Vec<u8>),
    /// The last action failed.
    Failed,
}

/// The content of an [`Event`].
pub enum Signal {
    Opened,
    Wrote(nat),
    Read(Seq<u8>),
    Failed,
}

impl View for Event {
    type V = Signal;

    open spec fn view(&self) -> Signal {
        match *self {
            Event::Opened => Signal::Opened,
            Event::Wrote(n) => Signal::Wrote(n as nat),
            Event::Read(bytes) => Signal::Read(bytes@),
            Event::Failed => Signal::Failed,
        }
    }
}

/// What the driver is to do next.
#[derive(Debug)]
pub enum Action {
    /// Write the pending bytes, or as many of them as the stream takes.
    Write,
    /// Read once, at most as many bytes as the read buffer holds.
    Read,
    /// The exchange is over: this is the response.
    Deliver(Response),
    /// The exchange is over: it failed.
    Fail(ExchangeError),
}

/// The content of an [`Action`]; a delivered response stands as its
/// status, the bytes of its body and its declared length.
pub enum Decision {
    Write,
    Read,
    Deliver(i32, Seq<u8>, usize),
    Fail(ExchangeError),
}

/// Whether the action `a` carries out the decision `d`.
pub open spec fn carries(a: Action, d: Decision) -> bool {
    match d {
        Decision::Write => a is Write,
        Decision::Read => a is Read,
        Decision::Fail(e) => a matches Action::Fail(x) && x == e,
        Decision::Deliver(status, body, length) => a matches Action::Deliver(resp) && resp.status
            == status && resp.content_length == length && resp.body@ == lossy_text(body) && (
        valid_utf8(body) ==> resp.body@ == decode_utf8(body)),
    }
}

/// Where an exchange stands.
pub enum Phase {
    /// The stream is being opened.
    Opening,
    /// The request is being written.
    Sending,
    /// The request is written; the first read is awaited.
    AwaitingHead,
    /// The head is read; more of the body is awaited.
    AwaitingBody(Received),
    /// The exchange has delivered or failed.
    Finished,
}

/// The state of an exchange.
pub struct Conversation {
    /// Where the exchange stands.
    pub phase: Phase,
    /// The bytes of the request.
    pub outgoing: Seq<u8>,
    /// How many of them are written.
    pub written: nat,
    /// The number of reads that may follow the first.
    pub max_reads: usize,
}

/// Where an exchange goes once `r` is taken in: it delivers where the body
/// is complete, fails where no read is left, and reads on otherwise.
pub open spec fn settle(r: Received) -> (Phase, Decision) {
    match progress_of(r) {
        Progress::Complete => (Phase::Finished, Decision::Deliver(r.status, r.body, r.content_length)),
        Progress::TimedOut => (Phase::Finished, Decision::Fail(ExchangeError::Timeout)),
        Progress::WantsRead => (Phase::AwaitingBody(r), Decision::Read),
    }
}

/// The failure that an exchange in the phase `p` ends with when its
/// action fails, or when an event comes that the phase does not await.
pub open spec fn failure_in(p: Phase) -> ExchangeError {
    match p {
        Phase::Opening => ExchangeError::Connection,
        Phase::Sending => ExchangeError::Write,
        Phase::AwaitingHead => ExchangeError::Framing(FramingError::MissingBoundary),
        Phase::AwaitingBody(_) => ExchangeError::TruncatedBody,
        Phase::Finished => ExchangeError::Connection,
    }
}

/// The phase and decision that the event `e` leads to from the state `c`.
///
/// - Opening: once the stream is open the request is written.
/// - Sending: a write that took nothing, or more than was pending, fails
///   the exchange; one that leaves bytes pending is followed by another
///   write; when all bytes are written the first read is made.
/// - AwaitingHead: the first read must hold the head; see [`settle`].
/// - AwaitingBody: a read of no bytes fails the exchange; other reads
///   are added to the body and spend one read of the budget.
/// - Any other event ends the exchange with [`failure_in`] its phase.
pub open spec fn decide(c: Conversation, e: Signal) -> (Phase, nat, Decision) {
    match (c.phase, e) {
        (Phase::Opening, Signal::Opened) => if c.outgoing.len() == 0 {
            (Phase::AwaitingHead, c.written, Decision::Read)
        } else {
            (Phase::Sending, c.written, Decision::Write)
        },
        (Phase::Sending, Signal::Wrote(n)) => if n == 0 || c.written + n > c.outgoing.len() {
            (Phase::Finished, c.written, Decision::Fail(ExchangeError::Write))
        } else if c.written + n == c.outgoing.len() {
            (Phase::AwaitingHead, c.written + n, Decision::Read)
        } else {
            (Phase::Sending, c.written + n, Decision::Write)
        },
        (Phase::AwaitingHead, Signal::Read(bytes)) => match head_of(bytes) {
            Err(err) => (
                Phase::Finished,
                c.written,
                Decision::Fail(ExchangeError::Framing(err)),
            ),
            Ok(h) => {
                let s = settle(
                    Received {
                        status: h.status,
                        content_length: h.content_length,
                        body: bytes.skip(h.body_start as int),
                        budget: c.max_reads as nat,
                    },
                );
                (s.0, c.written, s.1)
            },
        },
        (Phase::AwaitingBody(r), Signal::Read(bytes)) => if bytes.len() == 0 {
            (Phase::Finished, c.written, Decision::Fail(ExchangeError::TruncatedBody))
        } else {
            let s = settle(
                Received { body: r.body + bytes, budget: (r.budget - 1) as nat, ..r },
            );
            (s.0, c.written, s.1)
        },
        (p, _) => (Phase::Finished, c.written, Decision::Fail(failure_in(p))),
    }
}

enum Stage {
    Opening,
    Sending,
    AwaitingHead,
    AwaitingBody(Decoder),
    Finished,
}

/// The decisions of one request/response exchange.
pub struct Exchange {
    outgoing: Vec<u8>,
    written: usize,
    stage: Stage,
    read_buffer: usize,
    max_reads: usize,
}

impl View for Exchange {
    type V = Conversation;

    closed spec fn view(&self) -> Conversation {
        Conversation {
            phase: match self.stage {
                Stage::Opening => Phase::Opening,
                Stage::Sending => Phase::Sending,
                Stage::AwaitingHead => Phase::AwaitingHead,
                Stage::AwaitingBody(d) => Phase::AwaitingBody(d@),
                Stage::Finished => Phase::Finished,
            },
            outgoing: self.outgoing@,
            written: self.written as nat,
            max_reads: self.max_reads,
        }
    }
}

impl Exchange {
    /// The validity of an exchange: no more is written than there is, and
    /// while the body is awaited it is incomplete with reads left.
    #[verifier::type_invariant]
    pub closed spec fn wf(&self) -> bool {
        &&& self.written <= self.outgoing@.len()
        &&& self.stage matches Stage::AwaitingBody(d) ==> progress_of(d@) == Progress::WantsRead
    }

    /// The number of bytes that one read may take.
    pub closed spec fn read_buffer(&self) -> usize {
        self.read_buffer
    }

    /// An exchange for `request`, about to open its stream. The bytes to
    /// write are the request's text with the configured `Host` value.
    pub fn start(request: &Request, settings: &Settings) -> (x: Exchange)
        ensures
            x@ == (Conversation {
                phase: Phase::Opening,
                outgoing: encode_utf8(request.text(settings.host@)),
                written: 0,
                max_reads: settings.max_reads,
            }),
            x.read_buffer() == settings.read_buffer,
    {
        let text = request.render(settings.host.as_str());
        Exchange {
            outgoing: text.as_str().as_bytes_vec(),
            written: 0,
            stage: Stage::Opening,
            read_buffer: settings.read_buffer,
            max_reads: settings.max_reads,
        }
    }

    /// The bytes of the request that are not written yet.
    pub fn pending(&self) -> (bytes: &[u8])
        ensures
            self@.written <= self@.outgoing.len(),
            bytes@ == self@.outgoing.skip(self@.written as int),
    {
        proof {
            use_type_invariant(self);
        }
        let n = self.outgoing.len();
        slice_subrange(self.outgoing.as_slice(), self.written, n)
    }

    /// The number of bytes that one read may take.
    pub fn read_size(&self) -> (n: usize)
        ensures
            n == self.read_buffer(),
    {
        self.read_buffer
    }

    /// Whether the exchange has delivered or failed.
    pub fn is_finished(&self) -> (b: bool)
        ensures
            b == (self@.phase is Finished),
    {
        match self.stage {
            Stage::Finished => true,
            _ => false,
        }
    }

    fn settle_with(&mut self, decoder: Decoder) -> (a: Action)
        requires
            old(self).stage is Finished,
        ensures
            final(self)@ == (Conversation { phase: settle(decoder@).0, ..old(self)@ }),
            final(self).read_buffer() == old(self).read_buffer(),
            carries(a, settle(decoder@).1),
    {
        proof {
            use_type_invariant(&*self);
        }
        match decoder.progress() {
            Progress::Complete => match decoder.finish() {
                Ok(response) => Action::Deliver(response),
                Err(e) => Action::Fail(e),
            },
            Progress::TimedOut => Action::Fail(ExchangeError::Timeout),
            Progress::WantsRead => {
                self.stage = Stage::AwaitingBody(decoder);
                Action::Read
            },
        }
    }

    /// Takes in what the driver reports, and says what it is to do next:
    /// see [`decide`].
    pub fn step(&mut self, event: Event) -> (a: Action)
        ensures
            final(self)@ == (Conversation {
                phase: decide(old(self)@, event@).0,
                written: decide(old(self)@, event@).1,
                ..old(self)@
            }),
            final(self).read_buffer() == old(self).read_buffer(),
            carries(a, decide(old(self)@, event@).2),
    {
        proof {
            use_type_invariant(&*self);
        }
        let mut stage = Stage::Finished;
        core::mem::swap(&mut self.stage, &mut stage);
        match (stage, event) {
            (Stage::Opening, Event::Opened) => {
                if self.outgoing.len() == 0 {
                    self.stage = Stage::AwaitingHead;
                    Action::Read
                } else {
                    self.stage = Stage::Sending;
                    Action::Write
                }
            },
            (Stage::Sending, Event::Wrote(n)) => {
                let left = self.outgoing.len() - self.written;
                if n == 0 || n > left {
                    Action::Fail(ExchangeError::Write)
                } else if n == left {
                    self.written = self.written + n;
                    self.stage = Stage::AwaitingHead;
                    Action::Read
                } else {
                    self.written = self.written + n;
                    self.stage = Stage::Sending;
                    Action::Write
                }
            },
            (Stage::AwaitingHead, Event::Read(bytes)) => {
                match Decoder::begin(bytes.as_slice(), self.max_reads) {
                    Err(e) => Action::Fail(ExchangeError::Framing(e)),
                    Ok(decoder) => self.settle_with(decoder),
                }
            },
            (Stage::AwaitingBody(decoder), Event::Read(bytes)) => {
                let mut decoder = decoder;
                match decoder.accept(bytes.as_slice()) {
                    Err(e) => Action::Fail(e),
                    Ok(()) => self.settle_with(decoder),
                }
            },
            (Stage::Opening, _) => Action::Fail(ExchangeError::Connection),
            (Stage::Sending, _) => Action::Fail(ExchangeError::Write),
            (Stage::AwaitingHead, _) => Action::Fail(
                ExchangeError::Framing(FramingError::MissingBoundary),
            ),
            (Stage::AwaitingBody(_), _) => Action::Fail(ExchangeError::TruncatedBody),
            (Stage::Finished, _) => Action::Fail(ExchangeError::Connection),
        }
    }
}

} // verus!
