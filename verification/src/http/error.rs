//! What can go wrong in one exchange.

use vstd::prelude::*;

verus! {

/// The response's head could not be read.
#[derive(Debug, Clone, Copy, PartialEq, Eq, Structural)]
pub enum FramingError {
    /// The first read holds no empty line, so the header block has no end.
    MissingBoundary,
    /// A line that names `Content-Length:` carries no length that can be read.
    ContentLength,
    /// The first line is not `HTTP/<version> <code> <reason>`.
    StatusLine,
}

/// Why an exchange did not give a response.
#[derive(Debug, Clone, Copy, PartialEq, Eq, Structural)]
pub enum ExchangeError {
    /// The stream could not be opened.
    Connection,
    /// The request could not be written in full.
    Write,
    /// The response's head could not be read.
    Framing(FramingError),
    /// The peer closed the stream before the declared length was reached.
    TruncatedBody,
    /// The allowed number of reads was spent before the declared length
    /// was reached.
    Timeout,
}

} // verus!
