//! A minimal HTTP/1.1 request encoder and response decoder.

pub mod error;
pub mod exchange;
pub mod number;
pub mod request;
pub mod response;
pub mod scan;
pub mod url;
pub mod wire;

pub use error::{ExchangeError, FramingError};
pub use exchange::{Action, Event, Exchange, Settings};
pub use request::{HTTPMethod, Request, RequestBuilder};
pub use response::{Decoder, Progress, Response};
pub use url::{URI, URIBuilder};
