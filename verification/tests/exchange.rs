use docker_client::http::{
    Action, Event, Exchange, ExchangeError, FramingError, Request, Settings, URI,
};

fn request() -> Request {
    let mut builder = Request::post();
    builder.url(URI::with_path("/containers/create").build()).content("{}");
    builder.build()
}

fn settings(max_reads: usize) -> Settings {
    Settings { host: "engine".to_string(), read_buffer: 64, max_reads }
}

fn opened(max_reads: usize) -> Exchange {
    let mut exchange = Exchange::start(&request(), &settings(max_reads));
    assert!(matches!(exchange.step(Event::Opened), Action::Write));
    exchange
}

fn sent(max_reads: usize) -> Exchange {
    let mut exchange = opened(max_reads);
    let all = exchange.pending().len();
    assert!(matches!(exchange.step(Event::Wrote(all)), Action::Read));
    exchange
}

fn failure(action: Action) -> ExchangeError {
    match action {
        Action::Fail(e) => e,
        other => panic!("no failure: {:?}", other),
    }
}

#[test]
fn settings_have_defaults() {
    let s = Settings::new();
    assert_eq!(s.host, "127.0.0.1");
    assert_eq!(s.read_buffer, 1024);
    assert_eq!(s.max_reads, 1048576);
}

#[test]
fn exchange_writes_then_reads_then_delivers() {
    let expected = "POST /containers/create HTTP/1.1\r\nHost: engine\r\nContent-Length: 2\r\n\
                    Content-Type: application/json\r\n\r\n{}";
    let mut exchange = Exchange::start(&request(), &settings(4));
    assert!(!exchange.is_finished());
    assert_eq!(exchange.read_size(), 64);
    assert_eq!(exchange.pending(), expected.as_bytes());
    assert!(matches!(exchange.step(Event::Opened), Action::Write));
    assert!(matches!(exchange.step(Event::Wrote(10)), Action::Write));
    assert_eq!(exchange.pending(), &expected.as_bytes()[10..]);
    let rest = exchange.pending().len();
    assert!(matches!(exchange.step(Event::Wrote(rest)), Action::Read));
    assert_eq!(exchange.pending(), b"");
    let first = b"HTTP/1.1 201 Created\r\nContent-Length: 11\r\n\r\n{\"Id\":".to_vec();
    assert!(matches!(exchange.step(Event::Read(first)), Action::Read));
    assert!(!exchange.is_finished());
    match exchange.step(Event::Read(b"\"ab\"}".to_vec())) {
        Action::Deliver(response) => {
            assert_eq!(response.status, 201);
            assert_eq!(response.body, "{\"Id\":\"ab\"}");
            assert_eq!(response.content_length, 11);
        },
        other => panic!("no response: {:?}", other),
    }
    assert!(exchange.is_finished());
}

#[test]
fn response_in_one_read_is_delivered_at_once() {
    let mut exchange = sent(0);
    let first = b"HTTP/1.1 204 No Content\r\nContent-Length: 9\r\n\r\n".to_vec();
    match exchange.step(Event::Read(first)) {
        Action::Deliver(response) => {
            assert_eq!(response.status, 204);
            assert_eq!(response.body, "");
        },
        other => panic!("no response: {:?}", other),
    }
}

#[test]
fn stream_that_does_not_open_fails_the_connection() {
    let mut exchange = Exchange::start(&request(), &settings(4));
    assert_eq!(failure(exchange.step(Event::Failed)), ExchangeError::Connection);
    assert!(exchange.is_finished());
    let mut exchange = Exchange::start(&request(), &settings(4));
    assert_eq!(failure(exchange.step(Event::Wrote(3))), ExchangeError::Connection);
}

#[test]
fn write_that_makes_no_progress_fails() {
    let mut exchange = opened(4);
    assert_eq!(failure(exchange.step(Event::Wrote(0))), ExchangeError::Write);
    assert!(exchange.is_finished());
    let mut exchange = opened(4);
    let more = exchange.pending().len() + 1;
    assert_eq!(failure(exchange.step(Event::Wrote(more))), ExchangeError::Write);
    let mut exchange = opened(4);
    assert_eq!(failure(exchange.step(Event::Failed)), ExchangeError::Write);
    let mut exchange = opened(4);
    assert_eq!(failure(exchange.step(Event::Read(Vec::new()))), ExchangeError::Write);
}

#[test]
fn head_that_does_not_arrive_is_a_framing_error() {
    let mut exchange = sent(4);
    assert_eq!(
        failure(exchange.step(Event::Read(b"HTTP/1.1 200 OK\r\n".to_vec()))),
        ExchangeError::Framing(FramingError::MissingBoundary)
    );
    let mut exchange = sent(4);
    assert_eq!(
        failure(exchange.step(Event::Failed)),
        ExchangeError::Framing(FramingError::MissingBoundary)
    );
    let mut exchange = sent(4);
    assert_eq!(
        failure(exchange.step(Event::Read(b"HTTP/1.1 OK\r\n\r\n".to_vec()))),
        ExchangeError::Framing(FramingError::StatusLine)
    );
    let mut exchange = sent(4);
    assert_eq!(
        failure(exchange.step(Event::Read(b"HTTP/1.1 200 OK\r\nContent-Length: x\r\n\r\n".to_vec()))),
        ExchangeError::Framing(FramingError::ContentLength)
    );
}

#[test]
fn closed_stream_truncates_the_exchange() {
    let mut exchange = sent(4);
    let first = b"HTTP/1.1 200 OK\r\nContent-Length: 5\r\n\r\nab".to_vec();
    assert!(matches!(exchange.step(Event::Read(first.clone())), Action::Read));
    assert_eq!(failure(exchange.step(Event::Read(Vec::new()))), ExchangeError::TruncatedBody);
    assert!(exchange.is_finished());
    let mut exchange = sent(4);
    assert!(matches!(exchange.step(Event::Read(first)), Action::Read));
    assert_eq!(failure(exchange.step(Event::Failed)), ExchangeError::TruncatedBody);
}

#[test]
fn spent_reads_time_the_exchange_out() {
    let mut exchange = sent(1);
    let first = b"HTTP/1.1 200 OK\r\nContent-Length: 5\r\n\r\nab".to_vec();
    assert!(matches!(exchange.step(Event::Read(first.clone())), Action::Read));
    assert_eq!(failure(exchange.step(Event::Read(b"c".to_vec()))), ExchangeError::Timeout);
    let mut exchange = sent(0);
    assert_eq!(failure(exchange.step(Event::Read(first))), ExchangeError::Timeout);
}

#[test]
fn finished_exchange_answers_with_a_connection_failure() {
    let mut exchange = sent(0);
    let first = b"HTTP/1.1 200 OK\r\n\r\n".to_vec();
    assert!(matches!(exchange.step(Event::Read(first.clone())), Action::Deliver(_)));
    assert_eq!(failure(exchange.step(Event::Read(first))), ExchangeError::Connection);
    assert_eq!(failure(exchange.step(Event::Opened)), ExchangeError::Connection);
}
