use docker_client::http::{HTTPMethod, Request, URI};
use docker_client::text::push_decimal;

fn count(haystack: &str, needle: &str) -> usize {
    haystack.matches(needle).count()
}

#[test]
fn uri_renders_path_and_parameters() {
    let mut builder = URI::with_path("/containers/json");
    builder.parameter("all", "true").parameter("limit", "5");
    let text = builder.build().to_string();
    assert!(text.starts_with("/containers/json?"));
    let query: Vec<&str> = text["/containers/json?".len()..].split('&').collect();
    assert!(query.contains(&"all=true"));
    assert!(query.contains(&"limit=5"));
    assert_eq!(text, "/containers/json?all=true&limit=5");
}

#[test]
fn uri_without_parameters_is_its_path() {
    assert_eq!(URI::with_path("/version").build().to_string(), "/version");
    assert_eq!(URI::new().build().to_string(), "");
}

#[test]
fn uri_parameter_overwrites_in_place() {
    let mut builder = URI::new();
    builder.url("/x").parameter("a", "1").parameter("b", "2").parameter("a", "3");
    assert_eq!(builder.build().to_string(), "/x?a=3&b=2");
}

#[test]
fn uri_escapes_nothing() {
    let mut builder = URI::with_path("/x");
    builder.parameter("q", "a b&c=d");
    assert_eq!(builder.build().to_string(), "/x?q=a b&c=d");
}

#[test]
fn uri_builder_can_build_twice() {
    let mut builder = URI::with_path("/x");
    builder.parameter("a", "1");
    let first = builder.build();
    builder.parameter("b", "2");
    let second = builder.build();
    assert_eq!(first.to_string(), "/x?a=1");
    assert_eq!(second.to_string(), "/x?a=1&b=2");
    assert_eq!(first.clone().to_string(), "/x?a=1");
}

#[test]
fn get_request_has_no_framing_headers() {
    let mut builder = Request::get();
    builder.url(URI::with_path("/version").build());
    let text = builder.build().to_string();
    assert_eq!(text, "GET /version HTTP/1.1\r\nHost: 127.0.0.1\r\n\r\n");
    assert_eq!(count(&text, "Content-Length"), 0);
    assert_eq!(count(&text, "Content-Type"), 0);
}

#[test]
fn new_request_is_a_get_of_nothing() {
    assert_eq!(Request::new().build().to_string(), "GET  HTTP/1.1\r\nHost: 127.0.0.1\r\n\r\n");
}

#[test]
fn delete_request_with_body_has_no_framing_headers() {
    let mut builder = Request::delete();
    builder.url(URI::with_path("/volumes/v").build()).content("ignored");
    let text = builder.build().to_string();
    assert_eq!(text, "DELETE /volumes/v HTTP/1.1\r\nHost: 127.0.0.1\r\n\r\nignored");
}

#[test]
fn post_request_with_body_is_framed() {
    let mut builder = Request::post();
    builder.url(URI::with_path("/containers/create").build()).content("{\"Image\":\"a\"}");
    let text = builder.build().to_string();
    assert_eq!(
        text,
        "POST /containers/create HTTP/1.1\r\nHost: 127.0.0.1\r\nContent-Length: 13\r\n\
         Content-Type: application/json\r\n\r\n{\"Image\":\"a\"}"
    );
    assert_eq!(count(&text, "\r\nContent-Length: 13\r\n"), 1);
    assert_eq!(count(&text, "Content-Length"), 1);
    assert_eq!(count(&text, "\r\nContent-Type: application/json\r\n"), 1);
    assert_eq!(count(&text, "Content-Type"), 1);
}

#[test]
fn post_request_without_body_is_unframed() {
    let mut builder = Request::post();
    builder.url(URI::with_path("/containers/c/start").build());
    let text = builder.build().to_string();
    assert_eq!(text, "POST /containers/c/start HTTP/1.1\r\nHost: 127.0.0.1\r\n\r\n");
}

#[test]
fn content_length_counts_bytes() {
    let mut builder = Request::post();
    builder.url(URI::with_path("/x").build()).content("h\u{e9}llo");
    let text = builder.build().to_string();
    assert!(text.contains("\r\nContent-Length: 6\r\n"));
}

#[test]
fn method_can_be_set_later() {
    let mut builder = Request::new();
    builder.method(HTTPMethod::POST).url(URI::with_path("/x").build()).content("1");
    let text = builder.build().to_string();
    assert!(text.starts_with("POST /x HTTP/1.1\r\n"));
    assert!(text.ends_with("\r\n\r\n1"));
    assert_eq!(HTTPMethod::default(), HTTPMethod::GET);
}

#[test]
fn own_headers_come_first_in_insertion_order() {
    let mut builder = Request::get();
    builder
        .url(URI::with_path("/x").build())
        .header("X-B", "2")
        .header("X-A", "1")
        .header("X-B", "3");
    let text = builder.build().to_string();
    assert_eq!(text, "GET /x HTTP/1.1\r\nX-B: 3\r\nX-A: 1\r\nHost: 127.0.0.1\r\n\r\n");
}

#[test]
fn host_can_be_configured() {
    let mut builder = Request::get();
    builder.url(URI::with_path("/x").build());
    let text = builder.build().render("docker.local");
    assert_eq!(text, "GET /x HTTP/1.1\r\nHost: docker.local\r\n\r\n");
}

#[test]
fn rendered_request_parses_back() {
    let mut uri = URI::with_path("/containers/create");
    uri.parameter("name", "web");
    let mut builder = Request::post();
    builder.url(uri.build()).header("X-Registry-Auth", "e30=").content("{\"Image\":\"alpine\"}");
    let text = builder.build().to_string();

    let mut headers = [httparse::EMPTY_HEADER; 8];
    let mut parsed = httparse::Request::new(&mut headers);
    let status = parsed.parse(text.as_bytes()).unwrap();
    assert!(status.is_complete());
    let head = status.unwrap();
    assert_eq!(parsed.method, Some("POST"));
    assert_eq!(parsed.path, Some("/containers/create?name=web"));
    assert_eq!(parsed.version, Some(1));
    let mut seen: Vec<(String, String)> = parsed
        .headers
        .iter()
        .map(|h| (h.name.to_string(), String::from_utf8(h.value.to_vec()).unwrap()))
        .collect();
    seen.sort();
    let mut expected = vec![
        ("X-Registry-Auth".to_string(), "e30=".to_string()),
        ("Host".to_string(), "127.0.0.1".to_string()),
        ("Content-Length".to_string(), "18".to_string()),
        ("Content-Type".to_string(), "application/json".to_string()),
    ];
    expected.sort();
    assert_eq!(seen, expected);
    assert_eq!(&text.as_bytes()[head..], b"{\"Image\":\"alpine\"}");
    assert_eq!(text.len() - head, 18);
}

#[test]
fn rendered_get_parses_back() {
    let mut builder = Request::get();
    builder.url(URI::with_path("/images/json").build());
    let text = builder.build().to_string();
    let mut headers = [httparse::EMPTY_HEADER; 4];
    let mut parsed = httparse::Request::new(&mut headers);
    let head = parsed.parse(text.as_bytes()).unwrap().unwrap();
    assert_eq!(parsed.method, Some("GET"));
    assert_eq!(parsed.path, Some("/images/json"));
    assert_eq!(parsed.headers.len(), 1);
    assert_eq!(parsed.headers[0].name, "Host");
    assert_eq!(head, text.len());
}

#[test]
fn decimal_numerals() {
    for (n, text) in [(0usize, "0"), (7, "7"), (10, "10"), (1024, "1024"), (909, "909")] {
        let mut s = String::from("n=");
        push_decimal(&mut s, n);
        assert_eq!(s, format!("n={}", text));
    }
    let mut s = String::new();
    push_decimal(&mut s, usize::MAX);
    assert_eq!(s, usize::MAX.to_string());
}
