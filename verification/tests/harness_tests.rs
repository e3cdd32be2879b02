use cloud_speed::harness::{
    build_http_header, build_http_post_header, choose_address, download_query, download_request,
    header_value, headers_complete, sampling_wait, server_time_in, server_time_of, should_sample,
    upload_payload, upload_request, AddressFamily, LATENCY_QUEUE_CAPACITY, PROBE_TIMEOUT_SECS,
    SAMPLER_GRACE_MS,
};
use cloud_speed::headers::extract_http_headers;
use cloud_speed::target::{request_target, Target};
use http::header::{HeaderMap, HeaderValue};
use std::time::Duration;

const V4: AddressFamily = AddressFamily::V4;
const V6: AddressFamily = AddressFamily::V6;

#[test]
fn test_choose_address_prefers_ipv4() {
    assert_eq!(choose_address(&vec![]), None);
    assert_eq!(choose_address(&vec![V4]), Some(0));
    assert_eq!(choose_address(&vec![V6]), Some(0));
    assert_eq!(choose_address(&vec![V6, V6, V4, V4]), Some(2));
    assert_eq!(choose_address(&vec![V6, V6, V6]), Some(0));
    assert_eq!(choose_address(&vec![V4, V6]), Some(0));
}

#[test]
fn test_headers_complete() {
    assert!(!headers_complete(&b"".to_vec()));
    assert!(!headers_complete(&b"\r\n\r".to_vec()));
    assert!(headers_complete(&b"\r\n\r\n".to_vec()));
    assert!(headers_complete(&b"HTTP/1.1 200 OK\r\nA: b\r\n\r\n".to_vec()));
    assert!(!headers_complete(&b"HTTP/1.1 200 OK\r\nA: b\r\n".to_vec()));
    assert!(!headers_complete(&b"HTTP/1.1 200 OK\n\n\n\n".to_vec()));
    assert!(!headers_complete(&b"\r\n\r\nx".to_vec()));
    // Reading byte by byte stops exactly at the end of the head.
    let response = b"HTTP/1.1 200 OK\r\nserver-timing: x\r\n\r\nbody\r\n\r\n".to_vec();
    let mut read = Vec::new();
    for byte in &response {
        read.push(*byte);
        if headers_complete(&read) {
            break;
        }
    }
    assert_eq!(read, b"HTTP/1.1 200 OK\r\nserver-timing: x\r\n\r\n".to_vec());
}

#[test]
fn test_upload_payload() {
    assert_eq!(upload_payload(0), Vec::<u8>::new());
    assert_eq!(upload_payload(5), b"00000".to_vec());
    let big = upload_payload(100_000);
    assert_eq!(big.len(), 100_000);
    assert!(big.iter().all(|b| *b == b'0'));
}

#[test]
fn test_download_request_text() {
    assert_eq!(download_query(100_000), "bytes=100000");
    assert_eq!(download_query(0), "bytes=0");
    let text = build_http_header(
        "/__down",
        &download_query(1000),
        "speed.cloudflare.com",
        "cloud-speed/0.1",
    );
    assert_eq!(
        text,
        "GET /__down?bytes=1000 HTTP/1.1\r\n\
         Host: speed.cloudflare.com\r\n\
         User-Agent: cloud-speed/0.1\r\n\
         Accept: */*\r\n\
         Accept-Encoding: gzip, deflate, br, zstd\r\n\
         Connection: close\r\n\
         \r\n"
    );
    assert!(headers_complete(&text.into_bytes()));
}

#[test]
fn test_upload_request_text() {
    let text = build_http_post_header("/__up", "speed.cloudflare.com", "cloud-speed/0.1", 12345);
    assert_eq!(
        text,
        "POST /__up HTTP/1.1\r\n\
         Host: speed.cloudflare.com\r\n\
         User-Agent: cloud-speed/0.1\r\n\
         Accept: */*\r\n\
         Content-Type: text/plain;charset=UTF-8\r\n\
         Content-Length: 12345\r\n\
         Connection: close\r\n\
         \r\n"
    );
}

#[test]
fn test_header_value() {
    let head = "HTTP/1.1 200 OK\r\n\
                Date: Mon, 01 Jan 2024 00:00:00 GMT\r\n\
                Content-Type: application/octet-stream\r\n\
                Server-Timing: cfRequestDuration;dur=12.5\r\n\
                server-timing: second\r\n\
                \r\n";
    assert_eq!(
        header_value(head, "server-timing"),
        Some("cfRequestDuration;dur=12.5".to_string())
    );
    assert_eq!(
        header_value(head, "SERVER-TIMING"),
        Some("cfRequestDuration;dur=12.5".to_string())
    );
    assert_eq!(
        header_value(head, "date"),
        Some("Mon, 01 Jan 2024 00:00:00 GMT".to_string())
    );
    assert_eq!(header_value(head, "content-length"), None);
    assert_eq!(header_value(head, "server"), None);
    assert_eq!(header_value("", "a"), None);
    assert_eq!(header_value("a", "a"), None);
    assert_eq!(header_value("  A  :   b c  \n", "a"), Some("b c".to_string()));
    assert_eq!(header_value("a:", "a"), Some(String::new()));
    assert_eq!(header_value("x: 1\na: 2\na: 3", "a"), Some("2".to_string()));
    // A field whose name is no header name is passed over.
    assert_eq!(header_value(": v", ""), None);
    assert_eq!(header_value("bad name: 1\na: 2", "a"), Some("2".to_string()));
    assert_eq!(header_value("bad name: 1", "bad name"), None);
    // So is one whose value holds a control character.
    assert_eq!(header_value("a: x\u{1}y\na: z", "a"), Some("z".to_string()));
    assert_eq!(header_value("a: x\ty", "a"), Some("x\ty".to_string()));
    // A value that is not ASCII is kept, and is no text.
    assert_eq!(header_value("a: \u{e9}\na: z", "a"), None);
}

#[test]
fn test_extract_http_headers() {
    let head = "HTTP/1.1 200 OK\r\n\
                Date: Mon, 01 Jan 2024 00:00:00 GMT\r\n\
                X-Custom_1 :  a: b \r\n\
                Server-Timing: cfRequestDuration;dur=12.5\r\n\
                not a field\r\n\
                bad name: 1\r\n\
                server-timing: second\r\n\
                \r\n";
    let headers = extract_http_headers(head).unwrap();
    assert_eq!(headers.len(), 4);
    assert_eq!(headers.keys_len(), 3);
    assert_eq!(headers.get("date").unwrap(), "Mon, 01 Jan 2024 00:00:00 GMT");
    assert_eq!(headers.get("x-custom_1").unwrap(), "a: b");
    let timings: Vec<&str> =
        headers.get_all("server-timing").iter().map(|v| v.to_str().unwrap()).collect();
    assert_eq!(timings, vec!["cfRequestDuration;dur=12.5", "second"]);
    assert!(extract_http_headers("").unwrap().is_empty());
    assert!(extract_http_headers("HTTP/1.1 200 OK\r\n\r\n").unwrap().is_empty());
}

#[test]
fn test_server_time_in_headers() {
    let mut headers = HeaderMap::new();
    assert_eq!(server_time_in(&headers), Duration::ZERO);
    headers.insert("date", HeaderValue::from_static("Mon, 01 Jan 2024 00:00:00 GMT"));
    assert_eq!(server_time_in(&headers), Duration::ZERO);
    headers.append("Server-Timing", HeaderValue::from_static("cfRequestDuration;dur=3"));
    headers.append("server-timing", HeaderValue::from_static("cfRequestDuration;dur=4"));
    assert_eq!(server_time_in(&headers), Duration::from_millis(3));
    // A first value that is no text gives no time.
    let mut opaque = HeaderMap::new();
    opaque.append("server-timing", HeaderValue::from_bytes(b"dur=1;\xff").unwrap());
    opaque.append("server-timing", HeaderValue::from_static("dur=2"));
    assert_eq!(server_time_in(&opaque), Duration::ZERO);
}

#[test]
fn test_server_time_of_head() {
    let head = "HTTP/1.1 200 OK\r\nServer-Timing: cfRequestDuration;dur=12.5\r\n\r\n";
    assert_eq!(server_time_of(head), Duration::from_micros(12_500));
    // Absent or malformed: zero.
    assert_eq!(server_time_of("HTTP/1.1 200 OK\r\n\r\n"), Duration::ZERO);
    assert_eq!(server_time_of("server-timing: nothing here\r\n\r\n"), Duration::ZERO);
    assert_eq!(server_time_of("server-timing: dur=-3\r\n\r\n"), Duration::ZERO);
    // Only the first such header counts.
    assert_eq!(
        server_time_of("server-timing: bad\r\nserver-timing: dur=1\r\n\r\n"),
        Duration::ZERO
    );
}

#[test]
fn test_sampler_decisions() {
    assert_eq!(
        sampling_wait(Duration::from_millis(100), 400),
        Some(Duration::from_millis(300))
    );
    assert_eq!(sampling_wait(Duration::from_millis(0), 400), Some(Duration::from_millis(400)));
    assert_eq!(sampling_wait(Duration::from_millis(400), 400), None);
    assert_eq!(sampling_wait(Duration::from_millis(401), 400), None);
    assert_eq!(
        sampling_wait(Duration::from_nanos(399_999_999), 400),
        Some(Duration::from_nanos(1))
    );
    assert_eq!(sampling_wait(Duration::from_secs(1), 0), None);
    assert!(!should_sample(Duration::from_millis(249), 250));
    assert!(should_sample(Duration::from_millis(250), 250));
    assert!(should_sample(Duration::from_secs(2), 250));
    assert!(should_sample(Duration::ZERO, 0));
    assert_eq!(LATENCY_QUEUE_CAPACITY, 100);
    assert_eq!(SAMPLER_GRACE_MS, 100);
    assert_eq!(PROBE_TIMEOUT_SECS, 5);
}

fn target(host: &str, port: u16, path: &str, query: Option<&str>) -> Target {
    Target {
        host: host.to_string(),
        port,
        path: path.to_string(),
        query: query.map(|q| q.to_string()),
    }
}

#[test]
fn test_request_target() {
    assert_eq!(
        request_target("__down", Some("bytes=1000")),
        Some(target("speed.cloudflare.com", 443, "/__down", Some("bytes=1000")))
    );
    assert_eq!(
        request_target("__up", None),
        Some(target("speed.cloudflare.com", 443, "/__up", None))
    );
    assert_eq!(request_target("", None), Some(target("speed.cloudflare.com", 443, "/", None)));
    // The path and the query come out percent-encoded, a fragment is no
    // part of either.
    assert_eq!(
        request_target("a b/../c", Some("x=\u{e9} y#z")),
        Some(target("speed.cloudflare.com", 443, "/c", Some("x=%C3%A9%20y")))
    );
}

#[test]
fn test_download_request_head() {
    let (to, text) = download_request(1000, "cloud-speed/0.1").unwrap();
    assert_eq!(to, target("speed.cloudflare.com", 443, "/__down", Some("bytes=1000")));
    assert_eq!(
        text,
        "GET /__down?bytes=1000 HTTP/1.1\r\n\
         Host: speed.cloudflare.com\r\n\
         User-Agent: cloud-speed/0.1\r\n\
         Accept: */*\r\n\
         Accept-Encoding: gzip, deflate, br, zstd\r\n\
         Connection: close\r\n\
         \r\n"
    );
}

#[test]
fn test_upload_request_head() {
    let (to, text) = upload_request(12345, "cloud-speed/0.1").unwrap();
    assert_eq!(to, target("speed.cloudflare.com", 443, "/__up", None));
    assert_eq!(
        text,
        "POST /__up HTTP/1.1\r\n\
         Host: speed.cloudflare.com\r\n\
         User-Agent: cloud-speed/0.1\r\n\
         Accept: */*\r\n\
         Content-Type: text/plain;charset=UTF-8\r\n\
         Content-Length: 12345\r\n\
         Connection: close\r\n\
         \r\n"
    );
}

/// A head of `count` fields with names of their own, closed by a
/// `server-timing` field.
fn long_head(count: usize) -> String {
    let mut head = String::from("HTTP/1.1 200 OK\r\n");
    for i in 0..count {
        head.push_str(&format!("x-field-{}: {}\r\n", i, i));
    }
    head.push_str("Server-Timing: cfRequestDuration;dur=7\r\n\r\n");
    head
}

#[test]
fn test_header_map_takes_thousands_of_fields() {
    // With the last field, 3,276 fields in all.
    let head = long_head(3_275);
    let headers = extract_http_headers(&head).unwrap();
    assert_eq!(headers.keys_len(), 3_276);
    assert_eq!(headers.get("x-field-3274").unwrap(), "3274");
    assert_eq!(header_value(&head, "X-Field-0"), Some("0".to_string()));
    assert_eq!(header_value(&head, "x-field-3275"), None);
    assert_eq!(server_time_of(&head), Duration::from_millis(7));
}

#[test]
fn test_header_map_refuses_past_its_limit() {
    // More names than a header map holds: nothing is read.
    let head = long_head(40_000);
    assert!(extract_http_headers(&head).is_none());
    assert_eq!(header_value(&head, "x-field-0"), None);
    assert_eq!(server_time_of(&head), Duration::ZERO);
}
