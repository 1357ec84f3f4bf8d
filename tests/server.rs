use std::io::Read;

use http_server::bytes::{parse_unsigned, push_decimal};
use http_server::request::{is_blank_line, parse_head};
use http_server::router::{
    classify, dispatch, file_read_response, file_write_response, join_path, Action, Target,
};
use http_server::response::{ContentType, Response, Status};

fn lines(ls: &[&str]) -> Vec<Vec<u8>> {
    ls.iter().map(|l| l.as_bytes().to_vec()).collect()
}

fn respond(ls: &[&str]) -> Response {
    match dispatch(&lines(ls), b"/srv") {
        Action::Respond(r) => r,
        _ => panic!("expected a response"),
    }
}

fn gunzip(b: &[u8]) -> Vec<u8> {
    let mut out = Vec::new();
    flate2::read::GzDecoder::new(b).read_to_end(&mut out).unwrap();
    out
}

#[test]
fn echo_without_gzip() {
    let r = respond(&["GET /echo/abc HTTP/1.1\r\n", "Host: localhost\r\n"]);
    assert_eq!(
        r.to_bytes(),
        b"HTTP/1.1 200 OK\r\nContent-Type: text/plain\r\nContent-Length: 3\r\n\r\nabc".to_vec()
    );
}

#[test]
fn echo_keeps_spaces_and_counts_utf8_bytes() {
    let r = respond(&["GET /echo/h\u{e9} y HTTP/1.1\r\n"]);
    assert_eq!(r.body, "h\u{e9} y".as_bytes().to_vec());
    assert_eq!(
        r.to_bytes(),
        b"HTTP/1.1 200 OK\r\nContent-Type: text/plain\r\nContent-Length: 5\r\n\r\nh\xc3\xa9 y".to_vec()
    );
}

#[test]
fn echo_empty_text() {
    let r = respond(&["GET /echo/ HTTP/1.1\r\n"]);
    assert_eq!(r.status, Status::Okay);
    assert!(r.body.is_empty());
}

#[test]
fn echo_with_gzip() {
    let r = respond(&["GET /echo/banana HTTP/1.1\r\n", "Accept-Encoding: gzip\r\n"]);
    assert_eq!(r.status_code(), 200);
    assert!(r.gzip);
    assert_ne!(r.body, b"banana".to_vec());
    assert_eq!(&r.body[..2], &[0x1f, 0x8b]);
    assert_eq!(&r.body[r.body.len() - 4..], &[6, 0, 0, 0]);
    assert_eq!(gunzip(&r.body), b"banana".to_vec());
    let mut expected = format!(
        "HTTP/1.1 200 OK\r\nContent-Encoding: gzip\r\nContent-Type: text/plain\r\nContent-Length: {}\r\n\r\n",
        r.body.len()
    )
    .into_bytes();
    expected.extend_from_slice(&r.body);
    assert_eq!(r.to_bytes(), expected);
}

#[test]
fn accept_encoding_is_case_insensitive_and_a_substring_test() {
    let upper = respond(&["GET /echo/x HTTP/1.1\r\n", "Accept-Encoding: deflate, GZIP\r\n"]);
    assert!(upper.gzip);
    assert_eq!(gunzip(&upper.body), b"x".to_vec());
    let loose = respond(&["GET /echo/x HTTP/1.1\r\n", "Accept-Encoding: gzipper\r\n"]);
    assert!(loose.gzip);
    let other = respond(&["GET /echo/x HTTP/1.1\r\n", "Accept-Encoding: deflate\r\n"]);
    assert!(!other.gzip);
    assert_eq!(other.body, b"x".to_vec());
}

#[test]
fn last_accept_encoding_header_wins() {
    let r = respond(&[
        "GET /echo/x HTTP/1.1\r\n",
        "Accept-Encoding: gzip\r\n",
        "Accept-Encoding: br\r\n",
    ]);
    assert!(!r.gzip);
}

#[test]
fn root_ignores_headers() {
    let expected =
        b"HTTP/1.1 200 OK\r\nContent-Type: text/plain\r\nContent-Length: 0\r\n\r\n".to_vec();
    assert_eq!(respond(&["GET / HTTP/1.1\r\n"]).to_bytes(), expected);
    let r = respond(&[
        "GET / HTTP/1.1\r\n",
        "Accept-Encoding: gzip\r\n",
        "User-Agent: foo/1.0\r\n",
    ]);
    assert_eq!(r.to_bytes(), expected);
}

#[test]
fn user_agent_present() {
    let r = respond(&["GET /user-agent HTTP/1.1\r\n", "Host: h\r\n", "User-Agent: foo/1.0\r\n"]);
    assert_eq!(
        r.to_bytes(),
        b"HTTP/1.1 200 OK\r\nContent-Type: text/plain\r\nContent-Length: 7\r\n\r\nfoo/1.0".to_vec()
    );
}

#[test]
fn user_agent_first_header_wins() {
    let r = respond(&[
        "GET /user-agent HTTP/1.1\r\n",
        "User-Agent: one\r\n",
        "User-Agent: two\r\n",
    ]);
    assert_eq!(r.body, b"one".to_vec());
}

#[test]
fn user_agent_missing() {
    let r = respond(&["GET /user-agent HTTP/1.1\r\n", "Host: h\r\n"]);
    assert_eq!(r.status_code(), 400);
    assert_eq!(
        r.to_bytes(),
        b"HTTP/1.1 400 Bad Request\r\nContent-Type: text/plain\r\nContent-Length: 0\r\n\r\n".to_vec()
    );
}

#[test]
fn file_download_reads_joined_path() {
    match dispatch(&lines(&["GET /files/report.txt HTTP/1.1\r\n"]), b"/srv") {
        Action::ReadFile(p) => assert_eq!(p, b"/srv/report.txt".to_vec()),
        _ => panic!("expected a file read"),
    }
}

#[test]
fn file_download_found() {
    let r = file_read_response(Some(vec![0u8, 1, 2, 255]));
    assert_eq!(r.content_type, ContentType::OctetStream);
    assert_eq!(
        r.to_bytes(),
        b"HTTP/1.1 200 OK\r\nContent-Type: application/octet-stream\r\nContent-Length: 4\r\n\r\n\x00\x01\x02\xff".to_vec()
    );
}

#[test]
fn file_download_missing() {
    let r = file_read_response(None);
    assert_eq!(r.status_code(), 404);
    assert!(r.body.is_empty());
    assert_eq!(
        r.to_bytes(),
        b"HTTP/1.1 404 Not Found\r\nContent-Type: text/plain\r\nContent-Length: 0\r\n\r\n".to_vec()
    );
}

#[test]
fn file_upload_writes_declared_length() {
    let ls = lines(&[
        "POST /files/report.txt HTTP/1.1\r\n",
        "Content-Length: 5\r\n",
        "Content-Type: application/octet-stream\r\n",
    ]);
    match dispatch(&ls, b"/srv") {
        Action::WriteFile { path, length } => {
            assert_eq!(path, b"/srv/report.txt".to_vec());
            assert_eq!(length, 5);
        }
        _ => panic!("expected a file write"),
    }
}

#[test]
fn upload_then_download_same_path() {
    let post = dispatch(
        &lines(&["POST /files/report.txt HTTP/1.1\r\n", "Content-Length: 3\r\n"]),
        b"/srv",
    );
    let get = dispatch(&lines(&["GET /files/report.txt HTTP/1.1\r\n"]), b"/srv");
    match (post, get) {
        (Action::WriteFile { path, length }, Action::ReadFile(p)) => {
            assert_eq!(path, p);
            assert_eq!(length, 3);
        }
        _ => panic!("expected a write and a read"),
    }
    let r = file_read_response(Some(b"abc".to_vec()));
    assert_eq!(r.body, b"abc".to_vec());
}

#[test]
fn two_uploads_target_one_path() {
    let first = dispatch(
        &lines(&["POST /files/x HTTP/1.1\r\n", "Content-Length: 5\r\n"]),
        b"/srv",
    );
    let second = dispatch(
        &lines(&["POST /files/x HTTP/1.1\r\n", "Content-Length: 2\r\n"]),
        b"/srv",
    );
    match (first, second) {
        (
            Action::WriteFile { path: p1, length: n1 },
            Action::WriteFile { path: p2, length: n2 },
        ) => {
            assert_eq!(p1, p2);
            assert_eq!((n1, n2), (5, 2));
        }
        _ => panic!("expected two writes"),
    }
}

#[test]
fn file_upload_outcomes() {
    assert_eq!(
        file_write_response(true).to_bytes(),
        b"HTTP/1.1 201 Created\r\nContent-Type: text/plain\r\nContent-Length: 0\r\n\r\n".to_vec()
    );
    assert_eq!(
        file_write_response(false).to_bytes(),
        b"HTTP/1.1 500 Internal Server Error\r\nContent-Type: text/plain\r\nContent-Length: 0\r\n\r\n"
            .to_vec()
    );
}

#[test]
fn unknown_path_is_not_found() {
    let r = respond(&["GET /nope HTTP/1.1\r\n"]);
    assert_eq!(
        r.to_bytes(),
        b"HTTP/1.1 404 Not Found\r\nContent-Type: text/plain\r\nContent-Length: 0\r\n\r\n".to_vec()
    );
}

#[test]
fn no_request_line_is_not_found() {
    let r = respond(&[]);
    assert_eq!(r.status, Status::NotFound);
}

#[test]
fn malformed_lines_fall_through() {
    assert!(matches!(classify(b"GET /echo/x HTTP/1.0"), Target::Unknown));
    assert!(matches!(classify(b"PUT /files/a HTTP/1.1"), Target::Unknown));
    assert!(matches!(classify(b"GET /user-agent HTTP/1.1"), Target::UserAgent));
    assert!(matches!(classify(b"GET / HTTP/1.1"), Target::Root));
    match classify(b"POST /files/a b HTTP/1.1") {
        Target::FilePost(n) => assert_eq!(n, b"a b".to_vec()),
        _ => panic!("expected an upload"),
    }
}

#[test]
fn bad_content_length_only_matters_for_uploads() {
    let root = respond(&["GET / HTTP/1.1\r\n", "Content-Length: x\r\n"]);
    assert_eq!(
        root.to_bytes(),
        b"HTTP/1.1 200 OK\r\nContent-Type: text/plain\r\nContent-Length: 0\r\n\r\n".to_vec()
    );
    let echo = respond(&["GET /echo/a HTTP/1.1\r\n", "Content-Length: x\r\n"]);
    assert_eq!(echo.body, b"a".to_vec());
    let nope = respond(&["GET /nope HTTP/1.1\r\n", "Content-Length: x\r\n"]);
    assert_eq!(nope.status_code(), 404);
    let upload = respond(&["POST /files/x HTTP/1.1\r\n", "Content-Length: abc\r\n"]);
    assert_eq!(
        upload.to_bytes(),
        b"HTTP/1.1 400 Bad Request\r\nContent-Type: text/plain\r\nContent-Length: 0\r\n\r\n".to_vec()
    );
    let earlier_bad = respond(&[
        "POST /files/x HTTP/1.1\r\n",
        "Content-Length: -1\r\n",
        "Content-Length: 4\r\n",
    ]);
    assert_eq!(earlier_bad.status_code(), 400);
    let big = parse_head(&lines(&["GET / HTTP/1.1\r\n", "Content-Length: 99999999999999999999999\r\n"]));
    assert_eq!(big.content_length, None);
}

#[test]
fn content_length_parsing() {
    let h = parse_head(&lines(&["POST /files/x HTTP/1.1\r\n", "Content-Length:  +12 \r\n"]));
    assert_eq!(h.content_length, Some(12));
    assert_eq!(h.request_line, b"POST /files/x HTTP/1.1".to_vec());
    let none = parse_head(&lines(&["GET / HTTP/1.1\r\n"]));
    assert_eq!(none.content_length, Some(0));
    assert_eq!(parse_unsigned(b"0"), Some(0));
    assert_eq!(parse_unsigned(b"18446744073709551615"), Some(usize::MAX));
    assert_eq!(parse_unsigned(b""), None);
    assert_eq!(parse_unsigned(b"+"), None);
    assert_eq!(parse_unsigned(b"-1"), None);
}

#[test]
fn decimal_spelling() {
    let mut out = b"n=".to_vec();
    push_decimal(&mut out, 0);
    assert_eq!(out, b"n=0".to_vec());
    let mut out = Vec::new();
    push_decimal(&mut out, 1207);
    assert_eq!(out, b"1207".to_vec());
}

#[test]
fn blank_lines_end_the_head() {
    assert!(is_blank_line(b"\r\n"));
    assert!(is_blank_line(b""));
    assert!(is_blank_line(b"\n"));
    assert!(!is_blank_line(b" \t\r\n"));
    assert!(!is_blank_line(b" "));
    assert!(!is_blank_line(b"Host: x\r\n"));
}

#[test]
fn join_path_uses_a_slash() {
    assert_eq!(join_path(b"/file/", b"a.txt"), b"/file//a.txt".to_vec());
}

#[test]
fn gzipped_response_headers() {
    let r = Response::gzipped(vec![1u8, 2, 3]);
    assert_eq!(
        r.to_bytes(),
        b"HTTP/1.1 200 OK\r\nContent-Encoding: gzip\r\nContent-Type: text/plain\r\nContent-Length: 3\r\n\r\n\x01\x02\x03"
            .to_vec()
    );
}

#[test]
fn bare_line_feed_terminators() {
    let r = respond(&["GET /user-agent HTTP/1.1\n", "User-Agent: curl/8\n"]);
    assert_eq!(r.body, b"curl/8".to_vec());
}
