use bytes::Bytes;
use download_async::body::Body;
use download_async::decoder::Coding;
use download_async::dns::{SocketAddr, SocketAddrs};
use download_async::download::{connect, download, Connecting, Next, Started, Turn};
use download_async::error::Error;
use download_async::progress::{Progress, ProgressCall};
use download_async::request::{Method, Parts, Request, Version};
use http::{HeaderMap, HeaderValue};

#[derive(Default)]
struct Recorder {
    calls: Vec<ProgressCall>,
}

impl Progress for Recorder {
    fn set_file_size(&mut self, size: usize) {
        self.calls.push(ProgressCall::SetFileSize(size));
    }

    fn add_to_progress(&mut self, amount: usize) {
        self.calls.push(ProgressCall::AddToProgress(amount));
    }

    fn remove_from_progress(&mut self, bytes: usize) {
        self.calls.push(ProgressCall::RemoveFromProgress(bytes));
    }
}

enum Round {
    End,
    Nothing,
    Fail(Error),
    Chunk(&'static [u8], bool),
}

struct Ran {
    outcome: Option<Result<Parts, Error>>,
    sink: Vec<u8>,
    writes: usize,
    calls: Vec<ProgressCall>,
    coding: Option<Coding>,
}

fn request(uri: &str) -> Request<()> {
    Request { method: Method::Get, uri: uri.to_string(), headers: HeaderMap::new(), body: () }
}

fn connecting(observed: bool) -> Connecting {
    download(&request("https://example.com/file"), true, observed, None).unwrap()
}

fn head(status: u16, pairs: &[(&'static str, &'static str)]) -> Parts {
    let mut headers = HeaderMap::new();
    for (name, value) in pairs {
        headers.append(*name, HeaderValue::from_static(value));
    }
    Parts { status, version: Version::Http11, headers }
}

fn report(call: Option<ProgressCall>, observer: &mut Option<Recorder>) {
    if let (Some(call), Some(observer)) = (call, observer.as_mut()) {
        call.deliver(observer);
    }
}

fn run(parts: Option<Parts>, observed: bool, rounds: Vec<Round>) -> Ran {
    let mut observer = if observed { Some(Recorder::default()) } else { None };
    let mut ran = Ran { outcome: None, sink: Vec::new(), writes: 0, calls: Vec::new(), coding: None };
    let response = parts.map(|parts| (parts, Body::<()>::wrap_stream(())));
    let started: Started<()> = match connecting(observed).on_response(response) {
        Ok(started) => started,
        Err(e) => {
            ran.outcome = Some(Err(e));
            return ran;
        }
    };
    ran.coding = started.decoder.coding();
    report(started.report, &mut observer);
    let mut transfer = started.transfer;
    for round in rounds {
        let polling = match transfer.next(matches!(round, Round::End)) {
            Next::Done(parts) => {
                ran.outcome = Some(Ok(parts));
                break;
            }
            Next::Poll(polling) => polling,
        };
        let (item, accepted) = match round {
            Round::End | Round::Nothing => (None, false),
            Round::Fail(e) => (Some(Err(e)), false),
            Round::Chunk(bytes, accepted) => (Some(Ok(Bytes::from_static(bytes))), accepted),
        };
        match polling.on_item(item) {
            Turn::Again(again) => transfer = again,
            Turn::Failed(e) => {
                ran.outcome = Some(Err(e));
                break;
            }
            Turn::Write { report: call, chunk, writing } => {
                report(call, &mut observer);
                if accepted {
                    ran.sink.extend_from_slice(&chunk);
                    ran.writes += 1;
                }
                match writing.on_written(accepted) {
                    Ok(resumed) => transfer = resumed,
                    Err(e) => {
                        ran.outcome = Some(Err(e));
                        break;
                    }
                }
            }
        }
    }
    ran.calls = observer.map(|o| o.calls).unwrap_or_default();
    ran
}

fn hello_world() -> Vec<Round> {
    vec![Round::Chunk(b"hello ", true), Round::Chunk(b"world!", true), Round::End]
}

#[test]
fn two_chunks_reach_the_sink_in_order() {
    let ran = run(Some(head(200, &[("content-length", "11")])), false, hello_world());
    assert_eq!(ran.sink, b"hello world!".to_vec());
    assert_eq!(ran.writes, 2);
    assert!(ran.calls.is_empty());
    let parts = ran.outcome.unwrap().unwrap();
    assert_eq!(parts.status, 200);
    assert_eq!(parts.version, Version::Http11);
    assert_eq!(parts.headers.get("content-length"), Some(&HeaderValue::from_static("11")));
    assert_eq!(ran.coding, None);
}

#[test]
fn status_404_writes_nothing() {
    let ran = run(Some(head(404, &[("content-length", "11")])), false, hello_world());
    assert_eq!(ran.outcome.unwrap().unwrap_err(), Error::StatusError(404));
    assert!(ran.sink.is_empty());
    assert_eq!(ran.writes, 0);
}

#[test]
fn only_200_and_206_are_drained() {
    for status in [200u16, 206] {
        let ran = run(Some(head(status, &[])), true, hello_world());
        assert_eq!(ran.outcome.unwrap().unwrap().status, status);
        assert_eq!(ran.sink, b"hello world!".to_vec());
    }
    for status in [100u16, 199, 201, 204, 205, 207, 301, 302, 304, 400, 404, 416, 500, 503, 0, 999, u16::MAX] {
        let ran = run(Some(head(status, &[("content-length", "11")])), true, hello_world());
        assert_eq!(ran.outcome.unwrap().unwrap_err(), Error::StatusError(status));
        assert!(ran.sink.is_empty());
        assert!(ran.calls.is_empty());
    }
}

#[test]
fn gzip_suppresses_the_total() {
    let parts = head(200, &[("content-encoding", "gzip"), ("content-length", "11")]);
    let ran = run(Some(parts), true, hello_world());
    assert_eq!(ran.coding, Some(Coding::Gzip));
    assert_eq!(
        ran.calls,
        vec![ProgressCall::AddToProgress(6), ProgressCall::AddToProgress(6)],
    );
    assert_eq!(ran.sink, b"hello world!".to_vec());
    let parts = ran.outcome.unwrap().unwrap();
    assert!(parts.headers.get("content-length").is_none());
    assert!(parts.headers.get("content-encoding").is_none());
}

#[test]
fn encoded_body_never_parses_content_length() {
    let parts = head(200, &[("content-encoding", "br"), ("content-length", "eleven")]);
    let ran = run(Some(parts), true, hello_world());
    assert_eq!(ran.coding, Some(Coding::Brotli));
    assert!(ran.outcome.unwrap().is_ok());
    assert!(!ran.calls.iter().any(|c| matches!(c, ProgressCall::SetFileSize(_))));
}

#[test]
fn total_is_announced_before_any_chunk() {
    let ran = run(Some(head(200, &[("content-length", "12")])), true, hello_world());
    assert_eq!(
        ran.calls,
        vec![
            ProgressCall::SetFileSize(12),
            ProgressCall::AddToProgress(6),
            ProgressCall::AddToProgress(6),
        ],
    );
    assert!(ran.outcome.unwrap().is_ok());
}

#[test]
fn total_is_what_the_header_declares() {
    let parts = head(206, &[("content-length", "5242880")]);
    let ran = run(Some(parts), true, vec![Round::End]);
    assert_eq!(ran.calls, vec![ProgressCall::SetFileSize(5_242_880)]);
    let parts = head(200, &[("content-length", "+7")]);
    let ran = run(Some(parts), true, vec![Round::End]);
    assert_eq!(ran.calls, vec![ProgressCall::SetFileSize(7)]);
    let parts = head(200, &[("content-length", "3"), ("content-length", "4")]);
    let ran = run(Some(parts), true, vec![Round::End]);
    assert_eq!(ran.calls, vec![ProgressCall::SetFileSize(3)]);
}

#[test]
fn missing_content_length_leaves_total_unknown() {
    let ran = run(Some(head(200, &[])), true, hello_world());
    assert_eq!(
        ran.calls,
        vec![ProgressCall::AddToProgress(6), ProgressCall::AddToProgress(6)],
    );
    assert!(ran.outcome.unwrap().is_ok());
}

#[test]
fn malformed_content_length_is_an_error_for_an_observer() {
    for bad in ["eleven", "", "-1", "1.5", " 11", "99999999999999999999999999"] {
        let mut headers = HeaderMap::new();
        headers.append("content-length", HeaderValue::from_str(bad).unwrap());
        let parts = Parts { status: 200, version: Version::Http2, headers };
        let ran = run(Some(parts), true, hello_world());
        assert_eq!(ran.outcome.unwrap().unwrap_err(), Error::HeaderParseError, "{:?}", bad);
        assert!(ran.sink.is_empty());
        assert!(ran.calls.is_empty());
    }
    let mut headers = HeaderMap::new();
    headers.append("content-length", HeaderValue::from_bytes(b"1\xff").unwrap());
    let parts = Parts { status: 200, version: Version::Http2, headers };
    let ran = run(Some(parts), true, hello_world());
    assert_eq!(ran.outcome.unwrap().unwrap_err(), Error::HeaderParseError);
}

#[test]
fn malformed_content_length_is_not_read_without_an_observer() {
    let ran = run(Some(head(200, &[("content-length", "eleven")])), false, hello_world());
    assert_eq!(ran.outcome.unwrap().unwrap().status, 200);
    assert_eq!(ran.sink, b"hello world!".to_vec());
}

#[test]
fn every_chunk_is_reported_then_written() {
    let rounds = vec![
        Round::Chunk(b"a", true),
        Round::Nothing,
        Round::Chunk(b"bcd", true),
        Round::Chunk(b"", true),
        Round::Nothing,
        Round::Nothing,
        Round::Chunk(b"efghij", true),
        Round::End,
    ];
    let ran = run(Some(head(200, &[])), true, rounds);
    assert_eq!(
        ran.calls,
        vec![
            ProgressCall::AddToProgress(1),
            ProgressCall::AddToProgress(3),
            ProgressCall::AddToProgress(0),
            ProgressCall::AddToProgress(6),
        ],
    );
    assert_eq!(ran.sink, b"abcdefghij".to_vec());
    assert_eq!(ran.writes, 4);
    assert_eq!(ran.outcome.unwrap().unwrap().status, 200);
}

#[test]
fn chunk_passes_through_unchanged() {
    let started = connecting(true)
        .on_response(Some((head(200, &[]), Body::<()>::wrap_stream(()))))
        .unwrap();
    let polling = match started.transfer.next(false) {
        Next::Poll(polling) => polling,
        Next::Done(_) => panic!("the body has not ended"),
    };
    let chunk = Bytes::from_static(b"hello ");
    match polling.on_item(Some(Ok(chunk.clone()))) {
        Turn::Write { report, chunk: out, .. } => {
            assert_eq!(out, chunk);
            assert_eq!(report, Some(ProgressCall::AddToProgress(6)));
        }
        other => panic!("{:?}", other),
    }
}

#[test]
fn stream_error_ends_the_download() {
    for e in [Error::TimedOut, Error::DecodeError, Error::TransportError] {
        let rounds = vec![Round::Chunk(b"hello ", true), Round::Fail(e), Round::Chunk(b"world!", true), Round::End];
        let ran = run(Some(head(200, &[])), true, rounds);
        assert_eq!(ran.outcome.unwrap().unwrap_err(), e);
        assert_eq!(ran.sink, b"hello ".to_vec());
        assert_eq!(ran.calls, vec![ProgressCall::AddToProgress(6)]);
    }
}

#[test]
fn refused_write_is_an_io_error() {
    let rounds = vec![Round::Chunk(b"hello ", true), Round::Chunk(b"world!", false), Round::End];
    let ran = run(Some(head(200, &[])), true, rounds);
    assert_eq!(ran.outcome.unwrap().unwrap_err(), Error::IoError);
    assert_eq!(ran.sink, b"hello ".to_vec());
    assert_eq!(
        ran.calls,
        vec![ProgressCall::AddToProgress(6), ProgressCall::AddToProgress(6)],
    );
}

#[test]
fn body_that_has_ended_is_not_polled() {
    let ran = run(Some(head(200, &[("content-length", "0")])), true, vec![Round::End, Round::Chunk(b"late", true)]);
    assert_eq!(ran.outcome.unwrap().unwrap().status, 200);
    assert!(ran.sink.is_empty());
    assert_eq!(ran.calls, vec![ProgressCall::SetFileSize(0)]);
}

#[test]
fn download_goes_on_while_the_body_has_not_ended() {
    let ran = run(Some(head(200, &[])), false, vec![Round::Nothing, Round::Chunk(b"x", true), Round::Nothing]);
    assert!(ran.outcome.is_none());
    assert_eq!(ran.sink, b"x".to_vec());
}

#[test]
fn transport_failure_is_a_transport_error() {
    let ran = run(None, true, hello_world());
    assert_eq!(ran.outcome.unwrap().unwrap_err(), Error::TransportError);
    assert!(ran.sink.is_empty());
    assert!(ran.calls.is_empty());
}

#[test]
fn request_without_host_is_refused() {
    for uri in ["/", "/path/only", "", "*", "not a uri", "http://", "?query"] {
        let r = download(&request(uri), true, false, None);
        assert_eq!(r.unwrap_err(), Error::MissingHostError, "{:?}", uri);
    }
}

#[test]
fn request_with_host_connects() {
    for uri in ["https://example.com", "http://127.0.0.1:8080/a?b", "https://user@[::1]:443/", "example.com"] {
        let c = download(&request(uri), true, true, None).unwrap();
        assert!(c.https_only);
        assert!(c.observed);
        assert!(c.resolver.is_none());
    }
    let c = download(&request("http://example.com/"), false, false, None).unwrap();
    assert!(!c.https_only);
    assert!(!c.observed);
}

#[test]
fn socket_addrs_become_the_resolver() {
    let addrs = vec![SocketAddr::V4 { ip: 0x7f00_0001, port: 8443 }, SocketAddr::V4 { ip: 0x7f00_0002, port: 8443 }];
    let c = download(&request("https://example.com/"), true, false, Some(SocketAddrs::from(addrs.clone()))).unwrap();
    let mut resolver = c.resolver.unwrap();
    assert_eq!(resolver.call("example.com").to_socket_addrs(), addrs);
    assert_eq!(resolver.call("other").to_socket_addrs(), addrs);
}

#[test]
fn decoder_returns_the_body_of_the_response() {
    let body: Body<u32> = Body::wrap_stream(77u32).with_timeout(5);
    let started = connecting(false).on_response(Some((head(206, &[]), body))).unwrap();
    assert!(started.report.is_none());
    assert!(!started.decoder.is_encoded());
    let body = started.decoder.into_body();
    assert_eq!(body.source(), Some(&77u32));
}

#[test]
fn connect_follows_the_host_it_is_given() {
    assert_eq!(connect(None, true, true, None).unwrap_err(), Error::MissingHostError);
    let addrs = vec![SocketAddr::V4 { ip: 0x7f00_0001, port: 8443 }];
    let refused = connect(None, false, false, Some(SocketAddrs::from(addrs.clone())));
    assert_eq!(refused.unwrap_err(), Error::MissingHostError);
    let c = connect(Some("example.com".to_string()), true, false, None).unwrap();
    assert!(c.https_only);
    assert!(!c.observed);
    assert!(c.resolver.is_none());
    let c = connect(Some(String::new()), false, true, Some(SocketAddrs::from(addrs.clone()))).unwrap();
    assert!(!c.https_only);
    assert!(c.observed);
    assert_eq!(c.resolver.unwrap().call("any").to_socket_addrs(), addrs);
}
