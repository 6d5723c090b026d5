use bytes::Bytes;
use download_async::body::{Answer, Body, Poll, SizeHint};
use download_async::error::Error;

fn chunk_of(answer: Answer<Option<Result<Bytes, Error>>>) -> Option<Result<Vec<u8>, Error>> {
    match answer {
        Answer::Decided(item) => item.map(|r| r.map(|b| b.to_vec())),
        Answer::Delegated => panic!("the body left the answer to its source"),
    }
}

#[test]
fn reusable_yields_whole_buffer_once() {
    let mut body: Body<()> = Body::reusable(Bytes::from_static(b"hello world!"));
    assert_eq!(body.is_end_stream(), Answer::Decided(false));
    assert_eq!(chunk_of(body.poll_data(0)), Some(Ok(b"hello world!".to_vec())));
    assert_eq!(body.is_end_stream(), Answer::Decided(true));
    assert_eq!(chunk_of(body.poll_data(0)), None);
    assert_eq!(chunk_of(body.poll_data(1)), None);
    assert_eq!(body.is_end_stream(), Answer::Decided(true));
}

#[test]
fn reusable_of_one_byte() {
    let mut body: Body<()> = Body::reusable(Bytes::from(vec![7u8]));
    assert_eq!(chunk_of(body.poll_data(u64::MAX)), Some(Ok(vec![7u8])));
    assert_eq!(chunk_of(body.poll_data(u64::MAX)), None);
}

#[test]
fn empty_body_is_at_its_end() {
    let mut body: Body<()> = Body::empty();
    assert_eq!(body.is_end_stream(), Answer::Decided(true));
    assert_eq!(chunk_of(body.poll_data(5)), None);
    assert_eq!(body.size_hint(), Answer::Decided(SizeHint { lower: 0, upper: Some(0) }));
    assert_eq!(body.content_length(), Answer::Decided(Some(0)));
}

#[test]
fn reusable_knows_its_size() {
    let mut body: Body<()> = Body::reusable(Bytes::from_static(b"hello "));
    assert_eq!(body.size_hint(), Answer::Decided(SizeHint { lower: 6, upper: Some(6) }));
    assert_eq!(body.content_length(), Answer::Decided(Some(6)));
    let _ = body.poll_data(0);
    assert_eq!(body.size_hint(), Answer::Decided(SizeHint { lower: 0, upper: Some(0) }));
    assert_eq!(body.content_length(), Answer::Decided(Some(0)));
}

#[test]
fn reusable_ignores_a_deadline() {
    let mut body: Body<()> = Body::reusable(Bytes::from_static(b"abc")).with_timeout(1);
    assert_eq!(chunk_of(body.poll_data(100)), Some(Ok(b"abc".to_vec())));
    assert_eq!(chunk_of(body.poll_data(100)), None);
}

#[test]
fn streaming_delegates_to_its_source() {
    let mut body: Body<Vec<&'static str>> = Body::wrap_stream(vec!["a", "b"]);
    assert_eq!(body.poll_data(0), Answer::Delegated);
    assert_eq!(body.poll_data(u64::MAX), Answer::Delegated);
    assert_eq!(body.is_end_stream(), Answer::Delegated);
    assert_eq!(body.size_hint(), Answer::Delegated);
    assert_eq!(body.content_length(), Answer::Delegated);
    assert_eq!(body.source(), Some(&vec!["a", "b"]));
}

#[test]
fn streaming_from_a_source() {
    let mut body: Body<u32> = Body::from(9u32);
    assert_eq!(body.poll_data(3), Answer::Delegated);
    assert_eq!(body.source(), Some(&9u32));
    let reusable: Body<u32> = Body::empty();
    assert_eq!(reusable.source(), None);
}

#[test]
fn past_deadline_times_out_and_leaves_the_source() {
    let mut body: Body<Vec<u8>> = Body::wrap_stream(vec![1, 2, 3]).with_timeout(10);
    assert_eq!(chunk_of(body.poll_data(11)), Some(Err(Error::TimedOut)));
    assert_eq!(body.source(), Some(&vec![1u8, 2, 3]));
    assert_eq!(chunk_of(body.poll_data(12)), Some(Err(Error::TimedOut)));
    assert_eq!(body.source(), Some(&vec![1u8, 2, 3]));
}

#[test]
fn deadline_reached_counts_as_passed() {
    let mut body: Body<()> = Body::wrap_stream(()).with_timeout(10);
    assert_eq!(chunk_of(body.poll_data(10)), Some(Err(Error::TimedOut)));
}

#[test]
fn deadline_ahead_delegates() {
    let mut body: Body<()> = Body::wrap_stream(()).with_timeout(10);
    assert_eq!(body.poll_data(9), Answer::Delegated);
    assert_eq!(body.poll_data(0), Answer::Delegated);
}

#[test]
fn later_deadline_replaces_earlier() {
    let mut body: Body<()> = Body::wrap_stream(()).with_timeout(10).with_timeout(20);
    assert_eq!(body.poll_data(15), Answer::Delegated);
    assert_eq!(chunk_of(body.poll_data(20)), Some(Err(Error::TimedOut)));
}

#[test]
fn source_can_be_advanced_by_the_caller() {
    let mut body: Body<Vec<u8>> = Body::wrap_stream(vec![1, 2, 3]);
    if let Some(source) = body.source_mut() {
        source.remove(0);
    }
    assert_eq!(body.source(), Some(&vec![2u8, 3]));
    let mut reusable: Body<Vec<u8>> = Body::empty();
    assert!(reusable.source_mut().is_none());
}

#[test]
fn source_poll_passes_chunks_and_maps_errors() {
    let chunk = Bytes::from_static(b"world!");
    let ready: Poll<Option<Result<Bytes, String>>> = Poll::Ready(Some(Ok(chunk.clone())));
    assert_eq!(Body::<()>::poll_source(ready), Poll::Ready(Some(Ok(chunk))));
    let failed: Poll<Option<Result<Bytes, String>>> = Poll::Ready(Some(Err("reset".to_string())));
    assert_eq!(Body::<()>::poll_source(failed), Poll::Ready(Some(Err(Error::TransportError))));
    let ended: Poll<Option<Result<Bytes, String>>> = Poll::Ready(None);
    assert_eq!(Body::<()>::poll_source(ended), Poll::Ready(None));
    let pending: Poll<Option<Result<Bytes, String>>> = Poll::Pending;
    assert_eq!(Body::<()>::poll_source(pending), Poll::Pending);
}

#[test]
fn size_hint_exact() {
    assert_eq!(SizeHint::with_exact(11), SizeHint { lower: 11, upper: Some(11) });
    assert_eq!(SizeHint::with_exact(11).exact(), Some(11));
    assert_eq!(SizeHint { lower: 1, upper: Some(2) }.exact(), None);
    assert_eq!(SizeHint { lower: 0, upper: None }.exact(), None);
}
