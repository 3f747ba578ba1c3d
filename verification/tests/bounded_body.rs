use gateway::executor::bounded_body::{
    accumulate_chunks, append_bounded, check_advertised_content_length, transport_error,
    BoundedBody,
};
use gateway::executor::error::ExecutorError;
use std::cell::Cell;
use std::rc::Rc;

struct CountingChunks {
    inner: std::vec::IntoIter<Vec<u8>>,
    pulled: Rc<Cell<usize>>,
}

impl Iterator for CountingChunks {
    type Item = Vec<u8>;

    fn next(&mut self) -> Option<Self::Item> {
        let item = self.inner.next()?;
        self.pulled
            .set(self.pulled.get().saturating_add(item.len()));
        Some(item)
    }
}

fn counting(chunks: Vec<Vec<u8>>) -> (CountingChunks, Rc<Cell<usize>>) {
    let pulled = Rc::new(Cell::new(0));
    (
        CountingChunks {
            inner: chunks.into_iter(),
            pulled: pulled.clone(),
        },
        pulled,
    )
}

#[test]
fn exact_cap_is_accepted_without_parsing() {
    let body = accumulate_chunks(&mut vec![b"{\"ok\":true}".to_vec()].into_iter(), 11)
        .expect("exact-size body must be accepted");
    assert_eq!(body, b"{\"ok\":true}");
}

#[test]
fn one_byte_over_cap_fails_and_does_not_keep_the_overflow_bytes() {
    let mut buf = b"{\"ok\":true}".to_vec();
    match append_bounded(&mut buf, b"!", 11) {
        Err(ExecutorError::InvalidUpstreamResult) => {}
        other => panic!("expected InvalidUpstreamResult, got {other:?}"),
    }
    assert_eq!(buf, b"{\"ok\":true}");
}

#[test]
fn accumulation_stops_before_pulling_remaining_chunks() {
    let (mut chunks, pulled) = counting(vec![
        vec![b'a'; 10],
        vec![b'b'; 10],
        vec![b'c'; 10],
        vec![b'x'; 10_000],
    ]);
    match accumulate_chunks(&mut chunks, 25) {
        Err(ExecutorError::InvalidUpstreamResult) => {}
        other => panic!("expected InvalidUpstreamResult, got {other:?}"),
    }
    assert_eq!(
        pulled.get(),
        30,
        "reader must stop after the overflowing chunk rather than draining the remainder"
    );
}

#[test]
fn advertised_content_length_above_cap_fails_without_reading() {
    match check_advertised_content_length(Some(101), 100) {
        Err(ExecutorError::InvalidUpstreamResult) => {}
        other => panic!("expected InvalidUpstreamResult, got {other:?}"),
    }
    check_advertised_content_length(Some(100), 100).expect("exact advertised length is allowed");
    check_advertised_content_length(None, 100)
        .expect("missing content-length is capped while reading");
}

#[test]
fn streamed_body_is_capped_chunk_by_chunk() {
    assert!(matches!(
        BoundedBody::start(Some(6), 5),
        Err(ExecutorError::InvalidUpstreamResult)
    ));
    let mut body = BoundedBody::start(None, 5).expect("unknown length");
    body.push(b"abc").expect("fits");
    assert!(body.push(b"def").is_err());
    assert_eq!(body.bytes, b"abc");
    body.push(b"de").expect("exact cap");
    assert_eq!(body.bytes, b"abcde");
}

#[test]
fn reading_failures_are_classified() {
    assert!(matches!(transport_error(true), ExecutorError::TimeoutError(0)));
    match transport_error(false) {
        ExecutorError::NetworkError(detail) => assert_eq!(detail, "upstream transport error"),
        other => panic!("expected NetworkError, got {other:?}"),
    }
}
