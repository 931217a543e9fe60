//! Tests for the data source, its pending operation, and the output buffer.

use fancy_reader::{Fancy, OutputBuffer, Poll, FILL_BYTE};

#[test]
fn fill_chunk_exact_contents() {
    let mut fancy = Fancy::new();
    assert_eq!(fancy.fill_chunk(3), vec![1u8, 1, 1]);
    assert_eq!(fancy.fill_chunk(0), Vec::<u8>::new());
    assert_eq!(fancy.fill_chunk(1), vec![FILL_BYTE]);
}

#[test]
fn produce_suspends_once_then_completes() {
    let mut fancy = Fancy::new();
    let mut op = fancy.produce(4);
    assert_eq!(op.size(), 4);
    assert!(matches!(op.step(&mut fancy), Poll::Pending));
    match op.step(&mut fancy) {
        Poll::Ready(chunk) => assert_eq!(chunk, vec![1u8; 4]),
        Poll::Pending => panic!("a suspended operation's next step completes"),
    }
    // A completed operation stays completed.
    match op.step(&mut fancy) {
        Poll::Ready(chunk) => assert_eq!(chunk, vec![1u8; 4]),
        Poll::Pending => panic!("a completed operation does not suspend again"),
    }
}

#[test]
fn output_buffer_window_writes() {
    let mut out = OutputBuffer::new(vec![0u8; 6], 2, 5);
    assert_eq!(out.remaining(), 3);
    assert_eq!(out.position(), 2);
    out.put_slice(&vec![9u8, 8]);
    assert_eq!(out.position(), 4);
    assert_eq!(out.remaining(), 1);
    out.put_slice(&vec![7u8]);
    assert_eq!(out.remaining(), 0);
    assert_eq!(out.into_inner(), [0, 0, 9, 8, 7, 0]);
}

#[test]
fn output_buffer_empty_put() {
    let mut out = OutputBuffer::new(vec![5u8; 3], 1, 1);
    assert_eq!(out.remaining(), 0);
    out.put_slice(&Vec::new());
    assert_eq!(out.position(), 1);
    assert_eq!(out.into_inner(), [5, 5, 5]);
}
