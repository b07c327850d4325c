use rust_knowledge::demo::app::build_payload;
use rust_knowledge::demo::writer::{AsyncWriter, BatchingWriter, Writer};

#[test]
fn flush_moves_the_buffered_bytes() {
    let mut w = Writer::new();
    assert_eq!(w.write_all(b"abc"), 3);
    let mut dest: Vec<u8> = b"x".to_vec();
    w.flush(&mut dest);
    assert_eq!(dest, b"xabc".to_vec());
    assert_eq!(w.pending(), 0);
}

#[test]
fn build_payload_encodes_the_input() {
    assert_eq!(build_payload(b"hi"), "aGk=");
}

#[test]
fn batches_count_commits_only() {
    let mut w = BatchingWriter::new();
    w.write_async(b"a");
    w.commit();
    w.write_async(b"b");
    w.write_async(b"c");
    w.commit();
    assert_eq!(w.batches(), 2);
}
