use playpen::output::append;
use playpen::output::drain_streams;
use playpen::output::finish_output;
use playpen::output::timeout_marker;

#[test]
fn append_extends_the_shared_buffer_in_order() {
    let mut sink = Vec::new();
    append(&mut sink, b"he");
    append(&mut sink, b"llo");
    assert_eq!(sink, b"hello");
}

#[test]
fn marker_is_the_fixed_notice() {
    assert_eq!(timeout_marker(), b"\ntimeout triggered!".to_vec());
}

#[test]
fn output_is_marked_only_on_timeout() {
    let marked = finish_output(b"partial".to_vec(), true);
    assert_eq!(marked, b"partial\ntimeout triggered!".to_vec());
    let unmarked = finish_output(b"done".to_vec(), false);
    assert_eq!(unmarked, b"done".to_vec());
}

#[test]
fn concurrent_drain_loses_nothing() {
    let stdout_chunks = vec![b"he".to_vec(), b"llo".to_vec()];
    let stderr_chunks = vec![b"wor".to_vec(), b"ld".to_vec()];
    // One possible order in which the two readers got the lock.
    let sink = drain_streams(
        &stdout_chunks,
        &stderr_chunks,
        &vec![true, false, true, false],
    );
    assert_eq!(sink, b"heworllold".to_vec());
    // Every byte of both streams arrived, exactly once.
    assert_eq!(sink.len(), 10);
    // Another order: all of one stream first.
    let sink = drain_streams(
        &stdout_chunks,
        &stderr_chunks,
        &vec![false, false, true, true],
    );
    assert_eq!(sink, b"worldhello".to_vec());
}
