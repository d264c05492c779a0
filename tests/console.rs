use kernel_core::console::{QEMUOutput, QEMUOutputInner, Statistics, Write};

#[test]
fn newline_becomes_carriage_return_newline() {
    let mut out = QEMUOutput::new();
    out.write_str("hi\nyou\n");
    assert_eq!(out.take_pending(), b"hi\r\nyou\r\n".to_vec());
    assert_eq!(out.chars_written(), 9);
    assert!(out.take_pending().is_empty());
}

#[test]
fn inner_counts_and_queues() {
    let mut inner = QEMUOutputInner::new();
    assert_eq!(inner.chars_written(), 0);
    inner.write_char('A');
    inner.write_str("");
    inner.write_str("\n");
    assert_eq!(inner.chars_written(), 3);
    assert_eq!(inner.take_pending(), vec![b'A', b'\r', b'\n']);
}
