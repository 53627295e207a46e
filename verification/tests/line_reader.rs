use pyrion::serial::line_reader::{LineEvent, LineReader, LINE_BUFFER_SIZE};

#[test]
fn reads_a_line_until_a_break() {
    let mut reader = LineReader::new(LINE_BUFFER_SIZE);
    assert_eq!(reader.on_byte(b'g'), LineEvent::Echo(b'g'));
    assert_eq!(reader.on_byte(b'o'), LineEvent::Echo(b'o'));
    assert_eq!(reader.on_byte(b'\r'), LineEvent::Complete(2));
    assert_eq!(reader.take_line(), b"go".to_vec());
    assert_eq!(reader.on_byte(b'\n'), LineEvent::Complete(0));
    assert_eq!(reader.take_line(), Vec::<u8>::new());
}

#[test]
fn a_full_buffer_misses_its_break() {
    let mut reader = LineReader::new(3);
    assert_eq!(reader.on_byte(b'a'), LineEvent::Echo(b'a'));
    assert_eq!(reader.on_byte(b'b'), LineEvent::Echo(b'b'));
    assert_eq!(reader.on_byte(b'c'), LineEvent::MissingBreak(b'c', 3));
    assert_eq!(reader.on_byte(b'x'), LineEvent::Echo(b'x'));
    assert_eq!(reader.on_byte(b'\n'), LineEvent::Complete(1));
    assert_eq!(reader.take_line(), b"x".to_vec());
}
