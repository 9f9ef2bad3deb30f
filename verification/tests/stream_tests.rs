use cohors::stream::{StreamBuffer, StreamSeek, StreamSeekError, BUFFER_LIMIT};

#[test]
fn stream_reads_back_after_seek() {
    let mut s = StreamBuffer::new();
    s.record_read(&[1, 2, 3]);
    assert_eq!(s.pos, 3);
    assert_eq!(s.read_buffered(10), None);
    assert_eq!(s.seek(StreamSeek::Start(0)), Ok(0));
    assert_eq!(s.read_buffered(2), Some(vec![1, 2]));
    assert_eq!(s.read_buffered(10), Some(vec![3]));
    assert_eq!(s.read_buffered(10), None);
    assert_eq!(s.seek(StreamSeek::Current(-1)), Ok(2));
    assert_eq!(s.read_buffered(10), Some(vec![3]));
}

#[test]
fn stream_refuses_seeks_past_the_buffer() {
    let mut s = StreamBuffer::new();
    s.record_read(&[1, 2, 3]);
    assert_eq!(s.seek(StreamSeek::Start(10)), Err(StreamSeekError::Unbuffered));
    assert_eq!(s.seek(StreamSeek::End(0)), Err(StreamSeekError::FromEnd));
    assert_eq!(s.pos, 3);
    let mut t = StreamBuffer::new();
    assert_eq!(t.seek(StreamSeek::Current(-1)), Err(StreamSeekError::Unbuffered));
    assert_eq!(t.seek(StreamSeek::Current(0)), Ok(0));
}

#[test]
fn stream_drops_bytes_past_the_limit() {
    let mut s = StreamBuffer::new();
    let data = vec![7u8; BUFFER_LIMIT + 5];
    s.record_read(&data);
    assert_eq!(s.buffer.len(), BUFFER_LIMIT);
    assert_eq!(s.dropped_bytes, 5);
    assert_eq!(s.pos, (BUFFER_LIMIT + 5) as u64);
    assert_eq!(s.seek(StreamSeek::Start(0)), Err(StreamSeekError::Overflowed));
    assert_eq!(s.seek(StreamSeek::Current(0)), Ok((BUFFER_LIMIT + 5) as u64));
    s.record_read(&[1, 2]);
    assert_eq!(s.dropped_bytes, 7);
    assert_eq!(s.buffer.len(), BUFFER_LIMIT);
}

#[test]
fn stream_seek_error_messages() {
    assert_eq!(StreamSeekError::FromEnd.message(), "Cannot seek from end");
    assert_eq!(StreamSeekError::Overflowed.message(), "Cannot seek: buffer overflowed");
    assert_eq!(StreamSeekError::Unbuffered.message(), "Cannot seek in unbuffered region");
}

#[test]
fn test_http_stream() {
    // The stream's source holds "Hello World"; a read of five bytes takes "Hello" from it.
    let data = b"Hello World";
    let mut s = StreamBuffer::new();
    assert_eq!(s.read_buffered(5), None);
    s.record_read(&data[..5]);
    assert_eq!(s.pos, 5);
    assert_eq!(&s.buffer[..], b"Hello");

    // Seek back to start
    assert_eq!(s.seek(StreamSeek::Start(0)), Ok(0));

    // Read again
    let again = s.read_buffered(5).unwrap();
    assert_eq!(again.len(), 5);
    assert_eq!(&again[..], b"Hello");
}
