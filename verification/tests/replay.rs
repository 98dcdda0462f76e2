use sat_session::replay::SeekError;
use sat_session::replay::SeekFrom;
use sat_session::replay::StdinReader;

/// Plays the console: serves `console` from `*taken` on, as the driver does
/// when the buffer has nothing ahead of the cursor.
fn read_through(
    reader: &mut StdinReader,
    console: &[u8],
    taken: &mut usize,
    buf: &mut [u8],
) -> usize {
    match reader.read(buf) {
        Some(served) => served,
        None => {
            let left = &console[*taken..];
            let count = left.len().min(buf.len());
            buf[..count].copy_from_slice(&left[..count]);
            *taken += count;
            reader.extend(&buf[..count]);
            count
        }
    }
}

#[test]
fn new_reader_is_empty() {
    let mut reader = StdinReader::new();
    assert_eq!(reader.position(), 0);
    assert_eq!(reader.buffered_len(), 0);
    let mut buf = [0u8; 4];
    assert_eq!(reader.read(&mut buf), None);
    assert_eq!(buf, [0u8; 4]);
}

#[test]
fn replay_after_seek_back_is_exact() {
    let console = [0xb1u8, 0xb2, 0xb3];
    let mut taken = 0usize;
    let mut reader = StdinReader::new();

    let mut first = [0u8; 2];
    assert_eq!(read_through(&mut reader, &console, &mut taken, &mut first), 2);
    assert_eq!(first, [0xb1, 0xb2]);
    assert_eq!(reader.position(), 2);

    assert_eq!(reader.seek(SeekFrom::Start(0)), Ok(0));

    let mut again = Vec::new();
    let mut buf = [0u8; 3];
    loop {
        let count = read_through(&mut reader, &console, &mut taken, &mut buf);
        if count == 0 {
            break;
        }
        again.extend_from_slice(&buf[..count]);
    }
    assert_eq!(again, vec![0xb1, 0xb2, 0xb3]);
    assert_eq!(reader.position(), 3);
    assert_eq!(reader.buffered_len(), 3);
}

#[test]
fn read_serves_buffered_bytes_and_keeps_the_rest_of_buf() {
    let mut reader = StdinReader::new();
    reader.extend(&[1, 2, 3, 4, 5]);
    assert_eq!(reader.position(), 5);
    assert_eq!(reader.seek(SeekFrom::Start(1)), Ok(1));

    let mut small = [0u8; 2];
    assert_eq!(reader.read(&mut small), Some(2));
    assert_eq!(small, [2, 3]);
    assert_eq!(reader.position(), 3);

    let mut large = [9u8; 6];
    assert_eq!(reader.read(&mut large), Some(2));
    assert_eq!(large, [4, 5, 9, 9, 9, 9]);
    assert_eq!(reader.position(), 5);

    assert_eq!(reader.read(&mut large), None);
    assert_eq!(large, [4, 5, 9, 9, 9, 9]);
    assert_eq!(reader.position(), 5);
}

#[test]
fn read_into_an_empty_buf_serves_nothing() {
    let mut reader = StdinReader::new();
    reader.extend(&[1, 2]);
    assert_eq!(reader.seek(SeekFrom::Start(0)), Ok(0));
    let mut none: [u8; 0] = [];
    assert_eq!(reader.read(&mut none), Some(0));
    assert_eq!(reader.position(), 0);
}

#[test]
fn extend_appends_and_moves_the_cursor_to_the_end() {
    let mut reader = StdinReader::new();
    reader.extend(&[1, 2, 3]);
    assert_eq!(reader.seek(SeekFrom::Start(1)), Ok(1));
    reader.extend(&[4]);
    assert_eq!(reader.buffered_len(), 4);
    assert_eq!(reader.position(), 4);
    assert_eq!(reader.seek(SeekFrom::Start(0)), Ok(0));
    let mut buf = [0u8; 8];
    assert_eq!(reader.read(&mut buf), Some(4));
    assert_eq!(&buf[..4], &[1, 2, 3, 4]);
}

#[test]
fn seek_within_the_buffer_never_fails() {
    let mut reader = StdinReader::new();
    reader.extend(&[10, 20, 30]);
    for target in 0..=3u64 {
        assert_eq!(reader.seek(SeekFrom::Start(target)), Ok(target));
        assert_eq!(reader.position(), target);
    }
    assert_eq!(reader.seek(SeekFrom::Current(-3)), Ok(0));
    assert_eq!(reader.seek(SeekFrom::Current(2)), Ok(2));
    assert_eq!(reader.seek(SeekFrom::Current(0)), Ok(2));
    assert_eq!(reader.seek(SeekFrom::Current(1)), Ok(3));
}

#[test]
fn seek_beyond_the_buffer_is_refused() {
    let mut reader = StdinReader::new();
    assert_eq!(reader.seek(SeekFrom::Start(1)), Err(SeekError::BeyondBuffered));
    reader.extend(&[10, 20, 30]);
    assert_eq!(reader.seek(SeekFrom::Start(4)), Err(SeekError::BeyondBuffered));
    assert_eq!(reader.seek(SeekFrom::Start(u64::MAX)), Err(SeekError::BeyondBuffered));
    assert_eq!(reader.position(), 3);
    assert_eq!(reader.seek(SeekFrom::Current(1)), Err(SeekError::BeyondBuffered));
    assert_eq!(reader.seek(SeekFrom::Current(i64::MAX)), Err(SeekError::BeyondBuffered));
    assert_eq!(reader.position(), 3);
    assert_eq!(reader.buffered_len(), 3);
}

#[test]
fn seek_before_the_start_is_refused() {
    let mut reader = StdinReader::new();
    reader.extend(&[10, 20, 30]);
    assert_eq!(reader.seek(SeekFrom::Current(-4)), Err(SeekError::BeforeStart));
    assert_eq!(reader.seek(SeekFrom::Current(i64::MIN)), Err(SeekError::BeforeStart));
    assert_eq!(reader.position(), 3);
}

#[test]
fn seek_from_the_end_is_refused() {
    let mut reader = StdinReader::new();
    reader.extend(&[10, 20, 30]);
    assert_eq!(reader.seek(SeekFrom::End(0)), Err(SeekError::EndUnsupported));
    assert_eq!(reader.seek(SeekFrom::End(-1)), Err(SeekError::EndUnsupported));
    assert_eq!(reader.position(), 3);
}

#[test]
fn refusals_have_their_messages() {
    assert_eq!(SeekError::EndUnsupported.message(), "SeekFrom::End not supported");
    assert_eq!(SeekError::BeforeStart.message(), "Seek before start of stream");
    assert_eq!(SeekError::BeyondBuffered.message(), "Cannot seek beyond buffered data");
}
