use mapped_fileio::{ErrorKind, MapError, MappedFile, OpenOptions, SeekFrom};

#[test]
fn new_starts_at_zero_with_the_length_of_the_region() {
    let mut region = b"Hello, World!".to_vec();
    let file = MappedFile::new(3, &mut region, OpenOptions::ReadOnly).unwrap();
    assert_eq!(file.size(), 13);
    assert_eq!(file.position(), 0);
    assert_eq!(file.mode(), OpenOptions::ReadOnly);
    assert_eq!(file.fd(), 3);
}

#[test]
fn new_refuses_an_empty_region() {
    let mut region: Vec<u8> = Vec::new();
    let err = MappedFile::new(3, &mut region, OpenOptions::ReadOnly).err().unwrap();
    assert_eq!(err, MapError::EmptyFile);
    assert_eq!(err.kind(), ErrorKind::Unsupported);
    assert_eq!(err.message(), "cannot map an empty file");
}

#[test]
fn mapping_length_is_the_file_length_unless_zero() {
    assert_eq!(MappedFile::mapping_length(13), Ok(13));
    assert_eq!(MappedFile::mapping_length(1), Ok(1));
    assert_eq!(MappedFile::mapping_length(0), Err(MapError::EmptyFile));
}

#[test]
fn read_copies_the_smaller_of_buffer_and_rest() {
    let mut region = b"Hello, World!".to_vec();
    let mut file = MappedFile::new(3, &mut region, OpenOptions::ReadOnly).unwrap();
    let mut buf = [0u8; 5];
    assert_eq!(file.read(&mut buf), Ok(5));
    assert_eq!(&buf, b"Hello");
    assert_eq!(file.position(), 5);
    let mut rest = [b'#'; 20];
    assert_eq!(file.read(&mut rest), Ok(8));
    assert_eq!(&rest[..8], b", World!");
    assert_eq!(&rest[8..], &[b'#'; 12]);
    assert_eq!(file.position(), 13);
}

#[test]
fn read_at_the_end_returns_zero_and_is_no_error() {
    let mut region = b"abc".to_vec();
    let mut file = MappedFile::new(3, &mut region, OpenOptions::ReadOnly).unwrap();
    let mut buf = [0u8; 3];
    assert_eq!(file.read(&mut buf), Ok(3));
    let mut again = [7u8; 4];
    assert_eq!(file.read(&mut again), Ok(0));
    assert_eq!(again, [7u8; 4]);
    assert_eq!(file.position(), 3);
}

#[test]
fn read_into_an_empty_buffer_changes_nothing() {
    let mut region = b"abc".to_vec();
    let mut file = MappedFile::new(3, &mut region, OpenOptions::ReadOnly).unwrap();
    let mut buf: [u8; 0] = [];
    assert_eq!(file.read(&mut buf), Ok(0));
    assert_eq!(file.position(), 0);
}

#[test]
fn write_in_read_only_mode_is_unsupported_and_changes_nothing() {
    let mut region = b"Hello".to_vec();
    {
        let mut file = MappedFile::new(3, &mut region, OpenOptions::ReadOnly).unwrap();
        assert_eq!(file.seek(SeekFrom::Start(2)), Ok(2));
        let err = file.write(b"xy").err().unwrap();
        assert_eq!(err, MapError::WriteNotEnabled);
        assert_eq!(err.kind(), ErrorKind::Unsupported);
        assert_eq!(err.message(), "write not enabled");
        assert_eq!(file.position(), 2);
        assert_eq!(file.size(), 5);
        assert_eq!(file.write(b""), Err(MapError::WriteNotEnabled));
    }
    assert_eq!(region, b"Hello");
}

#[test]
fn write_copies_the_whole_buffer_and_advances() {
    let mut region = b"Hello, World!".to_vec();
    {
        let mut file = MappedFile::new(3, &mut region, OpenOptions::ReadWrite).unwrap();
        assert_eq!(file.seek(SeekFrom::Start(7)), Ok(7));
        assert_eq!(file.write(b"There"), Ok(5));
        assert_eq!(file.position(), 12);
        assert_eq!(file.size(), 13);
    }
    assert_eq!(region, b"Hello, There!");
}

#[test]
fn write_that_does_not_fit_is_refused_whole() {
    let mut region = b"Hello".to_vec();
    {
        let mut file = MappedFile::new(3, &mut region, OpenOptions::ReadWrite).unwrap();
        assert_eq!(file.seek(SeekFrom::Start(3)), Ok(3));
        let err = file.write(b"abc").err().unwrap();
        assert_eq!(err, MapError::NoSpaceLeft);
        assert_eq!(err.kind(), ErrorKind::OutOfSpace);
        assert_eq!(err.message(), "no space left");
        assert_eq!(file.position(), 3);
        assert_eq!(file.write(b"ab"), Ok(2));
        assert_eq!(file.position(), 5);
        assert_eq!(file.write(b"c"), Err(MapError::NoSpaceLeft));
        assert_eq!(file.write(b""), Ok(0));
    }
    assert_eq!(region, b"Helab");
}

#[test]
fn seek_from_start_current_and_end() {
    let mut region = b"0123456789".to_vec();
    let mut file = MappedFile::new(3, &mut region, OpenOptions::ReadOnly).unwrap();
    assert_eq!(file.seek(SeekFrom::Start(4)), Ok(4));
    assert_eq!(file.seek(SeekFrom::Current(3)), Ok(7));
    assert_eq!(file.seek(SeekFrom::Current(-7)), Ok(0));
    assert_eq!(file.seek(SeekFrom::End(-1)), Ok(9));
    assert_eq!(file.seek(SeekFrom::End(-10)), Ok(0));
    assert_eq!(file.next(), Some(b'0'));
}

#[test]
fn seek_outside_the_region_fails_and_keeps_the_cursor() {
    let mut region = b"0123456789".to_vec();
    let mut file = MappedFile::new(3, &mut region, OpenOptions::ReadOnly).unwrap();
    assert_eq!(file.seek(SeekFrom::Start(6)), Ok(6));
    assert_eq!(file.seek(SeekFrom::Start(10)), Err(MapError::SeekBeyondLimits));
    assert_eq!(file.seek(SeekFrom::Start(u64::MAX)), Err(MapError::SeekBeyondLimits));
    assert_eq!(file.seek(SeekFrom::Current(4)), Err(MapError::SeekBeyondLimits));
    assert_eq!(file.seek(SeekFrom::Current(-7)), Err(MapError::SeekBeyondLimits));
    assert_eq!(file.seek(SeekFrom::Current(i64::MIN)), Err(MapError::SeekBeyondLimits));
    assert_eq!(file.seek(SeekFrom::Current(i64::MAX)), Err(MapError::SeekBeyondLimits));
    assert_eq!(file.seek(SeekFrom::End(0)), Err(MapError::SeekBeyondLimits));
    assert_eq!(file.seek(SeekFrom::End(-11)), Err(MapError::SeekBeyondLimits));
    assert_eq!(file.seek(SeekFrom::End(i64::MIN)), Err(MapError::SeekBeyondLimits));
    assert_eq!(file.position(), 6);
}

#[test]
fn seek_to_the_end_of_a_five_byte_file_is_beyond_limits() {
    let mut region = b"12345".to_vec();
    let mut file = MappedFile::new(3, &mut region, OpenOptions::ReadOnly).unwrap();
    let err = file.seek(SeekFrom::Start(5)).err().unwrap();
    assert_eq!(err, MapError::SeekBeyondLimits);
    assert_eq!(err.message(), "seek beyond limits");
    assert_eq!(err.kind(), ErrorKind::Unsupported);
    assert_eq!(file.position(), 0);
}

#[test]
fn seek_then_read_matches_a_region_that_starts_there() {
    let content = b"The quick brown fox".to_vec();
    for p in 0..content.len() {
        let mut whole = content.clone();
        let mut file = MappedFile::new(3, &mut whole, OpenOptions::ReadOnly).unwrap();
        assert_eq!(file.seek(SeekFrom::Start(p as u64)), Ok(p as u64));
        let mut got = [0u8; 6];
        let n = file.read(&mut got).unwrap();

        let mut tail = content[p..].to_vec();
        let mut other = MappedFile::new(4, &mut tail, OpenOptions::ReadOnly).unwrap();
        let mut expected = [0u8; 6];
        let m = other.read(&mut expected).unwrap();

        assert_eq!(n, m);
        assert_eq!(got[..n], expected[..m]);
    }
}

#[test]
fn overwrite_then_read_to_end_gives_the_new_content() {
    let mut region = b"Hello, World!".to_vec();
    {
        let mut file = MappedFile::new(3, &mut region, OpenOptions::ReadWrite).unwrap();
        assert_eq!(file.write(b"More stuff :D"), Ok(13));
    }
    let mut file = MappedFile::new(3, &mut region, OpenOptions::ReadOnly).unwrap();
    let mut buf = Vec::new();
    assert_eq!(file.read_to_end(&mut buf), Ok(13));
    assert_eq!(buf, b"More stuff :D");
    assert_eq!(String::from_utf8(buf).unwrap(), "More stuff :D");
}

#[test]
fn read_to_end_appends_the_rest_and_stops_at_the_end() {
    let mut region = b"Hello, World!".to_vec();
    let mut file = MappedFile::new(3, &mut region, OpenOptions::ReadOnly).unwrap();
    assert_eq!(file.seek(SeekFrom::Start(7)), Ok(7));
    let mut buf = b">> ".to_vec();
    assert_eq!(file.read_to_end(&mut buf), Ok(6));
    assert_eq!(buf, b">> World!");
    assert_eq!(file.position(), 13);
    assert_eq!(file.read_to_end(&mut buf), Ok(0));
    assert_eq!(buf, b">> World!");
}

#[test]
fn iteration_yields_every_byte_in_order_then_stops() {
    let mut region = b"Hello, World!".to_vec();
    let mut file = MappedFile::new(3, &mut region, OpenOptions::ReadOnly).unwrap();
    let mut seen = Vec::new();
    let mut next = file.next();
    while let Some(byte) = next {
        seen.push(byte);
        next = file.next();
    }
    assert_eq!(seen.len(), 13);
    assert_eq!(seen, b"Hello, World!");
    assert_eq!(file.next(), None);
    assert_eq!(file.next(), None);
    assert_eq!(file.position(), 13);
}

#[test]
fn iteration_shares_the_cursor_with_read_and_seek() {
    let mut region = b"abcdef".to_vec();
    let mut file = MappedFile::new(3, &mut region, OpenOptions::ReadOnly).unwrap();
    assert_eq!(file.next(), Some(b'a'));
    let mut buf = [0u8; 2];
    assert_eq!(file.read(&mut buf), Ok(2));
    assert_eq!(&buf, b"bc");
    assert_eq!(file.next(), Some(b'd'));
    assert_eq!(file.seek(SeekFrom::Current(-3)), Ok(1));
    assert_eq!(file.next(), Some(b'b'));
}

#[test]
fn error_kinds_and_messages() {
    assert_eq!(MapError::EmptyFile.kind(), ErrorKind::Unsupported);
    assert_eq!(MapError::WriteNotEnabled.kind(), ErrorKind::Unsupported);
    assert_eq!(MapError::SeekBeyondLimits.kind(), ErrorKind::Unsupported);
    assert_eq!(MapError::NoSpaceLeft.kind(), ErrorKind::OutOfSpace);
    assert_eq!(MapError::Os(2).kind(), ErrorKind::Os);
    assert_eq!(MapError::Os(2).raw_os_error(), Some(2));
    assert_eq!(MapError::NoSpaceLeft.raw_os_error(), None);
}

#[test]
fn os_errors_carry_the_description_of_their_errno() {
    let missing = nix::errno::Errno::ENOENT as i32;
    let denied = nix::errno::Errno::EACCES as i32;
    assert_eq!(MapError::Os(missing).message(), "No such file or directory");
    assert_eq!(MapError::Os(denied).message(), "Permission denied");
    assert_eq!(MapError::Os(missing).message(), nix::errno::Errno::ENOENT.desc());
    assert_ne!(MapError::Os(missing).message(), MapError::Os(denied).message());
}
