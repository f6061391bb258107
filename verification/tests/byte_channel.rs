use shmtest::reader::ShmReader;
use shmtest::shm::HEADER_BYTES;
use shmtest::writer::ShmWriter;
use shmtest::ShmDefinition;

#[test]
fn two_writes_then_one_read_round_trip() {
    // writing "test1" + "test2" (10 bytes total), then reading into a
    // 1024-byte buffer, returns exactly 10 bytes equal to "test1test2";
    // a subsequent read returns 0 bytes
    let def = ShmDefinition::new("test_writer".to_string(), 1024);
    let (mut writer, mut region) = ShmWriter::open(def);
    assert_eq!(writer.available, 1016);
    assert_eq!(writer.write(&mut region, "test1".as_bytes()), 5);
    assert_eq!(writer.write(&mut region, "test2".as_bytes()), 5);
    assert!(writer.flush().is_ok());

    let mut reader = ShmReader::open(ShmDefinition::new("test_writer".to_string(), 1024));
    let mut buffer = vec![0u8; 1024];
    let n = reader.read(&region, &mut buffer);
    assert_eq!(n, 10);
    assert_eq!(&buffer[..10], "test1test2".as_bytes());
    assert!(buffer[10..].iter().all(|b| *b == 0));

    let n2 = reader.read(&region, &mut buffer);
    assert_eq!(n2, 0);
}

#[test]
fn write_truncates_at_capacity() {
    // capacity is fixed at open time: size minus the header
    let def = ShmDefinition::new("test_writer".to_string(), HEADER_BYTES + 6);
    let (mut writer, mut region) = ShmWriter::open(def);
    assert_eq!(writer.available, 6);
    assert_eq!(writer.write(&mut region, "test1".as_bytes()), 5);
    // only one byte left: the write is partial
    assert_eq!(writer.write(&mut region, "test2".as_bytes()), 1);
    assert_eq!(writer.available, 0);
    // the channel is full: nothing more is ever written
    assert_eq!(writer.write(&mut region, "x".as_bytes()), 0);

    let mut reader = ShmReader::open(ShmDefinition::new(
        "test_writer".to_string(),
        HEADER_BYTES + 6,
    ));
    let mut buffer = vec![0u8; 16];
    assert_eq!(reader.read(&region, &mut buffer), 6);
    assert_eq!(&buffer[..6], "test1t".as_bytes());
}

#[test]
fn read_is_bounded_by_buffer_and_resumes_at_cursor() {
    let def = ShmDefinition::new("test_writer".to_string(), 64);
    let (mut writer, mut region) = ShmWriter::open(def);
    assert_eq!(writer.write(&mut region, "abcdef".as_bytes()), 6);

    let mut reader = ShmReader::open(ShmDefinition::new("test_writer".to_string(), 64));
    let mut small = vec![0u8; 4];
    assert_eq!(reader.read(&region, &mut small), 4);
    assert_eq!(&small[..], "abcd".as_bytes());
    // the private cursor advanced: the rest comes next
    assert_eq!(reader.read(&region, &mut small), 2);
    assert_eq!(&small[..2], "ef".as_bytes());
    // bytes past the copied prefix are untouched
    assert_eq!(&small[2..], "cd".as_bytes());
}

#[test]
fn reader_sees_bytes_written_after_it_opened() {
    let def = ShmDefinition::new("test_writer".to_string(), 64);
    let (mut writer, mut region) = ShmWriter::open(def);
    let mut reader = ShmReader::open(ShmDefinition::new("test_writer".to_string(), 64));
    let mut buffer = vec![0u8; 8];
    assert_eq!(reader.read(&region, &mut buffer), 0);
    assert_eq!(writer.write(&mut region, "hi".as_bytes()), 2);
    assert_eq!(reader.read(&region, &mut buffer), 2);
    assert_eq!(&buffer[..2], "hi".as_bytes());
}
