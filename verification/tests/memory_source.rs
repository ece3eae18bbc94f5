use sfml::memory::MemorySource;
use sfml::source::{Failure, SeekFrom, Source};

fn letters() -> MemorySource {
    MemorySource::new(b"abcdef".to_vec())
}

#[test]
fn starts_at_the_first_byte() {
    let mut source = letters();
    assert_eq!(source.seek(SeekFrom::Current(0)), Ok(0));
    assert_eq!(source.read_up_to(2), Ok(b"ab".to_vec()));
}

#[test]
fn read_moves_past_what_was_read() {
    let mut source = letters();
    assert_eq!(source.read_up_to(4), Ok(b"abcd".to_vec()));
    assert_eq!(source.seek(SeekFrom::Current(0)), Ok(4));
    assert_eq!(source.read_up_to(4), Ok(b"ef".to_vec()));
    assert_eq!(source.seek(SeekFrom::Current(0)), Ok(6));
    assert_eq!(source.read_up_to(4), Ok(Vec::new()));
    assert_eq!(source.seek(SeekFrom::Current(0)), Ok(6));
}

#[test]
fn read_of_nothing() {
    let mut source = letters();
    assert_eq!(source.read_up_to(0), Ok(Vec::new()));
    assert_eq!(source.seek(SeekFrom::Current(0)), Ok(0));
}

#[test]
fn read_with_the_largest_limit() {
    let mut source = letters();
    assert_eq!(source.seek(SeekFrom::Start(1)), Ok(1));
    assert_eq!(source.read_up_to(u64::MAX), Ok(b"bcdef".to_vec()));
}

#[test]
fn seek_from_start() {
    let mut source = letters();
    assert_eq!(source.seek(SeekFrom::Start(3)), Ok(3));
    assert_eq!(source.read_up_to(1), Ok(b"d".to_vec()));
    assert_eq!(source.seek(SeekFrom::Start(6)), Ok(6));
    assert_eq!(source.seek(SeekFrom::Start(7)), Err(Failure));
    assert_eq!(source.seek(SeekFrom::Start(u64::MAX)), Err(Failure));
    assert_eq!(source.seek(SeekFrom::Current(0)), Ok(6));
}

#[test]
fn seek_from_end() {
    let mut source = letters();
    assert_eq!(source.seek(SeekFrom::End(0)), Ok(6));
    assert_eq!(source.seek(SeekFrom::End(-2)), Ok(4));
    assert_eq!(source.read_up_to(9), Ok(b"ef".to_vec()));
    assert_eq!(source.seek(SeekFrom::End(-6)), Ok(0));
    assert_eq!(source.seek(SeekFrom::End(-7)), Err(Failure));
    assert_eq!(source.seek(SeekFrom::End(1)), Err(Failure));
    assert_eq!(source.seek(SeekFrom::End(i64::MIN)), Err(Failure));
    assert_eq!(source.seek(SeekFrom::End(i64::MAX)), Err(Failure));
    assert_eq!(source.seek(SeekFrom::Current(0)), Ok(0));
}

#[test]
fn seek_from_current() {
    let mut source = letters();
    assert_eq!(source.seek(SeekFrom::Current(2)), Ok(2));
    assert_eq!(source.seek(SeekFrom::Current(3)), Ok(5));
    assert_eq!(source.seek(SeekFrom::Current(-4)), Ok(1));
    assert_eq!(source.seek(SeekFrom::Current(-2)), Err(Failure));
    assert_eq!(source.seek(SeekFrom::Current(6)), Err(Failure));
    assert_eq!(source.seek(SeekFrom::Current(i64::MIN)), Err(Failure));
    assert_eq!(source.seek(SeekFrom::Current(i64::MAX)), Err(Failure));
    assert_eq!(source.seek(SeekFrom::Current(5)), Ok(6));
}

#[test]
fn refused_seek_leaves_the_position() {
    let mut source = letters();
    assert_eq!(source.seek(SeekFrom::Start(2)), Ok(2));
    assert_eq!(source.seek(SeekFrom::Start(100)), Err(Failure));
    assert_eq!(source.read_up_to(2), Ok(b"cd".to_vec()));
}
