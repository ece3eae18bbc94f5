use sfml::inputstream::{get_size, read, seek, tell};
use sfml::source::{Failure, SeekFrom, Source};
use std::io::{Cursor, Read, Seek};

/// Any reader of the standard library as a source.
struct Reader<T: Read + Seek>(T);

impl<T: Read + Seek> Source for Reader<T> {
    fn read_up_to(&mut self, limit: u64) -> Result<Vec<u8>, Failure> {
        let mut chunk = Vec::new();
        match (&mut self.0).take(limit).read_to_end(&mut chunk) {
            Ok(_) => Ok(chunk),
            Err(_) => Err(Failure),
        }
    }

    fn seek(&mut self, from: SeekFrom) -> Result<u64, Failure> {
        let from = match from {
            SeekFrom::Start(offset) => std::io::SeekFrom::Start(offset),
            SeekFrom::End(distance) => std::io::SeekFrom::End(distance),
            SeekFrom::Current(distance) => std::io::SeekFrom::Current(distance),
        };
        self.0.seek(from).map_err(|_| Failure)
    }
}

#[test]
fn ten_bytes_behind_a_cursor() {
    let mut source = Reader(Cursor::new((0u8..10).collect::<Vec<u8>>()));
    assert_eq!(get_size(&mut source), 10);

    let mut data = [0xffu8; 4];
    assert_eq!(read(&mut data, 4, &mut source), 4);
    assert_eq!(data, [0, 1, 2, 3]);
    assert_eq!(tell(&mut source), 4);

    assert_eq!(seek(8, &mut source), 8);
    let mut data = [0xffu8; 4];
    assert_eq!(read(&mut data, 4, &mut source), 2);
    assert_eq!(data, [8, 9, 0xff, 0xff]);
    assert_eq!(tell(&mut source), 10);
}

#[test]
fn cursor_lets_the_position_pass_the_end() {
    let mut source = Reader(Cursor::new(vec![1u8, 2, 3]));
    assert_eq!(seek(4, &mut source), 4);
    assert_eq!(tell(&mut source), 4);
    assert_eq!(get_size(&mut source), 3);
    assert_eq!(tell(&mut source), 4);
    let mut data = [0u8; 2];
    assert_eq!(read(&mut data, 2, &mut source), 0);
}

#[test]
fn cursor_keeps_its_position_over_get_size() {
    let mut source = Reader(Cursor::new(vec![1u8, 2, 3, 4, 5]));
    assert_eq!(seek(2, &mut source), 2);
    assert_eq!(get_size(&mut source), 5);
    let mut data = [0u8; 3];
    assert_eq!(read(&mut data, 3, &mut source), 3);
    assert_eq!(data, [3, 4, 5]);
}
