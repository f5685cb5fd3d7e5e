use satsim::file::{close, open, File, FileError, FileState};

#[test]
fn open_then_read_returns_all_data() {
    let data: Vec<u8> = vec![114, 117, 115, 116, 33];
    let f = File::new_with_data("4.txt", &data);
    let f = open(f).expect("open always succeeds");
    let mut buffer: Vec<u8> = vec![9, 9];
    let n = f.read(&mut buffer).expect("file is open");
    assert_eq!(n, 5);
    assert_eq!(buffer, vec![9, 9, 114, 117, 115, 116, 33]);
}

#[test]
fn read_while_closed_fails_and_keeps_buffer() {
    let f = File::new_with_data("c.txt", &[1, 2, 3]);
    let mut buffer: Vec<u8> = vec![42];
    let r = f.read(&mut buffer);
    assert_eq!(r, Err(FileError::NotOpenForReading));
    assert_eq!(buffer, vec![42]);
    assert_eq!(buffer.len(), 1);
}

#[test]
fn close_is_idempotent() {
    let f = File::new_with_data("i.txt", &[5, 6]);
    let f = open(f).expect("open always succeeds");
    let once = close(f).expect("close always succeeds");
    let name_once = once.name();
    let len_once = once.len();
    assert!(matches!(once.state, FileState::Closed));
    let twice = close(once).expect("close always succeeds");
    assert_eq!(twice.name(), name_once);
    assert_eq!(twice.len(), len_once);
    assert!(matches!(twice.state, FileState::Closed));
    let reopened = open(twice).expect("open always succeeds");
    let mut buf: Vec<u8> = vec![];
    assert_eq!(reopened.read(&mut buf), Ok(2));
    assert_eq!(buf, vec![5, 6]);
}

#[test]
fn scenario_empty_file_lifecycle() {
    let mut f5 = File::new("5.txt");
    let mut buffer: Vec<u8> = vec![];
    assert!(f5.read(&mut buffer).is_err());
    f5 = open(f5).expect("open always succeeds");
    let f5_length = f5.read(&mut buffer).expect("file is open");
    assert_eq!(f5_length, 0);
    assert_eq!(String::from_utf8_lossy(&buffer), "");
    let f5 = close(f5).expect("close always succeeds");
    assert_eq!(f5.name(), "5.txt");
    assert!(matches!(f5.state, FileState::Closed));
}

#[test]
fn new_file_is_empty_and_closed() {
    let f = File::new("a.txt");
    assert_eq!(f.len(), 0);
    assert!(f.is_empty());
    assert_eq!(f.name(), "a.txt");
    assert!(matches!(f.state, FileState::Closed));
}

#[test]
fn new_with_data_keeps_bytes() {
    let f = File::new_with_data("b.txt", &[10, 20, 30]);
    assert_eq!(f.len(), 3);
    assert!(!f.is_empty());
    assert_eq!(f.name, "b.txt");
}

#[test]
fn reads_accumulate_in_the_buffer() {
    let f = File::new_with_data("twice.txt", &[1, 2]);
    let f = open(f).expect("open always succeeds");
    let mut buffer: Vec<u8> = vec![];
    assert_eq!(f.read(&mut buffer), Ok(2));
    assert_eq!(f.read(&mut buffer), Ok(2));
    assert_eq!(buffer, vec![1, 2, 1, 2]);
}
