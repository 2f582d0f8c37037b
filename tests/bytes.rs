use test_dir::{content, random_bytes, zero_bytes, FileType};

#[test]
fn zero_bytes_are_ascii_zeros() {
    assert_eq!(zero_bytes(0), Vec::<u8>::new());
    assert_eq!(zero_bytes(4), b"0000".to_vec());
}

#[test]
fn random_bytes_have_the_length() {
    assert_eq!(random_bytes(0).len(), 0);
    assert_eq!(random_bytes(37).len(), 37);
}

#[test]
fn content_by_file_type() {
    assert!(content(FileType::EmptyFile).is_empty());
    assert!(content(FileType::Dir).is_empty());
    assert_eq!(content(FileType::ZeroFile(5)), b"00000".to_vec());
    assert_eq!(content(FileType::RandomFile(1024)).len(), 1024);
}
