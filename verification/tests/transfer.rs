use file_storage::error::StorageError;
use file_storage::transfer::BufferedUpload;
use file_storage::transfer::ObjectReader;
use file_storage::transfer::TransferProgress;
use file_storage::transfer::MAX_RECORDED_SIZE;

#[test]
fn progress_counts_chunks() {
    let mut progress = TransferProgress::new();
    assert_eq!(progress.total(), 0);
    assert_eq!(progress.record_chunk(10), Ok(()));
    assert_eq!(progress.record_chunk(0), Ok(()));
    assert_eq!(progress.record_chunk(4086), Ok(()));
    assert_eq!(progress.total(), 4096);
}

#[test]
fn progress_counts_ten_mebibytes() {
    let mut progress = TransferProgress::new();
    for _ in 0..160 {
        assert_eq!(progress.record_chunk(64 * 1024), Ok(()));
    }
    assert_eq!(progress.total(), 10 * 1024 * 1024);
}

#[test]
fn progress_refuses_what_a_record_cannot_hold() {
    assert_eq!(MAX_RECORDED_SIZE, i64::MAX as u64);
    let mut progress = TransferProgress::new();
    assert_eq!(progress.record_chunk(usize::MAX / 2), Ok(()));
    assert_eq!(progress.record_chunk(1), Err(StorageError::Transfer));
    assert_eq!(progress.total(), i64::MAX);
    let mut progress = TransferProgress::new();
    assert_eq!(progress.record_chunk(5), Ok(()));
    assert_eq!(progress.record_chunk(usize::MAX), Err(StorageError::Transfer));
    assert_eq!(progress.total(), 5);
}

#[test]
fn buffer_gathers_chunks_in_order() {
    let mut buffer = BufferedUpload::new(16);
    assert_eq!(buffer.push_chunk(b"hello"), Ok(()));
    assert_eq!(buffer.push_chunk(b""), Ok(()));
    assert_eq!(buffer.push_chunk(b", world"), Ok(()));
    assert_eq!(buffer.len(), 12);
    assert_eq!(buffer.size(), 12);
    assert_eq!(buffer.into_bytes(), b"hello, world".to_vec());
}

#[test]
fn buffer_accepts_up_to_its_limit() {
    let mut buffer = BufferedUpload::new(4);
    assert_eq!(buffer.push_chunk(b"ab"), Ok(()));
    assert_eq!(buffer.push_chunk(b"cd"), Ok(()));
    assert_eq!(buffer.len(), 4);
}

#[test]
fn buffer_refuses_a_chunk_over_its_limit_and_stays() {
    let mut buffer = BufferedUpload::new(4);
    assert_eq!(buffer.push_chunk(b"abc"), Ok(()));
    assert_eq!(buffer.push_chunk(b"de"), Err(StorageError::Transfer));
    assert_eq!(buffer.len(), 3);
    assert_eq!(buffer.push_chunk(b"d"), Ok(()));
    assert_eq!(buffer.into_bytes(), b"abcd".to_vec());
}

#[test]
fn buffer_with_zero_limit_takes_only_empty_chunks() {
    let mut buffer = BufferedUpload::new(0);
    assert_eq!(buffer.push_chunk(b""), Ok(()));
    assert_eq!(buffer.push_chunk(b"x"), Err(StorageError::Transfer));
    assert_eq!(buffer.into_bytes(), Vec::<u8>::new());
}

#[test]
fn reader_hands_out_chunks_in_order() {
    let mut reader = ObjectReader::new(b"abcdefgh".to_vec());
    assert_eq!(reader.next_chunk(3), Some(b"abc".to_vec()));
    assert_eq!(reader.next_chunk(3), Some(b"def".to_vec()));
    assert_eq!(reader.next_chunk(3), Some(b"gh".to_vec()));
    assert_eq!(reader.next_chunk(3), None);
    assert_eq!(reader.next_chunk(3), None);
}

#[test]
fn reader_starts_over_after_rewind() {
    let mut reader = ObjectReader::new(b"abcdefgh".to_vec());
    assert_eq!(reader.next_chunk(5), Some(b"abcde".to_vec()));
    reader.rewind();
    assert_eq!(reader.next_chunk(100), Some(b"abcdefgh".to_vec()));
    reader.rewind();
    assert_eq!(reader.read_to_end(), b"abcdefgh".to_vec());
    assert_eq!(reader.read_to_end(), Vec::<u8>::new());
}

#[test]
fn reader_reads_the_rest_to_the_end() {
    let mut reader = ObjectReader::new(b"abcdefgh".to_vec());
    assert_eq!(reader.next_chunk(2), Some(b"ab".to_vec()));
    assert_eq!(reader.read_to_end(), b"cdefgh".to_vec());
    assert_eq!(reader.next_chunk(2), None);
}

#[test]
fn reader_gives_nothing_for_a_chunk_length_of_zero() {
    let mut reader = ObjectReader::new(b"abc".to_vec());
    assert_eq!(reader.next_chunk(0), None);
    assert_eq!(reader.next_chunk(1), Some(b"a".to_vec()));
    let mut empty = ObjectReader::new(Vec::new());
    assert_eq!(empty.next_chunk(4), None);
}
