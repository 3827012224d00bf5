use fileshare::api::v1::upload::chunk_message;
use fileshare::api::v1::upload::decode_chunk;
use fileshare::api::v1::upload::decode_error_message;
use fileshare::api::v1::upload::decoded_or_error;
use fileshare::api::v1::upload::upload_file;
use fileshare::api::v1::upload::ChunkReceipt;
use fileshare::api::v1::upload::DecodedChunk;
use fileshare::api::v1::upload::FileParts;
use fileshare::api::v1::upload::UploadError;
use fileshare::api::v1::upload::UploadRequest;

fn request(filename: &str, chunk_id: usize, total_chunks: usize, data: &str) -> UploadRequest {
    UploadRequest {
        filename: filename.to_string(),
        chunk_id,
        total_chunks,
        data: data.to_string(),
    }
}

fn decoded(filename: &str, chunk_id: usize, total_chunks: usize, data: &str) -> DecodedChunk {
    match decode_chunk(request(filename, chunk_id, total_chunks, data)) {
        Ok(chunk) => chunk,
        Err(error) => panic!("{:?} was refused: {:?}", data, error),
    }
}

fn bytes_of(data: &str) -> Result<Vec<u8>, UploadError> {
    decode_chunk(request("f", 0, 1, data)).map(|chunk| chunk.bytes().clone())
}

#[test]
fn default_request_is_empty() {
    let request = UploadRequest::default();
    assert_eq!(request.filename, "");
    assert_eq!(request.chunk_id, 0);
    assert_eq!(request.total_chunks, 0);
    assert_eq!(request.data, "");
}

#[test]
fn chunk_data_is_decoded_from_base64() {
    assert_eq!(bytes_of("aGVsbG8="), Ok(b"hello".to_vec()));
    assert_eq!(bytes_of(""), Ok(Vec::new()));
    assert_eq!(bytes_of("AP8Q"), Ok(vec![0x00, 0xff, 0x10]));
    assert_eq!(bytes_of("+/8="), Ok(vec![0xfb, 0xff]));
}

#[test]
fn decoded_chunk_keeps_its_request() {
    let chunk = decoded("a.bin", 3, 5, "aGVsbG8=");
    assert_eq!(*chunk.request(), request("a.bin", 3, 5, "aGVsbG8="));
    assert_eq!(*chunk.bytes(), b"hello".to_vec());
}

#[test]
fn malformed_base64_is_a_decode_error() {
    assert_eq!(bytes_of("not base64!"), Err(UploadError::Decode));
    assert_eq!(bytes_of("aGVsbG8"), Err(UploadError::Decode));
    assert_eq!(bytes_of("-_8="), Err(UploadError::Decode));
    assert_eq!(bytes_of("aGVsbG8=\n"), Err(UploadError::Decode));
}

#[test]
fn chunk_that_is_not_base64_is_refused_and_enters_no_file() {
    let table = FileParts::new();
    assert_eq!(decode_chunk(request("a.bin", 0, 1, "!!!")), Err(UploadError::Decode));
    assert_eq!(decode_error_message(), "Error decoding base64 data");
    assert!(!table.knows("a.bin"));
    assert_eq!(table.flags("a.bin"), None);
}

#[test]
fn decoding_outcome_is_the_bytes_or_the_error() {
    assert_eq!(decoded_or_error(Some(vec![1, 2])), Ok(vec![1, 2]));
    assert_eq!(decoded_or_error(Some(Vec::new())), Ok(Vec::new()));
    assert_eq!(decoded_or_error(None), Err(UploadError::Decode));
}

#[test]
fn decode_error_has_its_message() {
    assert_eq!(decode_error_message(), "Error decoding base64 data");
}

#[test]
fn chunk_message_names_chunk_total_and_file() {
    assert_eq!(chunk_message(3, 5, "a.bin"), "Chunk 3/5 received for a.bin");
    assert_eq!(chunk_message(0, 1, ""), "Chunk 0/1 received for ");
    assert_eq!(chunk_message(12, 100, "big file.iso"), "Chunk 12/100 received for big file.iso");
}

#[test]
fn new_table_knows_no_file() {
    let table = FileParts::new();
    assert!(!table.knows("a"));
    assert_eq!(table.flags("a"), None);
}

#[test]
fn first_chunk_enters_the_file() {
    let mut table = FileParts::new();
    assert_eq!(table.record("a.bin", 1, 3), Ok(false));
    assert!(table.knows("a.bin"));
    assert_eq!(table.flags("a.bin"), Some(vec![false, true, false]));
    assert!(!table.knows("b.bin"));
}

#[test]
fn file_is_complete_when_every_chunk_has_come() {
    let mut table = FileParts::new();
    assert_eq!(table.record("a", 2, 3), Ok(false));
    assert_eq!(table.record("a", 0, 3), Ok(false));
    assert_eq!(table.record("a", 0, 3), Ok(false));
    assert_eq!(table.record("a", 1, 3), Ok(true));
    assert_eq!(table.flags("a"), Some(vec![true, true, true]));
    assert_eq!(table.record("a", 1, 3), Ok(true));
}

#[test]
fn single_chunk_file_is_complete_at_once() {
    let mut table = FileParts::new();
    assert_eq!(table.record("one", 0, 1), Ok(true));
}

#[test]
fn files_are_tracked_apart() {
    let mut table = FileParts::new();
    assert_eq!(table.record("a", 0, 2), Ok(false));
    assert_eq!(table.record("b", 0, 1), Ok(true));
    assert_eq!(table.record("a", 1, 2), Ok(true));
    assert_eq!(table.flags("a"), Some(vec![true, true]));
    assert_eq!(table.flags("b"), Some(vec![true]));
}

#[test]
fn total_of_a_known_file_is_not_looked_at() {
    let mut table = FileParts::new();
    assert_eq!(table.record("a", 0, 2), Ok(false));
    assert_eq!(table.record("a", 1, 9), Ok(true));
    assert_eq!(table.flags("a"), Some(vec![true, true]));
}

#[test]
fn chunk_beyond_the_total_is_refused() {
    let mut table = FileParts::new();
    assert_eq!(table.record("a", 3, 3), Err(UploadError::ChunkOutOfRange));
    assert_eq!(table.flags("a"), Some(vec![false, false, false]));
    assert_eq!(table.record("a", 7, 100), Err(UploadError::ChunkOutOfRange));
    assert_eq!(table.flags("a"), Some(vec![false, false, false]));
    assert_eq!(table.record("a", 2, 3), Ok(false));
}

#[test]
fn file_of_no_chunks_takes_none() {
    let mut table = FileParts::new();
    assert_eq!(table.record("empty", 0, 0), Err(UploadError::ChunkOutOfRange));
    assert_eq!(table.flags("empty"), Some(Vec::new()));
}

#[test]
fn upload_records_the_chunk_and_writes_the_reply() {
    let mut table = FileParts::new();
    assert_eq!(
        upload_file(&mut table, &decoded("a.bin", 0, 2, "aGk=")),
        Ok(ChunkReceipt { complete: false, message: "Chunk 0/2 received for a.bin".to_string() })
    );
    assert_eq!(
        upload_file(&mut table, &decoded("a.bin", 1, 2, "aGk=")),
        Ok(ChunkReceipt { complete: true, message: "Chunk 1/2 received for a.bin".to_string() })
    );
    assert_eq!(table.flags("a.bin"), Some(vec![true, true]));
}

#[test]
fn upload_refuses_a_chunk_out_of_range() {
    let mut table = FileParts::new();
    assert_eq!(
        upload_file(&mut table, &decoded("a.bin", 2, 2, "aGk=")),
        Err(UploadError::ChunkOutOfRange)
    );
    assert_eq!(table.flags("a.bin"), Some(vec![false, false]));
}

#[test]
fn upload_of_a_single_chunk_completes_the_file() {
    let mut table = FileParts::new();
    let chunk = decoded("one.bin", 0, 1, "AAEC");
    assert_eq!(*chunk.bytes(), vec![0, 1, 2]);
    assert_eq!(
        upload_file(&mut table, &chunk),
        Ok(ChunkReceipt { complete: true, message: "Chunk 0/1 received for one.bin".to_string() })
    );
    assert_eq!(table.flags("one.bin"), Some(vec![true]));
}
