use rustyproxy::relay::relay_decision;
use rustyproxy::relay::relay_transcript;
use rustyproxy::relay::ChunkRead;
use rustyproxy::relay::RelayVerdict;
use rustyproxy::relay::CHUNK_SIZE;

#[test]
fn data_chunk_is_forwarded() {
    let c = ChunkRead::Data(b"abc".to_vec());
    assert_eq!(relay_decision(&c), RelayVerdict::Forward);
}

#[test]
fn end_of_stream_shuts_down() {
    let c = ChunkRead::Data(Vec::new());
    assert_eq!(relay_decision(&c), RelayVerdict::Shutdown);
}

#[test]
fn failed_read_shuts_down() {
    assert_eq!(relay_decision(&ChunkRead::Failed), RelayVerdict::Shutdown);
}

#[test]
fn transcript_concatenates_chunks_byte_for_byte() {
    let reads = vec![
        ChunkRead::Data(b"SSH-2.0".to_vec()),
        ChunkRead::Data(b"-OpenSSH".to_vec()),
        ChunkRead::Data(Vec::new()),
    ];
    assert_eq!(relay_transcript(&reads), b"SSH-2.0-OpenSSH".to_vec());
}

#[test]
fn transcript_stops_at_failure() {
    let reads = vec![
        ChunkRead::Data(b"one".to_vec()),
        ChunkRead::Failed,
        ChunkRead::Data(b"two".to_vec()),
    ];
    assert_eq!(relay_transcript(&reads), b"one".to_vec());
}

#[test]
fn transcript_stops_at_end_of_stream() {
    let reads = vec![
        ChunkRead::Data(b"alpha".to_vec()),
        ChunkRead::Data(Vec::new()),
        ChunkRead::Data(b"beta".to_vec()),
    ];
    assert_eq!(relay_transcript(&reads), b"alpha".to_vec());
}

#[test]
fn empty_session_forwards_nothing() {
    assert_eq!(relay_transcript(&Vec::new()), Vec::<u8>::new());
}

#[test]
fn chunk_size_is_two_kilobytes() {
    assert_eq!(CHUNK_SIZE, 2048);
}
