use file_upload::receipt::Receipt;
use file_upload::upload::{ChunkRead, Next, PartRead, Upload, DEFAULT_FILENAME};

#[test]
fn default_filename_is_the_placeholder() {
    assert_eq!(DEFAULT_FILENAME, "unknown.bin");
}

#[test]
fn new_upload_is_empty() {
    let upload = Upload::new();
    assert_eq!(upload.filename(), "unknown.bin");
    assert!(upload.bytes().is_empty());
    assert_eq!(upload.receipt(), Receipt { filename: String::from("unknown.bin"), size: 0 });
}

#[test]
fn empty_body_yields_size_zero_and_default_name() {
    let mut upload = Upload::new();
    assert_eq!(upload.on_part(PartRead::End), Next::Respond);
    let receipt = upload.receipt();
    assert_eq!(receipt.size, 0);
    assert_eq!(receipt.filename, "unknown.bin");
    assert_eq!(
        receipt.reply().body,
        "{\"filename\":\"unknown.bin\",\"size\":0,\"status\":\"stored\"}"
    );
}

#[test]
fn one_file_part_of_n_bytes_has_size_n() {
    for n in [0usize, 1, 5, 1000, 70000] {
        let data = vec![0xabu8; n];
        let mut upload = Upload::new();
        upload.on_part(PartRead::Part { filename: Some("blob.bin") });
        upload.on_chunk(ChunkRead::Chunk(&data));
        upload.on_chunk(ChunkRead::End);
        upload.on_part(PartRead::End);
        assert_eq!(upload.receipt().size, n);
    }
}

#[test]
fn one_file_part_in_several_chunks_has_the_size_of_all() {
    let mut upload = Upload::new();
    upload.on_part(PartRead::Part { filename: Some("blob.bin") });
    upload.on_chunk(ChunkRead::Chunk(b"abc"));
    upload.on_chunk(ChunkRead::Chunk(b""));
    upload.on_chunk(ChunkRead::Chunk(b"defgh"));
    upload.on_chunk(ChunkRead::End);
    upload.on_part(PartRead::End);
    assert_eq!(upload.receipt().size, 8);
    assert_eq!(upload.bytes(), b"abcdefgh");
}

#[test]
fn parts_without_filename_keep_the_default() {
    let mut upload = Upload::new();
    upload.on_part(PartRead::Part { filename: None });
    upload.on_chunk(ChunkRead::Chunk(b"value"));
    upload.on_chunk(ChunkRead::End);
    upload.on_part(PartRead::Part { filename: None });
    upload.on_chunk(ChunkRead::End);
    upload.on_part(PartRead::End);
    let receipt = upload.receipt();
    assert_eq!(receipt.filename, "unknown.bin");
    assert_eq!(receipt.size, 5);
}

#[test]
fn several_file_parts_give_last_name_and_summed_size() {
    let mut upload = Upload::new();
    upload.on_part(PartRead::Part { filename: Some("first.txt") });
    upload.on_chunk(ChunkRead::Chunk(b"one"));
    upload.on_chunk(ChunkRead::End);
    upload.on_part(PartRead::Part { filename: Some("second.txt") });
    upload.on_chunk(ChunkRead::Chunk(b"twotwo"));
    upload.on_chunk(ChunkRead::End);
    upload.on_part(PartRead::Part { filename: Some("third.txt") });
    upload.on_chunk(ChunkRead::Chunk(b"three"));
    upload.on_chunk(ChunkRead::Chunk(b"!"));
    upload.on_chunk(ChunkRead::End);
    upload.on_part(PartRead::End);
    let receipt = upload.receipt();
    assert_eq!(receipt.filename, "third.txt");
    assert_eq!(receipt.size, 3 + 6 + 6);
    assert_eq!(upload.bytes(), b"onetwotwothree!");
}

#[test]
fn a_part_without_filename_leaves_the_earlier_name() {
    let mut upload = Upload::new();
    upload.on_part(PartRead::Part { filename: Some("kept.txt") });
    upload.on_chunk(ChunkRead::Chunk(b"12"));
    upload.on_chunk(ChunkRead::End);
    upload.on_part(PartRead::Part { filename: None });
    upload.on_chunk(ChunkRead::Chunk(b"345"));
    upload.on_chunk(ChunkRead::End);
    upload.on_part(PartRead::End);
    assert_eq!(upload.receipt(), Receipt { filename: String::from("kept.txt"), size: 5 });
}

#[test]
fn an_empty_declared_name_replaces_the_recorded_one() {
    let mut upload = Upload::new();
    upload.on_part(PartRead::Part { filename: Some("") });
    assert_eq!(upload.filename(), "");
}

#[test]
fn a_read_says_what_to_read_next() {
    let mut upload = Upload::new();
    assert_eq!(upload.on_part(PartRead::Part { filename: Some("a") }), Next::ReadChunk);
    assert_eq!(upload.on_part(PartRead::Part { filename: None }), Next::ReadChunk);
    assert_eq!(upload.on_chunk(ChunkRead::Chunk(b"x")), Next::ReadChunk);
    assert_eq!(upload.on_chunk(ChunkRead::Chunk(b"")), Next::ReadChunk);
    assert_eq!(upload.on_chunk(ChunkRead::End), Next::ReadPart);
    assert_eq!(upload.on_chunk(ChunkRead::Failed), Next::ReadPart);
    assert_eq!(upload.on_part(PartRead::End), Next::Respond);
    assert_eq!(upload.on_part(PartRead::Failed), Next::Respond);
}

#[test]
fn a_failed_chunk_read_ends_the_part_and_keeps_what_was_read() {
    let mut upload = Upload::new();
    upload.on_part(PartRead::Part { filename: Some("cut.bin") });
    upload.on_chunk(ChunkRead::Chunk(b"abcd"));
    assert_eq!(upload.on_chunk(ChunkRead::Failed), Next::ReadPart);
    assert_eq!(upload.filename(), "cut.bin");
    assert_eq!(upload.bytes(), b"abcd");
}

#[test]
fn a_read_error_mid_transfer_still_gets_status_200() {
    let mut upload = Upload::new();
    upload.on_part(PartRead::Part { filename: Some("cut.bin") });
    upload.on_chunk(ChunkRead::Chunk(b"abcd"));
    assert_eq!(upload.on_chunk(ChunkRead::Failed), Next::ReadPart);
    assert_eq!(upload.on_part(PartRead::Failed), Next::Respond);
    let reply = upload.receipt().reply();
    assert_eq!(reply.status, 200);
    assert_eq!(reply.body, "{\"filename\":\"cut.bin\",\"size\":4,\"status\":\"stored\"}");
}

#[test]
fn a_failed_read_of_the_first_part_still_gets_status_200() {
    let mut upload = Upload::new();
    assert_eq!(upload.on_part(PartRead::Failed), Next::Respond);
    let reply = upload.receipt().reply();
    assert_eq!(reply.status, 200);
    assert_eq!(reply.body, "{\"filename\":\"unknown.bin\",\"size\":0,\"status\":\"stored\"}");
}

#[test]
fn a_failed_read_leaves_the_upload_as_an_end_does() {
    let mut failed = Upload::new();
    let mut ended = Upload::new();
    for upload in [&mut failed, &mut ended] {
        upload.on_part(PartRead::Part { filename: Some("same.bin") });
        upload.on_chunk(ChunkRead::Chunk(b"payload"));
    }
    assert_eq!(failed.on_chunk(ChunkRead::Failed), ended.on_chunk(ChunkRead::End));
    assert_eq!(failed.on_part(PartRead::Failed), ended.on_part(PartRead::End));
    assert_eq!(failed.receipt(), ended.receipt());
    assert_eq!(failed.bytes(), ended.bytes());
    assert_eq!(failed.receipt().reply(), ended.receipt().reply());
}

#[test]
fn upload_of_a_txt_with_hello() {
    let mut upload = Upload::new();
    assert_eq!(upload.on_part(PartRead::Part { filename: Some("a.txt") }), Next::ReadChunk);
    assert_eq!(upload.on_chunk(ChunkRead::Chunk(b"hello")), Next::ReadChunk);
    assert_eq!(upload.on_chunk(ChunkRead::End), Next::ReadPart);
    assert_eq!(upload.on_part(PartRead::End), Next::Respond);
    let reply = upload.receipt().reply();
    assert_eq!(reply.status, 200);
    assert_eq!(reply.body, "{\"filename\":\"a.txt\",\"size\":5,\"status\":\"stored\"}");
}

#[test]
fn receipt_counts_the_bytes_that_are_held() {
    let mut upload = Upload::new();
    upload.on_part(PartRead::Part { filename: Some("n.bin") });
    let mut expected: Vec<u8> = Vec::new();
    for round in 0..50u8 {
        let chunk = vec![round; usize::from(round)];
        expected.extend_from_slice(&chunk);
        upload.on_chunk(ChunkRead::Chunk(&chunk));
        assert_eq!(upload.receipt().size, upload.bytes().len());
    }
    assert_eq!(upload.bytes(), expected.as_slice());
    assert_eq!(upload.receipt().size, 1225);
}
