use stationuli_core::file::receive::{
    reassemble, Incoming, ReceiveOutcome, ReceiveSession, ReceivedFile,
};
use stationuli_core::file::transfer::{
    progress_percent, resolve_save_path, FileTransfer, SendStep, TransferMessage,
};
use stationuli_core::file::FileChunk;
use stationuli_core::Error;

fn bytes(n: usize) -> Vec<u8> {
    (0..n).map(|i| (i * 13 % 253) as u8).collect()
}

fn frames(messages: Vec<TransferMessage>) -> Vec<Incoming> {
    messages.into_iter().map(Incoming::Message).collect()
}

fn start(name: &str, size: u64, chunks: u64) -> TransferMessage {
    TransferMessage::StartTransfer {
        file_name: name.to_string(),
        file_size: size,
        total_chunks: chunks,
    }
}

fn piece(id: u64, data: &[u8]) -> TransferMessage {
    TransferMessage::Chunk { chunk_id: id, data: data.to_vec() }
}

#[test]
fn new_transfer_uses_one_mebibyte_chunks() {
    assert_eq!(FileTransfer::new().chunk_size(), 1_048_576);
}

#[test]
fn report_of_two_and_a_half_megabytes_goes_out_in_three_chunks() {
    let data = bytes(1_048_576 + 1_048_576 + 398_848);
    let transfer = FileTransfer::new();
    let messages = transfer.send_file("/home/b/report.pdf", &data).unwrap();
    assert_eq!(messages.len(), 5);
    assert_eq!(messages[0], start("report.pdf", 2_496_000, 3));
    let sizes: Vec<usize> = messages[1..4]
        .iter()
        .map(|m| match m {
            TransferMessage::Chunk { data, .. } => data.len(),
            _ => panic!("not a chunk"),
        })
        .collect();
    assert_eq!(sizes, vec![1_048_576, 1_048_576, 398_848]);
    for (i, m) in messages[1..4].iter().enumerate() {
        assert!(matches!(m, TransferMessage::Chunk { chunk_id, .. } if *chunk_id == i as u64));
    }
    assert_eq!(messages[4], TransferMessage::Complete);
    let received = transfer.receive_file(frames(messages)).unwrap();
    assert_eq!(received, ReceivedFile { file_name: "report.pdf".to_string(), data });
}

#[test]
fn file_of_two_and_a_half_mebibytes_arrives_whole() {
    let data = bytes(2_621_440);
    let transfer = FileTransfer::new();
    let steps = transfer.send_file_with_progress("report.pdf", &data).unwrap();
    assert_eq!(steps.len(), 5);
    assert_eq!(steps[0].progress, None);
    assert_eq!(steps[1].progress, Some((1_048_576, 2_621_440)));
    assert_eq!(steps[2].progress, Some((2_097_152, 2_621_440)));
    assert_eq!(steps[3].progress, Some((2_621_440, 2_621_440)));
    assert_eq!(steps[4], SendStep { message: TransferMessage::Complete, progress: None });
    let messages: Vec<TransferMessage> = steps.into_iter().map(|s| s.message).collect();
    assert_eq!(messages[0], start("report.pdf", 2_621_440, 3));
    let received = transfer.receive_file(frames(messages)).unwrap();
    assert_eq!(received.file_name, "report.pdf");
    assert_eq!(received.data, data);
}

#[test]
fn empty_file_goes_out_as_start_and_complete() {
    let transfer = FileTransfer::new();
    let messages = transfer.send_file("dir/empty.txt", &[]).unwrap();
    assert_eq!(messages, vec![start("empty.txt", 0, 0), TransferMessage::Complete]);
    let received = transfer.receive_file(frames(messages)).unwrap();
    assert_eq!(received, ReceivedFile { file_name: "empty.txt".to_string(), data: vec![] });
}

#[test]
fn content_uri_is_refused() {
    let transfer = FileTransfer::new();
    let expected = Error::File(
        "Content URI detected. Please use Tauri's Android FS plugin to read the file first."
            .to_string(),
    );
    assert_eq!(
        transfer.send_file("content://media/external/file/12", &[1, 2, 3]),
        Err(expected.clone())
    );
    assert_eq!(
        transfer.send_file_with_progress("content://x", &[]),
        Err(expected)
    );
    assert!(FileTransfer::is_content_uri("content://"));
    assert!(!FileTransfer::is_content_uri("content:/"));
    assert!(!FileTransfer::is_content_uri("/content://"));
    assert!(!FileTransfer::is_content_uri(""));
}

#[test]
fn path_without_a_name_is_refused() {
    let transfer = FileTransfer::new();
    assert_eq!(
        transfer.send_file("/", &[1]),
        Err(Error::File("Invalid file path".to_string()))
    );
    assert_eq!(
        transfer.send_file("a/..", &[1]),
        Err(Error::File("Invalid file path".to_string()))
    );
}

#[test]
fn plan_without_a_name_is_refused() {
    let transfer = FileTransfer::new();
    assert_eq!(
        transfer.plan_transfer(None, &[1, 2]),
        Err(Error::File("Invalid file path".to_string()))
    );
}

#[test]
fn plan_reports_progress_after_every_chunk() {
    let transfer = FileTransfer::new();
    let data = bytes(1_048_577);
    let steps = transfer.plan_transfer(Some("x".to_string()), &data).unwrap();
    assert_eq!(steps.len(), 4);
    assert_eq!(steps[0].message, start("x", 1_048_577, 2));
    assert_eq!(steps[1].progress, Some((1_048_576, 1_048_577)));
    assert_eq!(steps[2].progress, Some((1_048_577, 1_048_577)));
    assert_eq!(steps[2].message, piece(1, &data[1_048_576..]));
}

#[test]
fn receiver_wants_the_opening_message_first() {
    let transfer = FileTransfer::new();
    let expected = Err(Error::Protocol("Expected StartTransfer message".to_string()));
    assert_eq!(transfer.receive_file(frames(vec![piece(0, &[1])])), expected);
    assert_eq!(transfer.receive_file(frames(vec![TransferMessage::Complete])), expected);
    assert_eq!(
        transfer.receive_file(frames(vec![TransferMessage::Error("x".to_string())])),
        expected
    );
    assert_eq!(transfer.receive_file(vec![Incoming::Unrecognized]), expected);
}

#[test]
fn receiver_gives_up_on_a_payload_that_is_no_message() {
    let transfer = FileTransfer::new();
    let expected = Err(Error::Protocol("Deserialize failed: expected value".to_string()));
    assert_eq!(
        transfer.receive_file(vec![Incoming::Malformed("expected value".to_string())]),
        expected
    );
    assert_eq!(
        transfer.receive_file(vec![
            Incoming::Message(start("a", 1, 1)),
            Incoming::Malformed("expected value".to_string()),
        ]),
        expected
    );
}

#[test]
fn receiver_passes_over_what_it_does_not_know() {
    let transfer = FileTransfer::new();
    let got = transfer.receive_file(vec![
        Incoming::Message(start("a.bin", 3, 2)),
        Incoming::Unrecognized,
        Incoming::Message(piece(1, &[3])),
        Incoming::Message(start("other", 9, 9)),
        Incoming::Message(piece(0, &[1, 2])),
    ]);
    assert_eq!(got, Ok(ReceivedFile { file_name: "a.bin".to_string(), data: vec![1, 2, 3] }));
}

#[test]
fn receiver_stops_reading_once_all_chunks_are_there() {
    let transfer = FileTransfer::new();
    let got = transfer.receive_file(vec![
        Incoming::Message(start("a.bin", 2, 2)),
        Incoming::Message(piece(0, &[1])),
        Incoming::Message(piece(1, &[2])),
        Incoming::Malformed("never read".to_string()),
    ]);
    assert_eq!(got, Ok(ReceivedFile { file_name: "a.bin".to_string(), data: vec![1, 2] }));
}

#[test]
fn receiver_reports_the_peers_error() {
    let transfer = FileTransfer::new();
    let got = transfer.receive_file(frames(vec![
        start("a.bin", 2, 2),
        piece(0, &[1]),
        TransferMessage::Error("disk on fire".to_string()),
    ]));
    assert_eq!(got, Err(Error::File("Transfer error: disk on fire".to_string())));
}

#[test]
fn receiver_reports_a_connection_that_runs_dry() {
    let transfer = FileTransfer::new();
    let expected =
        Err(Error::Network("Connection closed before the transfer was complete".to_string()));
    assert_eq!(transfer.receive_file(vec![]), expected);
    assert_eq!(
        transfer.receive_file(frames(vec![start("a.bin", 2, 2), piece(0, &[1])])),
        expected
    );
}

#[test]
fn receiver_reports_chunks_that_are_missing_at_the_end() {
    let transfer = FileTransfer::new();
    let got = transfer.receive_file(frames(vec![
        start("a.bin", 3, 3),
        piece(0, &[1]),
        piece(2, &[3]),
        TransferMessage::Complete,
    ]));
    assert_eq!(got, Err(Error::File("Missing chunks: expected 3, got 2".to_string())));
    let got = transfer.receive_file(frames(vec![start("a.bin", 3, 3), TransferMessage::Complete]));
    assert_eq!(got, Err(Error::File("Missing chunks: expected 3, got 0".to_string())));
}

#[test]
fn receiver_reports_a_chunk_that_came_twice() {
    let transfer = FileTransfer::new();
    let got = transfer.receive_file(frames(vec![
        start("a.bin", 2, 2),
        piece(0, &[1]),
        piece(0, &[1]),
    ]));
    assert_eq!(got, Err(Error::File("Missing chunk: expected 1, got 0".to_string())));
}

#[test]
fn receiver_reports_a_wrong_length() {
    let transfer = FileTransfer::new();
    let got = transfer.receive_file(frames(vec![
        start("a.bin", 5, 2),
        piece(1, &[3]),
        piece(0, &[1, 2]),
    ]));
    assert_eq!(got, Err(Error::File("File size mismatch: expected 5, got 3".to_string())));
    let got = transfer.receive_file(frames(vec![start("a.bin", 5, 0), TransferMessage::Complete]));
    assert_eq!(got, Err(Error::File("File size mismatch: expected 5, got 0".to_string())));
}

#[test]
fn session_goes_step_by_step() {
    let session = ReceiveSession::new();
    let session = match session.on_message(Incoming::Message(start("a", 2, 2))) {
        ReceiveOutcome::Continue(s) => s,
        _ => panic!("the opening message keeps the session going"),
    };
    let session = match session.on_message(Incoming::Message(piece(1, &[9]))) {
        ReceiveOutcome::Continue(s) => s,
        _ => panic!("the first of two chunks keeps the session going"),
    };
    match session.on_message(Incoming::Message(piece(0, &[8]))) {
        ReceiveOutcome::Finished(file) => {
            assert_eq!(file, ReceivedFile { file_name: "a".to_string(), data: vec![8, 9] })
        }
        _ => panic!("the last chunk ends the session"),
    }
}

#[test]
fn reassemble_holds_the_chunks_against_what_was_declared() {
    assert_eq!(reassemble(0, 0, vec![]), Ok(vec![]));
    assert_eq!(
        reassemble(1, 0, vec![]),
        Err(Error::File("Missing chunks: expected 1, got 0".to_string()))
    );
    assert_eq!(
        reassemble(0, 1, vec![]),
        Err(Error::File("File size mismatch: expected 1, got 0".to_string()))
    );
    let chunks = FileChunk::split_file(&[1, 2, 3], 2, "n".to_string());
    assert_eq!(reassemble(2, 3, chunks), Ok(vec![1, 2, 3]));
}

#[test]
fn save_path_is_the_target_or_the_name_inside_it() {
    assert_eq!(resolve_save_path("/tmp/out.bin", false, "report.pdf"), "/tmp/out.bin");
    assert_eq!(resolve_save_path("/tmp/in", true, "report.pdf"), "/tmp/in/report.pdf");
    assert_eq!(resolve_save_path("/tmp/in/", true, "report.pdf"), "/tmp/in/report.pdf");
    assert_eq!(resolve_save_path("C:\\in\\", true, "report.pdf"), "C:\\in\\report.pdf");
    assert_eq!(resolve_save_path("/tmp/new/", false, "report.pdf"), "/tmp/new/report.pdf");
    assert_eq!(resolve_save_path("", true, "report.pdf"), "/report.pdf");
    assert_eq!(resolve_save_path("", false, "report.pdf"), "");
}

#[test]
fn percent_is_rounded_down() {
    assert_eq!(progress_percent(0, 0), 0);
    assert_eq!(progress_percent(5, 0), 0);
    assert_eq!(progress_percent(0, 10), 0);
    assert_eq!(progress_percent(1, 3), 33);
    assert_eq!(progress_percent(2, 3), 66);
    assert_eq!(progress_percent(3, 3), 100);
    assert_eq!(progress_percent(1_048_576, 2_621_440), 40);
    assert_eq!(progress_percent(u64::MAX, u64::MAX), 100);
    assert_eq!(progress_percent(u64::MAX - 1, u64::MAX), 99);
}
