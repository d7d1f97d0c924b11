use stationuli_core::crypto::KeyExchange;
use stationuli_core::file::naming::{
    choose_file_name, extension_of, get_file_name_from_uri, mime_type_for,
};
use stationuli_core::file::streaming::{
    FileInfo, FileSelectOptions, PermissionStatus, StreamingSend,
};
use stationuli_core::file::transfer::{SendStep, TransferMessage};
use stationuli_core::file::receive::Incoming;
use stationuli_core::file::{FileTransfer, ResumeTransfer};
use stationuli_core::p2p::{Connection, QuicConnection};
use stationuli_core::Error;

fn info(size: u64, permission: PermissionStatus) -> FileInfo {
    FileInfo {
        uri: "content://media/1".to_string(),
        name: "clip.mp4".to_string(),
        size,
        mime_type: Some("video/mp4".to_string()),
        extension: Some("mp4".to_string()),
        permission_status: permission,
    }
}

#[test]
fn stream_opens_with_what_the_file_declares() {
    let (state, message) = StreamingSend::begin(&info(10, PermissionStatus::Persistable), 4).unwrap();
    assert_eq!(
        state,
        StreamingSend { total_size: 10, sent_bytes: 0, next_chunk_id: 0, finished: false }
    );
    assert_eq!(
        message,
        TransferMessage::StartTransfer {
            file_name: "clip.mp4".to_string(),
            file_size: 10,
            total_chunks: 3,
        }
    );
    let (_, message) = StreamingSend::begin(&info(0, PermissionStatus::Temporary), 4).unwrap();
    assert_eq!(
        message,
        TransferMessage::StartTransfer {
            file_name: "clip.mp4".to_string(),
            file_size: 0,
            total_chunks: 0,
        }
    );
}

#[test]
fn stream_needs_read_access() {
    assert_eq!(
        StreamingSend::begin(&info(10, PermissionStatus::Unknown), 4),
        Err(Error::File("文件权限已失效，请重新选择文件".to_string()))
    );
    assert!(StreamingSend::needs_permission_refresh(&info(1, PermissionStatus::Temporary)));
    assert!(!StreamingSend::needs_permission_refresh(&info(1, PermissionStatus::Persistable)));
    assert!(!StreamingSend::needs_permission_refresh(&info(1, PermissionStatus::Unknown)));
}

#[test]
fn stream_sends_each_piece_as_the_next_chunk() {
    let (mut state, start) = StreamingSend::begin(&info(10, PermissionStatus::Persistable), 4).unwrap();
    let mut messages = vec![start];
    let data: Vec<u8> = (0..10).collect();
    let first = state.on_read(data[0..4].to_vec()).unwrap();
    assert_eq!(
        first,
        SendStep {
            message: TransferMessage::Chunk { chunk_id: 0, data: vec![0, 1, 2, 3] },
            progress: Some((4, 10)),
        }
    );
    assert_eq!(state.sent_bytes, 4);
    messages.push(first.message);
    let second = state.on_read(data[4..8].to_vec()).unwrap();
    assert_eq!(second.progress, Some((8, 10)));
    messages.push(second.message);
    let third = state.on_read(data[8..10].to_vec()).unwrap();
    assert_eq!(
        third,
        SendStep {
            message: TransferMessage::Chunk { chunk_id: 2, data: vec![8, 9] },
            progress: Some((10, 10)),
        }
    );
    messages.push(third.message);
    let last = state.on_read(vec![]).unwrap();
    assert_eq!(last, SendStep { message: TransferMessage::Complete, progress: None });
    assert!(state.finished);
    messages.push(last.message);
    assert_eq!(
        state.on_read(vec![1]),
        Err(Error::Protocol("Transfer already complete".to_string()))
    );
    let received = FileTransfer::new()
        .receive_file(messages.into_iter().map(Incoming::Message).collect())
        .unwrap();
    assert_eq!(received.file_name, "clip.mp4");
    assert_eq!(received.data, data);
}

#[test]
fn stream_of_an_empty_file_arrives_empty() {
    let (mut state, start) = StreamingSend::begin(&info(0, PermissionStatus::Persistable), 4).unwrap();
    let end = state.on_read(vec![]).unwrap();
    let received = FileTransfer::new()
        .receive_file(vec![Incoming::Message(start), Incoming::Message(end.message)])
        .unwrap();
    assert_eq!(received.data, Vec::<u8>::new());
}

#[test]
fn stream_refuses_to_count_past_the_largest_number() {
    let mut state = StreamingSend {
        total_size: u64::MAX,
        sent_bytes: u64::MAX - 1,
        next_chunk_id: 3,
        finished: false,
    };
    let before = state;
    assert_eq!(
        state.on_read(vec![1, 2]),
        Err(Error::File("File is too large to send".to_string()))
    );
    assert_eq!(state, before);
    assert!(state.on_read(vec![1]).is_ok());
    assert_eq!(state.sent_bytes, u64::MAX);
}

#[test]
fn select_options() {
    let none = FileSelectOptions::default();
    assert_eq!(none, FileSelectOptions { multiple: None, mime_types: None, max_size: None });
    assert!(!none.allows_multiple());
    assert!(none.accepts_size(u64::MAX));
    let some = FileSelectOptions {
        multiple: Some(true),
        mime_types: Some(vec!["image/png".to_string()]),
        max_size: Some(100),
    };
    assert!(some.allows_multiple());
    assert!(some.accepts_size(100));
    assert!(!some.accepts_size(101));
    let single = FileSelectOptions { multiple: Some(false), mime_types: None, max_size: None };
    assert!(!single.allows_multiple());
}

#[test]
fn key_exchange_gives_empty_keys() {
    let mut k = KeyExchange::new();
    assert_eq!(k.generate_keypair(), Ok((vec![], vec![])));
    assert_eq!(k.exchange(&[1, 2, 3]), Ok(vec![]));
}

#[test]
fn resume_keeps_nothing() {
    let mut r = ResumeTransfer::new();
    assert_eq!(r.save_progress("t1", 50), Ok(()));
    assert_eq!(r.resume("t1"), Ok(()));
}

#[test]
fn quic_connection_carries_nothing() {
    let mut q = QuicConnection::new();
    assert_eq!(q.connect(), Ok(()));
    assert_eq!(q.send(&[1, 2, 3]), Ok(()));
    assert_eq!(q.receive(), Ok(vec![]));
    assert_eq!(q.close(), Ok(()));
}

#[test]
fn name_comes_from_the_last_segment_of_a_uri() {
    assert_eq!(get_file_name_from_uri("content://docs/My%20Report.pdf"), "My Report.pdf");
    assert_eq!(get_file_name_from_uri("content://docs/photo.PNG"), "photo.PNG");
    assert_eq!(get_file_name_from_uri("plain.txt"), "plain.txt");
    assert_eq!(get_file_name_from_uri("content://docs/a%2Fb.txt"), "a/b.txt");
    // No dot in the last segment: the name is made up from what the URI hints at.
    assert_eq!(get_file_name_from_uri("content://media/picture.jpeg/12"), "文件.jpg");
    assert_eq!(get_file_name_from_uri("content://media/Video.MP4/12"), "文件.mp4");
    assert_eq!(get_file_name_from_uri("content://media/external/12"), "文件.bin");
    assert_eq!(get_file_name_from_uri(""), "文件.bin");
    assert_eq!(get_file_name_from_uri("content://x.docx/"), "文件.docx");
    assert_eq!(get_file_name_from_uri("content://x.xls/1"), "文件.xlsx");
    // A segment of the document provider is no name.
    assert_eq!(get_file_name_from_uri("content://provider/msf:12.pdf"), "文件.pdf");
    // Escapes that do not make UTF-8 are no name.
    assert_eq!(get_file_name_from_uri("content://docs/%ff.txt"), "文件.txt");
    // A decoded name of 200 bytes or more is no name.
    let long = format!("content://docs/{}.mp3", "a".repeat(196));
    assert_eq!(get_file_name_from_uri(&long), "文件.mp3");
    let fits = format!("content://docs/{}.mp3", "a".repeat(195));
    assert_eq!(get_file_name_from_uri(&fits), format!("{}.mp3", "a".repeat(195)));
    assert_eq!(choose_file_name("a.b", Some("a.b".to_string()), "x"), "a.b");
    assert_eq!(choose_file_name("a.b", Some("ab".to_string()), "x.png"), "文件.png");
    assert_eq!(choose_file_name("a.b", None, "x.pdf"), "文件.pdf");
    assert_eq!(choose_file_name("ab", Some("a.b".to_string()), "x.txt"), "文件.txt");
}

#[test]
fn extension_and_kind_of_a_file() {
    assert_eq!(extension_of("photo.PNG"), Some("png".to_string()));
    assert_eq!(extension_of("archive.tar.GZ"), Some("gz".to_string()));
    assert_eq!(extension_of("noextension"), None);
    assert_eq!(extension_of("trailing."), Some("".to_string()));
    assert_eq!(extension_of(".hidden"), Some("hidden".to_string()));
    assert_eq!(mime_type_for("jpg"), Some("image/jpeg".to_string()));
    assert_eq!(mime_type_for("jpeg"), Some("image/jpeg".to_string()));
    assert_eq!(mime_type_for("png"), Some("image/png".to_string()));
    assert_eq!(mime_type_for("gif"), Some("image/gif".to_string()));
    assert_eq!(mime_type_for("pdf"), Some("application/pdf".to_string()));
    assert_eq!(mime_type_for("mp4"), Some("video/mp4".to_string()));
    assert_eq!(mime_type_for("mp3"), Some("audio/mpeg".to_string()));
    assert_eq!(mime_type_for("txt"), Some("text/plain".to_string()));
    assert_eq!(mime_type_for("doc"), Some("application/msword".to_string()));
    assert_eq!(mime_type_for("docx"), Some("application/msword".to_string()));
    assert_eq!(mime_type_for("xls"), Some("application/vnd.ms-excel".to_string()));
    assert_eq!(mime_type_for("xlsx"), Some("application/vnd.ms-excel".to_string()));
    assert_eq!(mime_type_for("zip"), Some("application/zip".to_string()));
    assert_eq!(mime_type_for("PNG"), None);
    assert_eq!(mime_type_for(""), None);
}
