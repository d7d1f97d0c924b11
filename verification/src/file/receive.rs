//! The receiving side of a transfer: a session that takes the peer's messages
//! one by one and ends with the file or with the reason for giving up.

use super::chunk::{
    merge_result_view, merge_spec, missing_chunks_message, numbers_message, size_mismatch_message,
    views, FileChunk, FileChunkView,
};
use super::transfer::{FileTransfer, TransferMessage, TransferMessageView};
use crate::text::join2;
use crate::{Error, ErrorView};
use vstd::prelude::*;
use vstd::string::*;

verus! {

/// What the transport handed up for one frame of the peer.
#[derive(Debug, Clone, PartialEq, Eq)]
pub enum Incoming {
    /// A message of the protocol.
    Message(TransferMessage),
    /// A well-formed message of a kind this version does not know.
    Unrecognized,
    /// A payload that is no message at all, with the decoder's complaint.
    Malformed(String),
}

/// The mathematical value of an [`Incoming`].
pub enum IncomingView {
    Message(TransferMessageView),
    Unrecognized,
    Malformed(Seq<char>),
}

impl View for Incoming {
    type V = IncomingView;

    open spec fn view(&self) -> IncomingView {
        match self {
            Incoming::Message(m) => IncomingView::Message(m@),
            Incoming::Unrecognized => IncomingView::Unrecognized,
            Incoming::Malformed(detail) => IncomingView::Malformed(detail@),
        }
    }
}

/// The values of a sequence of incoming frames, in the same order.
pub open spec fn incoming_views(frames: Seq<Incoming>) -> Seq<IncomingView> {
    frames.map_values(|f: Incoming| f@)
}

/// A file that has arrived whole.
#[derive(Debug, Clone, PartialEq, Eq)]
pub struct ReceivedFile {
    pub file_name: String,
    pub data: Vec<u8>,
}

/// What a receiver knows in the middle of a transfer.
pub struct ReceiveSessionView {
    /// Whether the opening message has arrived.
    pub started: bool,
    pub file_name: Seq<char>,
    pub file_size: nat,
    pub total_chunks: nat,
    /// The chunks so far, in order of arrival.
    pub chunks: Seq<FileChunkView>,
}

/// How a session stands after a message.
pub enum ReceiveOutcomeView {
    /// The transfer goes on.
    Continue(ReceiveSessionView),
    /// The file is there.
    Finished { file_name: Seq<char>, data: Seq<u8> },
    /// The transfer is over without a file.
    Failed(ErrorView),
}

/// A session before its first message.
pub open spec fn initial_session() -> ReceiveSessionView {
    ReceiveSessionView {
        started: false,
        file_name: Seq::empty(),
        file_size: 0,
        total_chunks: 0,
        chunks: Seq::empty(),
    }
}

/// Every chunk of the session repeats what the opening message declared, and
/// there is none before the opening message.
pub open spec fn consistent(s: ReceiveSessionView) -> bool {
    &&& !s.started ==> s.chunks.len() == 0
    &&& forall|i: int|
        0 <= i < s.chunks.len() ==> {
            &&& (#[trigger] s.chunks[i]).total_chunks == s.total_chunks
            &&& s.chunks[i].file_size == s.file_size
            &&& s.chunks[i].file_name == s.file_name
        }
}

/// What the chunks that arrived make, held against what the opening message
/// declared: with no chunk at all the file must have been declared empty.
pub open spec fn reassemble_spec(
    total_chunks: nat,
    file_size: nat,
    chunks: Seq<FileChunkView>,
) -> Result<Seq<u8>, ErrorView> {
    if chunks.len() > 0 {
        merge_spec(chunks)
    } else if total_chunks != 0 {
        Err(ErrorView::File(missing_chunks_message(total_chunks, 0)))
    } else if file_size != 0 {
        Err(ErrorView::File(size_mismatch_message(file_size, 0)))
    } else {
        Ok(Seq::empty())
    }
}

/// How a session ends when no more chunks are to come.
pub open spec fn finish_spec(s: ReceiveSessionView) -> ReceiveOutcomeView {
    match reassemble_spec(s.total_chunks, s.file_size, s.chunks) {
        Ok(data) => ReceiveOutcomeView::Finished { file_name: s.file_name, data },
        Err(e) => ReceiveOutcomeView::Failed(e),
    }
}

/// The chunk that a session makes of a chunk message.
pub open spec fn session_chunk(s: ReceiveSessionView, chunk_id: nat, data: Seq<u8>) -> FileChunkView {
    FileChunkView {
        chunk_id,
        data,
        total_chunks: s.total_chunks,
        file_name: s.file_name,
        file_size: s.file_size,
    }
}

/// What one frame does to a session.
///
/// A payload that is no message ends the session. Before the opening message
/// only the opening message is accepted. After it, a chunk is kept, and the
/// session ends once as many chunks have come as were declared; the closing
/// message ends it at once; the peer's error message ends it without a file;
/// anything else is passed over.
pub open spec fn receive_step(s: ReceiveSessionView, frame: IncomingView) -> ReceiveOutcomeView {
    match frame {
        IncomingView::Malformed(detail) => ReceiveOutcomeView::Failed(
            ErrorView::Protocol("Deserialize failed: "@ + detail),
        ),
        IncomingView::Unrecognized => if s.started {
            ReceiveOutcomeView::Continue(s)
        } else {
            ReceiveOutcomeView::Failed(ErrorView::Protocol("Expected StartTransfer message"@))
        },
        IncomingView::Message(m) => if !s.started {
            match m {
                TransferMessageView::StartTransfer { file_name, file_size, total_chunks } => {
                    ReceiveOutcomeView::Continue(
                        ReceiveSessionView {
                            started: true,
                            file_name,
                            file_size,
                            total_chunks,
                            chunks: Seq::empty(),
                        },
                    )
                },
                _ => ReceiveOutcomeView::Failed(
                    ErrorView::Protocol("Expected StartTransfer message"@),
                ),
            }
        } else {
            match m {
                TransferMessageView::Chunk { chunk_id, data } => {
                    let next = ReceiveSessionView {
                        chunks: s.chunks.push(session_chunk(s, chunk_id, data)),
                        ..s
                    };
                    if next.chunks.len() >= s.total_chunks {
                        finish_spec(next)
                    } else {
                        ReceiveOutcomeView::Continue(next)
                    }
                },
                TransferMessageView::Complete => finish_spec(s),
                TransferMessageView::Error(reason) => ReceiveOutcomeView::Failed(
                    ErrorView::File("Transfer error: "@ + reason),
                ),
                TransferMessageView::StartTransfer { .. } => ReceiveOutcomeView::Continue(s),
            }
        },
    }
}

pub open spec fn connection_closed_message() -> Seq<char> {
    "Connection closed before the transfer was complete"@
}

/// What a session makes of the frames of one connection, read in order until
/// the session ends. Frames after the end are never read; a connection that
/// runs dry before the end is a network failure.
pub open spec fn receive_all(s: ReceiveSessionView, frames: Seq<IncomingView>) -> ReceiveOutcomeView
    decreases frames.len(),
{
    if frames.len() == 0 {
        ReceiveOutcomeView::Failed(ErrorView::Network(connection_closed_message()))
    } else {
        match receive_step(s, frames[0]) {
            ReceiveOutcomeView::Continue(next) => receive_all(next, frames.drop_first()),
            ended => ended,
        }
    }
}

/// A session's end as a result: the file, or the error. A session that
/// has not ended gives no result.
pub open spec fn outcome_result(o: ReceiveOutcomeView) -> Option<
    Result<(Seq<char>, Seq<u8>), ErrorView>,
> {
    match o {
        ReceiveOutcomeView::Continue(_) => None,
        ReceiveOutcomeView::Finished { file_name, data } => Some(Ok((file_name, data))),
        ReceiveOutcomeView::Failed(e) => Some(Err(e)),
    }
}

/// The value of the result of receiving a file.
pub open spec fn received_view(r: Result<ReceivedFile, Error>) -> Option<
    Result<(Seq<char>, Seq<u8>), ErrorView>,
> {
    match r {
        Ok(file) => Some(Ok((file.file_name@, file.data@))),
        Err(e) => Some(Err(e@)),
    }
}

/// Puts together the chunks of a transfer that declared `total_chunks` chunks
/// and `file_size` bytes. Where chunks came, they are put together as
/// [`FileChunk::merge_chunks`] does, by what the chunks say of the file; where
/// none came, the file must have been declared empty.
pub fn reassemble(total_chunks: u64, file_size: u64, chunks: Vec<FileChunk>) -> (r: Result<
    Vec<u8>,
    Error,
>)
    ensures
        merge_result_view(r) == reassemble_spec(
            total_chunks as nat,
            file_size as nat,
            views(chunks@),
        ),
{
    if chunks.len() > 0 {
        FileChunk::merge_chunks(chunks)
    } else if total_chunks != 0 {
        Err(Error::File(numbers_message("Missing chunks: expected ", total_chunks, ", got ", 0)))
    } else if file_size != 0 {
        Err(Error::File(numbers_message("File size mismatch: expected ", file_size, ", got ", 0)))
    } else {
        Ok(Vec::new())
    }
}

/// The receiving side of one transfer.
pub struct ReceiveSession {
    started: bool,
    file_name: String,
    file_size: u64,
    total_chunks: u64,
    chunks: Vec<FileChunk>,
}

impl View for ReceiveSession {
    type V = ReceiveSessionView;

    closed spec fn view(&self) -> ReceiveSessionView {
        ReceiveSessionView {
            started: self.started,
            file_name: self.file_name@,
            file_size: self.file_size as nat,
            total_chunks: self.total_chunks as nat,
            chunks: views(self.chunks@),
        }
    }
}

/// How a session stands after a message.
pub enum ReceiveOutcome {
    /// The transfer goes on: hand the next frame to this session.
    Continue(ReceiveSession),
    /// The file is there.
    Finished(ReceivedFile),
    /// The transfer is over without a file.
    Failed(Error),
}

impl View for ReceiveOutcome {
    type V = ReceiveOutcomeView;

    open spec fn view(&self) -> ReceiveOutcomeView {
        match self {
            ReceiveOutcome::Continue(s) => ReceiveOutcomeView::Continue(s@),
            ReceiveOutcome::Finished(file) => ReceiveOutcomeView::Finished {
                file_name: file.file_name@,
                data: file.data@,
            },
            ReceiveOutcome::Failed(e) => ReceiveOutcomeView::Failed(e@),
        }
    }
}

impl ReceiveSession {
    #[verifier::type_invariant]
    spec fn well_formed(self) -> bool {
        consistent(self@)
    }

    /// A session that waits for the opening message.
    pub fn new() -> (s: ReceiveSession)
        ensures
            s@ == initial_session(),
    {
        let s = ReceiveSession {
            started: false,
            file_name: String::new(),
            file_size: 0,
            total_chunks: 0,
            chunks: Vec::new(),
        };
        assert(s@.chunks =~= Seq::empty());
        s
    }

    /// Ends the session with what has arrived.
    fn finish(self) -> (out: ReceiveOutcome)
        ensures
            out@ == finish_spec(self@),
    {
        let ReceiveSession { started, file_name, file_size, total_chunks, chunks } = self;
        match reassemble(total_chunks, file_size, chunks) {
            Ok(data) => ReceiveOutcome::Finished(ReceivedFile { file_name, data }),
            Err(e) => ReceiveOutcome::Failed(e),
        }
    }

    /// Takes the next frame of the peer and says how the session stands.
    pub fn on_message(self, frame: Incoming) -> (out: ReceiveOutcome)
        ensures
            out@ == receive_step(self@, frame@),
            out matches ReceiveOutcome::Continue(next) ==> consistent(next@),
    {
        proof {
            use_type_invariant(&self);
        }
        let message = match frame {
            Incoming::Malformed(detail) => {
                return ReceiveOutcome::Failed(
                    Error::Protocol(join2("Deserialize failed: ", detail.as_str())),
                );
            },
            Incoming::Unrecognized => {
                if self.started {
                    return ReceiveOutcome::Continue(self);
                } else {
                    return ReceiveOutcome::Failed(
                        Error::Protocol(String::from_str("Expected StartTransfer message")),
                    );
                }
            },
            Incoming::Message(m) => m,
        };
        if !self.started {
            match message {
                TransferMessage::StartTransfer { file_name, file_size, total_chunks } => {
                    let next = ReceiveSession {
                        started: true,
                        file_name,
                        file_size,
                        total_chunks,
                        chunks: Vec::new(),
                    };
                    assert(next@.chunks =~= Seq::empty());
                    ReceiveOutcome::Continue(next)
                },
                _ => ReceiveOutcome::Failed(
                    Error::Protocol(String::from_str("Expected StartTransfer message")),
                ),
            }
        } else {
            match message {
                TransferMessage::Chunk { chunk_id, data } => {
                    let ghost before = self@;
                    let ReceiveSession { started, file_name, file_size, total_chunks, mut chunks } =
                        self;
                    chunks.push(
                        FileChunk {
                            chunk_id,
                            data,
                            total_chunks,
                            file_name: file_name.clone(),
                            file_size,
                        },
                    );
                    assert(views(chunks@) =~= before.chunks.push(
                        session_chunk(before, chunk_id as nat, data@),
                    ));
                    let enough = chunks.len() as u64 >= total_chunks;
                    let next = ReceiveSession { started, file_name, file_size, total_chunks, chunks };
                    if enough {
                        next.finish()
                    } else {
                        ReceiveOutcome::Continue(next)
                    }
                },
                TransferMessage::Complete => self.finish(),
                TransferMessage::Error(reason) => ReceiveOutcome::Failed(
                    Error::File(join2("Transfer error: ", reason.as_str())),
                ),
                TransferMessage::StartTransfer { .. } => ReceiveOutcome::Continue(self),
            }
        }
    }
}

impl FileTransfer {
    /// Receives one file from the frames of one connection, read in order
    /// until the transfer ends one way or the other.
    pub fn receive_file(&self, frames: Vec<Incoming>) -> (r: Result<ReceivedFile, Error>)
        ensures
            received_view(r) == outcome_result(
                receive_all(initial_session(), incoming_views(frames@)),
            ),
    {
        let ghost all = incoming_views(frames@);
        let mut session = ReceiveSession::new();
        assert(all.skip(0) =~= all);
        for frame in it: frames
            invariant
                incoming_views(it.seq()) == all,
                receive_all(initial_session(), all) == receive_all(
                    session@,
                    all.skip(it.index() as int),
                ),
        {
            proof {
                let rest = all.skip(it.index() as int);
                assert(rest[0] == frame@);
                assert(rest.drop_first() =~= all.skip(it.index() as int + 1));
            }
            match session.on_message(frame) {
                ReceiveOutcome::Continue(next) => {
                    session = next;
                },
                ReceiveOutcome::Finished(file) => {
                    return Ok(file);
                },
                ReceiveOutcome::Failed(e) => {
                    return Err(e);
                },
            }
        }
        Err(Error::Network(String::from_str("Connection closed before the transfer was complete")))
    }
}

} // verus!
