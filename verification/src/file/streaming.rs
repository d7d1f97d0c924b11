//! Sending a file that is read piece by piece from a platform handle, so that
//! a large file never has to sit in memory whole.

use super::chunk::{chunk_count, count_chunks};
use super::transfer::{SendStep, SendStepView, TransferMessage, TransferMessageView};
use crate::{Error, ErrorView};
use vstd::prelude::*;
use vstd::string::*;

verus! {

/// How long the platform lets the application read a picked file.
#[derive(Debug, Clone, Copy, PartialEq, Eq, Structural)]
pub enum PermissionStatus {
    /// Read access that survives a restart.
    Persistable,
    /// Read access that has to be taken again before use.
    Temporary,
    /// Unknown, or gone.
    Unknown,
}

/// A file picked on the platform.
#[derive(Debug, Clone, PartialEq, Eq)]
pub struct FileInfo {
    /// Where the platform keeps the content.
    pub uri: String,
    /// The file's name, extension included.
    pub name: String,
    /// The file's length in bytes.
    pub size: u64,
    pub mime_type: Option<String>,
    pub extension: Option<String>,
    pub permission_status: PermissionStatus,
}

/// What the user may pick.
#[derive(Debug, Clone, PartialEq, Eq)]
pub struct FileSelectOptions {
    /// Whether several files may be picked at once.
    pub multiple: Option<bool>,
    /// The kinds of file offered; all kinds where none is given.
    pub mime_types: Option<Vec<String>>,
    /// The largest file accepted, in bytes.
    pub max_size: Option<u64>,
}

impl Default for FileSelectOptions {
    fn default() -> (o: FileSelectOptions)
        ensures
            o.multiple is None,
            o.mime_types is None,
            o.max_size is None,
    {
        FileSelectOptions { multiple: None, mime_types: None, max_size: None }
    }
}

impl FileSelectOptions {
    /// Whether several files may be picked at once; one at a time unless said
    /// otherwise.
    pub fn allows_multiple(&self) -> (r: bool)
        ensures
            r == (self.multiple == Some(true)),
    {
        match self.multiple {
            Some(m) => m,
            None => false,
        }
    }

    /// Whether a file of `size` bytes is within the limit, if there is one.
    pub fn accepts_size(&self, size: u64) -> (r: bool)
        ensures
            r == match self.max_size {
                Some(limit) => size <= limit,
                None => true,
            },
    {
        match self.max_size {
            Some(limit) => size <= limit,
            None => true,
        }
    }
}

pub open spec fn permission_lost_message() -> Seq<char> {
    "文件权限已失效，请重新选择文件"@
}

pub open spec fn already_complete_message() -> Seq<char> {
    "Transfer already complete"@
}

pub open spec fn too_large_message() -> Seq<char> {
    "File is too large to send"@
}

/// The state of a streamed transfer: how far it has come.
#[derive(Debug, Clone, Copy, PartialEq, Eq, Structural)]
pub struct StreamingSend {
    /// The length of the file as it was declared at the start.
    pub total_size: u64,
    /// The bytes that have gone out; the next read starts here.
    pub sent_bytes: u64,
    /// The id of the next chunk.
    pub next_chunk_id: u64,
    /// Whether the closing message has gone out.
    pub finished: bool,
}

/// What reading a piece of the file leads to.
pub open spec fn stream_step(s: StreamingSend, piece: Seq<u8>) -> Result<
    (StreamingSend, SendStepView),
    ErrorView,
> {
    if s.finished {
        Err(ErrorView::Protocol(already_complete_message()))
    } else if piece.len() == 0 {
        Ok(
            (
                StreamingSend { finished: true, ..s },
                SendStepView { message: TransferMessageView::Complete, progress: None },
            ),
        )
    } else if s.sent_bytes + piece.len() > u64::MAX || s.next_chunk_id + 1 > u64::MAX {
        Err(ErrorView::File(too_large_message()))
    } else {
        Ok(
            (
                StreamingSend {
                    sent_bytes: (s.sent_bytes + piece.len()) as u64,
                    next_chunk_id: (s.next_chunk_id + 1) as u64,
                    ..s
                },
                SendStepView {
                    message: TransferMessageView::Chunk {
                        chunk_id: s.next_chunk_id as nat,
                        data: piece,
                    },
                    progress: Some(
                        ((s.sent_bytes + piece.len()) as nat, s.total_size as nat),
                    ),
                },
            ),
        )
    }
}

/// What opening a streamed transfer of a file gives.
pub open spec fn begin_spec(
    permission: PermissionStatus,
    name: Seq<char>,
    size: u64,
    chunk_size: nat,
) -> Result<(StreamingSend, TransferMessageView), ErrorView> {
    if permission == PermissionStatus::Unknown {
        Err(ErrorView::File(permission_lost_message()))
    } else {
        Ok(
            (
                StreamingSend { total_size: size, sent_bytes: 0, next_chunk_id: 0, finished: false },
                TransferMessageView::StartTransfer {
                    file_name: name,
                    file_size: size as nat,
                    total_chunks: chunk_count(size as nat, chunk_size),
                },
            ),
        )
    }
}

/// The value of the result of opening a streamed transfer.
pub open spec fn begin_result_view(r: Result<(StreamingSend, TransferMessage), Error>) -> Result<
    (StreamingSend, TransferMessageView),
    ErrorView,
> {
    match r {
        Ok((state, message)) => Ok((state, message@)),
        Err(e) => Err(e@),
    }
}

/// The state after a read together with the value of what the read led to.
pub open spec fn step_result_view(state: StreamingSend, r: Result<SendStep, Error>) -> Result<
    (StreamingSend, SendStepView),
    ErrorView,
> {
    match r {
        Ok(step) => Ok((state, step@)),
        Err(e) => Err(e@),
    }
}

impl StreamingSend {
    /// Opens a streamed transfer of a picked file, cut into chunks of
    /// `chunk_size` bytes: the state to go on from and the opening message.
    /// A file whose read access is gone cannot be sent.
    pub fn begin(info: &FileInfo, chunk_size: usize) -> (r: Result<
        (StreamingSend, TransferMessage),
        Error,
    >)
        requires
            chunk_size > 0,
        ensures
            begin_result_view(r) == begin_spec(
                info.permission_status,
                info.name@,
                info.size,
                chunk_size as nat,
            ),
    {
        if info.permission_status == PermissionStatus::Unknown {
            return Err(Error::File(String::from_str("文件权限已失效，请重新选择文件")));
        }
        let size = info.size;
        let total_chunks: u64 = count_chunks(size, chunk_size as u64);
        Ok(
            (
                StreamingSend { total_size: size, sent_bytes: 0, next_chunk_id: 0, finished: false },
                TransferMessage::StartTransfer {
                    file_name: info.name.clone(),
                    file_size: size,
                    total_chunks,
                },
            ),
        )
    }

    /// Whether read access has to be taken again before the first read.
    pub fn needs_permission_refresh(info: &FileInfo) -> (r: bool)
        ensures
            r == (info.permission_status == PermissionStatus::Temporary),
    {
        info.permission_status == PermissionStatus::Temporary
    }

    /// Takes the piece that was read at offset `sent_bytes` and says what to
    /// send: the piece as the next chunk, with a progress report, or, when the
    /// read came back empty, the closing message.
    pub fn on_read(&mut self, piece: Vec<u8>) -> (r: Result<SendStep, Error>)
        ensures
            step_result_view(*final(self), r) == stream_step(*old(self), piece@),
            r is Err ==> *final(self) == *old(self),
    {
        if self.finished {
            return Err(Error::Protocol(String::from_str("Transfer already complete")));
        }
        if piece.len() == 0 {
            self.finished = true;
            return Ok(SendStep { message: TransferMessage::Complete, progress: None });
        }
        let n = piece.len() as u64;
        if n > u64::MAX - self.sent_bytes || self.next_chunk_id == u64::MAX {
            return Err(Error::File(String::from_str("File is too large to send")));
        }
        let chunk_id = self.next_chunk_id;
        self.sent_bytes = self.sent_bytes + n;
        self.next_chunk_id = chunk_id + 1;
        Ok(
            SendStep {
                message: TransferMessage::Chunk { chunk_id, data: piece },
                progress: Some((self.sent_bytes, self.total_size)),
            },
        )
    }
}

} // verus!
