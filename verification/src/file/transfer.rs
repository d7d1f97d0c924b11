//! The transfer protocol: which messages carry a file to a peer, and what a
//! receiver makes of the messages that reach it.

use super::chunk::{chunk_count, concat_data, split_spec, views, FileChunk, FileChunkView};
use super::laws::lemma_sent_bytes;
use crate::text::{begins_with, chars_of};
use crate::{Error, ErrorView};
use vstd::prelude::*;
use vstd::string::*;

verus! {

/// One message of a transfer, as it travels inside a frame.
#[derive(Debug, Clone, PartialEq, Eq)]
pub enum TransferMessage {
    /// Opens a transfer and declares what is to come.
    StartTransfer { file_name: String, file_size: u64, total_chunks: u64 },
    /// One piece of the file.
    Chunk { chunk_id: u64, data: Vec<u8> },
    /// The sender has sent everything.
    Complete,
    /// The sender gives up, and says why.
    Error(String),
}

/// The mathematical value of a [`TransferMessage`].
pub enum TransferMessageView {
    StartTransfer { file_name: Seq<char>, file_size: nat, total_chunks: nat },
    Chunk { chunk_id: nat, data: Seq<u8> },
    Complete,
    Error(Seq<char>),
}

impl View for TransferMessage {
    type V = TransferMessageView;

    open spec fn view(&self) -> TransferMessageView {
        match self {
            TransferMessage::StartTransfer { file_name, file_size, total_chunks } => {
                TransferMessageView::StartTransfer {
                    file_name: file_name@,
                    file_size: *file_size as nat,
                    total_chunks: *total_chunks as nat,
                }
            },
            TransferMessage::Chunk { chunk_id, data } => {
                TransferMessageView::Chunk { chunk_id: *chunk_id as nat, data: data@ }
            },
            TransferMessage::Complete => TransferMessageView::Complete,
            TransferMessage::Error(reason) => TransferMessageView::Error(reason@),
        }
    }
}

/// One step of sending: the message to put on the wire and, after a chunk,
/// the progress to report as bytes sent so far and bytes in all.
#[derive(Debug, Clone, PartialEq, Eq)]
pub struct SendStep {
    pub message: TransferMessage,
    pub progress: Option<(u64, u64)>,
}

/// The mathematical value of a [`SendStep`].
pub struct SendStepView {
    pub message: TransferMessageView,
    pub progress: Option<(nat, nat)>,
}

impl View for SendStep {
    type V = SendStepView;

    open spec fn view(&self) -> SendStepView {
        SendStepView {
            message: self.message@,
            progress: match self.progress {
                Some((sent, total)) => Some((sent as nat, total as nat)),
                None => None,
            },
        }
    }
}

/// The values of a sequence of steps, in the same order.
pub open spec fn step_views(steps: Seq<SendStep>) -> Seq<SendStepView> {
    steps.map_values(|s: SendStep| s@)
}

/// The values of a sequence of messages, in the same order.
pub open spec fn message_views(messages: Seq<TransferMessage>) -> Seq<TransferMessageView> {
    messages.map_values(|m: TransferMessage| m@)
}

/// The message that opens the transfer of a file.
pub open spec fn start_message(
    data: Seq<u8>,
    chunk_size: nat,
    file_name: Seq<char>,
) -> TransferMessageView {
    TransferMessageView::StartTransfer {
        file_name,
        file_size: data.len(),
        total_chunks: chunk_count(data.len(), chunk_size),
    }
}

/// The message that carries a chunk.
pub open spec fn chunk_message(c: FileChunkView) -> TransferMessageView {
    TransferMessageView::Chunk { chunk_id: c.chunk_id, data: c.data }
}

/// The bytes that have gone out once the chunks up to and including chunk `i`
/// are sent.
pub open spec fn sent_after(chunks: Seq<FileChunkView>, i: int) -> nat {
    concat_data(chunks.take(i + 1)).len()
}

/// Step `i` of sending a file: the opening message, then the chunks in
/// ascending order of id, each followed by a progress report, then the closing
/// message.
pub open spec fn send_step(
    data: Seq<u8>,
    chunk_size: nat,
    file_name: Seq<char>,
    i: int,
) -> SendStepView {
    let chunks = split_spec(data, chunk_size, file_name);
    if i == 0 {
        SendStepView { message: start_message(data, chunk_size, file_name), progress: None }
    } else if i <= chunks.len() {
        SendStepView {
            message: chunk_message(chunks[i - 1]),
            progress: Some((sent_after(chunks, i - 1), data.len())),
        }
    } else {
        SendStepView { message: TransferMessageView::Complete, progress: None }
    }
}

/// All the steps of sending a file, in order.
pub open spec fn send_steps(data: Seq<u8>, chunk_size: nat, file_name: Seq<char>) -> Seq<
    SendStepView,
> {
    Seq::new(
        chunk_count(data.len(), chunk_size) + 2,
        |i: int| send_step(data, chunk_size, file_name, i),
    )
}

/// All the messages of sending a file, in order.
pub open spec fn send_messages(data: Seq<u8>, chunk_size: nat, file_name: Seq<char>) -> Seq<
    TransferMessageView,
> {
    send_steps(data, chunk_size, file_name).map_values(|s: SendStepView| s.message)
}

/// Whether a path names content held by another application rather than a
/// file.
pub open spec fn is_content_uri(path: Seq<char>) -> bool {
    "content://"@.is_prefix_of(path)
}

pub open spec fn content_uri_message() -> Seq<char> {
    "Content URI detected. Please use Tauri's Android FS plugin to read the file first."@
}

/// What planning a transfer gives for a file whose name is known or not.
pub open spec fn plan_spec(
    file_name: Option<Seq<char>>,
    data: Seq<u8>,
    chunk_size: nat,
) -> Result<Seq<SendStepView>, ErrorView> {
    match file_name {
        Some(name) => Ok(send_steps(data, chunk_size, name)),
        None => Err(ErrorView::File("Invalid file path"@)),
    }
}

/// The value of a planning result.
pub open spec fn plan_result_view(r: Result<Vec<SendStep>, Error>) -> Result<
    Seq<SendStepView>,
    ErrorView,
> {
    match r {
        Ok(steps) => Ok(step_views(steps@)),
        Err(e) => Err(e@),
    }
}

/// The value of a result that holds messages.
pub open spec fn messages_result_view(r: Result<Vec<TransferMessage>, Error>) -> Result<
    Seq<TransferMessageView>,
    ErrorView,
> {
    match r {
        Ok(messages) => Ok(message_views(messages@)),
        Err(e) => Err(e@),
    }
}

/// The messages of a plan, without the progress reports.
pub open spec fn plan_messages(plan: Result<Seq<SendStepView>, ErrorView>) -> Result<
    Seq<TransferMessageView>,
    ErrorView,
> {
    match plan {
        Ok(steps) => Ok(steps.map_values(|s: SendStepView| s.message)),
        Err(e) => Err(e),
    }
}

/// `std::path::Path::file_name` on the path written in `path`: the last
/// component where the path has one that is a name, as text where it is valid
/// Unicode. What counts as a separator depends on the platform, so nothing is
/// claimed of the result.
#[verifier::external_body]
pub(crate) fn final_component(path: &str) -> (name: Option<String>) {
    std::path::Path::new(path).file_name().and_then(|n| n.to_str()).map(|s| s.to_string())
}

/// Sends and receives files in chunks of a fixed size.
pub struct FileTransfer {
    chunk_size: usize,
}

impl FileTransfer {
    #[verifier::type_invariant]
    spec fn positive_chunk_size(self) -> bool {
        self.chunk_size > 0
    }

    /// The size of a chunk in bytes.
    pub closed spec fn spec_chunk_size(&self) -> nat {
        self.chunk_size as nat
    }

    /// A transfer engine that cuts files into chunks of one mebibyte.
    pub fn new() -> (t: FileTransfer)
        ensures
            t.spec_chunk_size() == 1024 * 1024,
    {
        FileTransfer { chunk_size: 1024 * 1024 }
    }

    /// The size of a chunk in bytes.
    pub fn chunk_size(&self) -> (n: usize)
        ensures
            n == self.spec_chunk_size(),
            n > 0,
    {
        proof {
            use_type_invariant(self);
        }
        self.chunk_size
    }

    /// The steps of sending the bytes `data` of a file under the name
    /// `file_name`; without a name there is nothing to send.
    pub fn plan_transfer(&self, file_name: Option<String>, data: &[u8]) -> (r: Result<
        Vec<SendStep>,
        Error,
    >)
        ensures
            plan_result_view(r) == plan_spec(
                match file_name {
                    Some(n) => Some(n@),
                    None => None,
                },
                data@,
                self.spec_chunk_size(),
            ),
    {
        proof {
            use_type_invariant(self);
        }
        let name = match file_name {
            Some(n) => n,
            None => {
                return Err(Error::File(String::from_str("Invalid file path")));
            },
        };
        let ghost cs = self.chunk_size as nat;
        let ghost pieces = split_spec(data@, cs, name@);
        let chunks = FileChunk::split_file(data, self.chunk_size, name.clone());
        let total: usize = chunks.len();
        let file_size: u64 = data.len() as u64;
        let mut steps: Vec<SendStep> = Vec::new();
        steps.push(
            SendStep {
                message: TransferMessage::StartTransfer {
                    file_name: name,
                    file_size,
                    total_chunks: total as u64,
                },
                progress: None,
            },
        );
        let mut sent: u64 = 0;
        for c in it: chunks
            invariant
                cs > 0,
                pieces == split_spec(data@, cs, name@),
                views(it.seq()) == pieces,
                file_size == data@.len(),
                steps@.len() == it.index() + 1,
                sent == concat_data(pieces.take(it.index() as int)).len(),
                forall|k: int|
                    0 <= k <= it.index() ==> (#[trigger] steps@[k])@ == send_step(
                        data@,
                        cs,
                        name@,
                        k,
                    ),
        {
            proof {
                let i = it.index() as int;
                assert(views(it.seq())[i] == c@);
                lemma_sent_bytes(data@, cs, name@, (i + 1) as nat);
                assert(pieces.take(i + 1).drop_last() =~= pieces.take(i));
            }
            sent = sent + c.data.len() as u64;
            steps.push(
                SendStep {
                    message: TransferMessage::Chunk { chunk_id: c.chunk_id, data: c.data },
                    progress: Some((sent, file_size)),
                },
            );
        }
        steps.push(SendStep { message: TransferMessage::Complete, progress: None });
        assert(step_views(steps@) =~= send_steps(data@, cs, name@));
        Ok(steps)
    }

    /// Whether `path` names content held by another application; such content
    /// has to be read by the platform before it can be sent.
    pub fn is_content_uri(path: &str) -> (r: bool)
        ensures
            r == is_content_uri(path@),
    {
        let text = chars_of(path);
        let prefix = chars_of("content://");
        begins_with(&text, &prefix)
    }

    /// The steps of sending the file at `file_path`, whose bytes are
    /// `file_data`, with a progress report after every chunk. A content URI is
    /// refused. The file goes out under the last component of its path; a
    /// path without one is refused.
    pub fn send_file_with_progress(&self, file_path: &str, file_data: &[u8]) -> (r: Result<
        Vec<SendStep>,
        Error,
    >)
        ensures
            is_content_uri(file_path@) ==> plan_result_view(r) == Err::<
                Seq<SendStepView>,
                ErrorView,
            >(ErrorView::File(content_uri_message())),
            !is_content_uri(file_path@) ==> exists|name: Option<Seq<char>>|
                plan_result_view(r) == plan_spec(name, file_data@, self.spec_chunk_size()),
    {
        if FileTransfer::is_content_uri(file_path) {
            return Err(
                Error::File(
                    String::from_str(
                        "Content URI detected. Please use Tauri's Android FS plugin to read the file first.",
                    ),
                ),
            );
        }
        let name = final_component(file_path);
        let ghost name_view: Option<Seq<char>> = match &name {
            Some(n) => Some(n@),
            None => None,
        };
        let r = self.plan_transfer(name, file_data);
        assert(plan_result_view(r) == plan_spec(name_view, file_data@, self.spec_chunk_size()));
        r
    }

    /// The messages of sending the file at `file_path`, whose bytes are
    /// `file_data`, in the order in which they go out.
    pub fn send_file(&self, file_path: &str, file_data: &[u8]) -> (r: Result<
        Vec<TransferMessage>,
        Error,
    >)
        ensures
            is_content_uri(file_path@) ==> messages_result_view(r) == Err::<
                Seq<TransferMessageView>,
                ErrorView,
            >(ErrorView::File(content_uri_message())),
            !is_content_uri(file_path@) ==> exists|name: Option<Seq<char>>|
                messages_result_view(r) == plan_messages(
                    plan_spec(name, file_data@, self.spec_chunk_size()),
                ),
    {
        match self.send_file_with_progress(file_path, file_data) {
            Ok(steps) => {
                let ghost plan = step_views(steps@);
                let mut messages: Vec<TransferMessage> = Vec::new();
                for step in it: steps
                    invariant
                        step_views(it.seq()) == plan,
                        messages@.len() == it.index(),
                        forall|k: int|
                            0 <= k < it.index() ==> (#[trigger] messages@[k])@ == plan[k].message,
                {
                    assert(step_views(it.seq())[it.index() as int] == step@);
                    messages.push(step.message);
                }
                assert(message_views(messages@) =~= plan.map_values(|s: SendStepView| s.message));
                proof {
                    if !is_content_uri(file_path@) {
                        let name = choose|name: Option<Seq<char>>|
                            Ok::<Seq<SendStepView>, ErrorView>(plan) == plan_spec(
                                name,
                                file_data@,
                                self.spec_chunk_size(),
                            );
                        assert(messages_result_view(Ok(messages)) == plan_messages(
                            plan_spec(name, file_data@, self.spec_chunk_size()),
                        ));
                    }
                }
                Ok(messages)
            },
            Err(e) => {
                proof {
                    if !is_content_uri(file_path@) {
                        let name = choose|name: Option<Seq<char>>|
                            Err::<Seq<SendStepView>, ErrorView>(e@) == plan_spec(
                                name,
                                file_data@,
                                self.spec_chunk_size(),
                            );
                        assert(messages_result_view(Err(e)) == plan_messages(
                            plan_spec(name, file_data@, self.spec_chunk_size()),
                        ));
                    }
                }
                Err(e)
            },
        }
    }
}

/// Whether a character separates the components of a path.
pub open spec fn is_separator(c: char) -> bool {
    c == '/' || c == '\\'
}

/// Whether a path ends in a separator.
pub open spec fn ends_in_separator(path: Seq<char>) -> bool {
    path.len() > 0 && is_separator(path.last())
}

/// Where a received file is written. A target that is a directory on disk,
/// or that ends in a separator, takes the file's name inside it; any other
/// target is the path of the file itself.
pub open spec fn save_path_spec(
    save_path: Seq<char>,
    is_directory: bool,
    file_name: Seq<char>,
) -> Seq<char> {
    if ends_in_separator(save_path) {
        save_path + file_name
    } else if is_directory {
        save_path + "/"@ + file_name
    } else {
        save_path
    }
}

/// Where to write a received file named `file_name`, given the target that the
/// caller chose and whether that target is a directory on disk.
pub fn resolve_save_path(save_path: &str, is_directory: bool, file_name: &str) -> (path: String)
    ensures
        path@ == save_path_spec(save_path@, is_directory, file_name@),
{
    let mut path = String::from_str(save_path);
    let text = chars_of(save_path);
    let n = text.len();
    if n > 0 && (text[n - 1] == '/' || text[n - 1] == '\\') {
        path.append(file_name);
    } else if is_directory {
        path.append("/");
        path.append(file_name);
    }
    path
}

/// How much of a transfer is done, in whole percent, as a 32-bit number; a
/// transfer of nothing counts as not begun.
pub open spec fn percent_spec(sent: nat, total: nat) -> nat {
    if total == 0 {
        0
    } else {
        (sent * 100 / total) % 0x1_0000_0000
    }
}

/// How much of a transfer is done, in whole percent.
pub fn progress_percent(sent: u64, total: u64) -> (p: u32)
    ensures
        p == percent_spec(sent as nat, total as nat),
        0 < total && sent <= total ==> p == sent * 100 / (total as int) && p <= 100,
{
    if total == 0 {
        0
    } else {
        let wide: u128 = (sent as u128) * 100 / (total as u128);
        proof {
            if sent <= total {
                assert(sent * 100 / (total as int) <= 100) by (nonlinear_arith)
                    requires
                        0 <= sent <= total,
                        0 < total,
                ;
                assert(0 <= sent * 100 / (total as int)) by (nonlinear_arith)
                    requires
                        0 <= sent,
                        0 < total,
                ;
            }
        }
        (wide % 0x1_0000_0000) as u32
    }
}

} // verus!
