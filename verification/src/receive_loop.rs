//! The background loop that takes transfers on the listener in the shared
//! slot. The loop itself is the caller's; each turn of it is decided here.
//!
//! A turn: the caller asks for the slot, waiting at most [`SLOT_WAIT_MS`]. If
//! the slot holds a listener, the caller runs one receive session on it,
//! waiting for a peer at most [`ACCEPT_WAIT_MS`], so that the slot is let go of
//! in bounded time even when no peer connects. The caller reports what
//! happened and is told how to go on.

use crate::file::transfer::final_component;
use crate::text::join2;
use crate::{Error, ErrorView};
use vstd::prelude::*;
use vstd::string::*;

verus! {

/// The longest to wait for the listener slot, in milliseconds.
pub const SLOT_WAIT_MS: u64 = 100;

/// The longest to wait for a peer to connect.
pub const ACCEPT_WAIT_MS: u64 = 1_000;

/// The pause after the slot could not be had.
pub const SLOT_RETRY_PAUSE_MS: u64 = 100;

/// The pause after no peer connected.
pub const IDLE_PAUSE_MS: u64 = 50;

/// The pause after a receive session failed.
pub const ERROR_PAUSE_MS: u64 = 100;

/// What happened in one turn of the loop.
#[derive(Debug, Clone, PartialEq, Eq)]
pub enum LoopEvent {
    /// The slot could not be had in time.
    SlotTimedOut,
    /// The slot holds no listener: the service has been stopped.
    SlotEmpty,
    /// The directory for received files could not be made.
    DirectoryUnavailable(String),
    /// No peer connected in time.
    AcceptTimedOut,
    /// A file arrived and was written to this path.
    Received(String),
    /// The receive session failed.
    Failed(Error),
}

/// The mathematical value of a [`LoopEvent`].
pub enum LoopEventView {
    SlotTimedOut,
    SlotEmpty,
    DirectoryUnavailable(Seq<char>),
    AcceptTimedOut,
    Received(Seq<char>),
    Failed(ErrorView),
}

impl View for LoopEvent {
    type V = LoopEventView;

    open spec fn view(&self) -> LoopEventView {
        match self {
            LoopEvent::SlotTimedOut => LoopEventView::SlotTimedOut,
            LoopEvent::SlotEmpty => LoopEventView::SlotEmpty,
            LoopEvent::DirectoryUnavailable(reason) => LoopEventView::DirectoryUnavailable(reason@),
            LoopEvent::AcceptTimedOut => LoopEventView::AcceptTimedOut,
            LoopEvent::Received(path) => LoopEventView::Received(path@),
            LoopEvent::Failed(e) => LoopEventView::Failed(e@),
        }
    }
}

/// How the loop goes on.
#[derive(Debug, Clone, PartialEq, Eq)]
pub enum LoopAction {
    /// Pause, then take the next turn.
    Retry { pause_ms: u64 },
    /// Tell the user of the file, then take the next turn at once.
    Notify { file_path: String, file_name: String },
    /// Tell the user of the failure, pause, then take the next turn.
    Report { message: String, pause_ms: u64 },
    /// End the loop for good.
    Exit,
}

/// The mathematical value of a [`LoopAction`].
pub enum LoopActionView {
    Retry { pause_ms: u64 },
    Notify { file_path: Seq<char>, file_name: Seq<char> },
    Report { message: Seq<char>, pause_ms: u64 },
    Exit,
}

impl View for LoopAction {
    type V = LoopActionView;

    open spec fn view(&self) -> LoopActionView {
        match self {
            LoopAction::Retry { pause_ms } => LoopActionView::Retry { pause_ms: *pause_ms },
            LoopAction::Notify { file_path, file_name } => LoopActionView::Notify {
                file_path: file_path@,
                file_name: file_name@,
            },
            LoopAction::Report { message, pause_ms } => LoopActionView::Report {
                message: message@,
                pause_ms: *pause_ms,
            },
            LoopAction::Exit => LoopActionView::Exit,
        }
    }
}

/// How the loop goes on after a turn. `name` is the last component of the
/// path of the file that arrived, where the turn brought a file and the path
/// has one.
///
/// An empty slot ends the loop. A slot that could not be had and a peer that
/// did not come are no failures: the loop pauses and goes on. A failure is
/// reported, and the loop pauses so that a peer that misbehaves cannot keep it
/// spinning.
pub open spec fn loop_step(e: LoopEventView, name: Option<Seq<char>>) -> LoopActionView {
    match e {
        LoopEventView::SlotTimedOut => LoopActionView::Retry { pause_ms: SLOT_RETRY_PAUSE_MS },
        LoopEventView::SlotEmpty => LoopActionView::Exit,
        LoopEventView::DirectoryUnavailable(reason) => LoopActionView::Report {
            message: "Failed to create save directory: "@ + reason,
            pause_ms: ERROR_PAUSE_MS,
        },
        LoopEventView::AcceptTimedOut => LoopActionView::Retry { pause_ms: IDLE_PAUSE_MS },
        LoopEventView::Received(path) => LoopActionView::Notify {
            file_path: path,
            file_name: match name {
                Some(n) => n,
                None => "unknown"@,
            },
        },
        LoopEventView::Failed(e) => LoopActionView::Report {
            message: "File receive error: "@ + e.display(),
            pause_ms: ERROR_PAUSE_MS,
        },
    }
}

/// How the loop goes on after a turn, given the last component of the path of
/// the file that arrived, if any.
pub fn decide(event: LoopEvent, name: Option<String>) -> (a: LoopAction)
    ensures
        a@ == loop_step(
            event@,
            match name {
                Some(n) => Some(n@),
                None => None,
            },
        ),
{
    match event {
        LoopEvent::SlotTimedOut => LoopAction::Retry { pause_ms: SLOT_RETRY_PAUSE_MS },
        LoopEvent::SlotEmpty => LoopAction::Exit,
        LoopEvent::DirectoryUnavailable(reason) => LoopAction::Report {
            message: join2("Failed to create save directory: ", reason.as_str()),
            pause_ms: ERROR_PAUSE_MS,
        },
        LoopEvent::AcceptTimedOut => LoopAction::Retry { pause_ms: IDLE_PAUSE_MS },
        LoopEvent::Received(path) => LoopAction::Notify {
            file_path: path,
            file_name: match name {
                Some(n) => n,
                None => String::from_str("unknown"),
            },
        },
        LoopEvent::Failed(e) => {
            let shown = e.to_string();
            LoopAction::Report {
                message: join2("File receive error: ", shown.as_str()),
                pause_ms: ERROR_PAUSE_MS,
            }
        },
    }
}

/// How the loop goes on after a turn.
pub fn receive_loop_step(event: LoopEvent) -> (a: LoopAction)
    ensures
        exists|name: Option<Seq<char>>| a@ == loop_step(event@, name),
{
    let name = match &event {
        LoopEvent::Received(path) => final_component(path.as_str()),
        _ => None,
    };
    let ghost name_view: Option<Seq<char>> = match &name {
        Some(n) => Some(n@),
        None => None,
    };
    let ghost e = event@;
    let a = decide(event, name);
    assert(a@ == loop_step(e, name_view));
    a
}

} // verus!
