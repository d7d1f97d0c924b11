//! The session that sends a screen to a peer, or receives one, frame by frame
//! over one connection.

use super::envelope::{decode_frame, decode_spec, FrameDefect, FrameDefectView};
use super::{ProjectionConfig, ProjectionFrame, ProjectionFrameView};
use crate::{Error, ErrorView};
use vstd::prelude::*;
use vstd::string::*;

verus! {

/// The nanoseconds in a second.
pub const NANOS_PER_SECOND: u64 = 1_000_000_000;

/// The state of a projection session.
#[derive(Debug, Clone, Copy, PartialEq, Eq, Structural)]
pub struct ProjectionStream {
    /// Whether the session holds a connection to the peer.
    pub connected: bool,
    /// Whether frames are to flow.
    pub streaming: bool,
    pub config: ProjectionConfig,
}

/// How an attempt to send a frame came out.
#[derive(Debug, Clone, Copy, PartialEq, Eq, Structural)]
pub enum SendOutcome {
    Sent,
    Failed,
    NoConnection,
}

/// What came of waiting for the peer's next message.
#[derive(Debug, Clone, PartialEq, Eq)]
pub enum Received {
    /// A message arrived; this is its payload.
    Payload(Vec<u8>),
    /// The connection failed.
    Failed,
    /// There is no connection.
    NoConnection,
}

/// The mathematical value of a [`Received`].
pub enum ReceivedView {
    Payload(Seq<u8>),
    Failed,
    NoConnection,
}

impl View for Received {
    type V = ReceivedView;

    open spec fn view(&self) -> ReceivedView {
        match self {
            Received::Payload(p) => ReceivedView::Payload(p@),
            Received::Failed => ReceivedView::Failed,
            Received::NoConnection => ReceivedView::NoConnection,
        }
    }
}

/// What to do with what arrived.
#[derive(Debug, Clone, PartialEq, Eq)]
pub enum FrameStep {
    /// Show this frame, then wait for the next message.
    Deliver(ProjectionFrame),
    /// The message was no frame: pass it over and wait for the next.
    Skip(FrameDefect),
    /// End the loop.
    Stop,
}

/// The mathematical value of a [`FrameStep`].
pub enum FrameStepView {
    Deliver(ProjectionFrameView),
    Skip(FrameDefectView),
    Stop,
}

impl View for FrameStep {
    type V = FrameStepView;

    open spec fn view(&self) -> FrameStepView {
        match self {
            FrameStep::Deliver(f) => FrameStepView::Deliver(f@),
            FrameStep::Skip(d) => FrameStepView::Skip(d@),
            FrameStep::Stop => FrameStepView::Stop,
        }
    }
}

/// What a receiving session makes of what arrived: a payload that carries a
/// frame delivers it, any other payload is passed over, and without a working
/// connection the flow ends.
pub open spec fn received_spec(s: ProjectionStream, r: ReceivedView) -> (
    ProjectionStream,
    FrameStepView,
) {
    match r {
        ReceivedView::Payload(p) => match decode_spec(p) {
            Ok(frame) => (s, FrameStepView::Deliver(frame)),
            Err(defect) => (s, FrameStepView::Skip(defect)),
        },
        _ => (ProjectionStream { streaming: false, ..s }, FrameStepView::Stop),
    }
}

pub open spec fn already_streaming_message() -> Seq<char> {
    "Already streaming"@
}

pub open spec fn no_frame_rate_message() -> Seq<char> {
    "Frame rate must be positive"@
}

/// What a request to stream does to a session: the new state and the time
/// from one frame to the next in nanoseconds, or the reason why not.
pub open spec fn start_streaming_spec(s: ProjectionStream) -> Result<
    (ProjectionStream, u64),
    ErrorView,
> {
    if s.streaming {
        Err(ErrorView::Protocol(already_streaming_message()))
    } else if s.config.fps == 0 {
        Err(ErrorView::Protocol(no_frame_rate_message()))
    } else {
        Ok(
            (
                ProjectionStream { streaming: true, ..s },
                (NANOS_PER_SECOND / (s.config.fps as u64)) as u64,
            ),
        )
    }
}

/// The state after a request together with the value of its result.
pub open spec fn streaming_result_view(after: ProjectionStream, r: Result<u64, Error>) -> Result<
    (ProjectionStream, u64),
    ErrorView,
> {
    match r {
        Ok(interval) => Ok((after, interval)),
        Err(e) => Err(e@),
    }
}

impl ProjectionStream {
    /// A session without a connection, in which nothing flows.
    pub fn new(config: ProjectionConfig) -> (s: ProjectionStream)
        ensures
            s == (ProjectionStream { connected: false, streaming: false, config }),
    {
        ProjectionStream { connected: false, streaming: false, config }
    }

    /// Notes that the connection to the peer stands.
    pub fn connect(&mut self) -> (r: Result<(), Error>)
        ensures
            r is Ok,
            *final(self) == (ProjectionStream { connected: true, ..*old(self) }),
    {
        self.connected = true;
        Ok(())
    }

    /// Asks for frames to be sent. Gives the time from one frame to the next
    /// in nanoseconds. Fails where frames flow already.
    pub fn start_streaming(&mut self) -> (r: Result<u64, Error>)
        ensures
            streaming_result_view(*final(self), r) == start_streaming_spec(*old(self)),
            r is Err ==> *final(self) == *old(self),
    {
        if self.streaming {
            return Err(Error::Protocol(String::from_str("Already streaming")));
        }
        if self.config.fps == 0 {
            return Err(Error::Protocol(String::from_str("Frame rate must be positive")));
        }
        self.streaming = true;
        Ok(NANOS_PER_SECOND / (self.config.fps as u64))
    }

    /// Asks for frames to stop flowing.
    pub fn stop_streaming(&mut self) -> (r: Result<(), Error>)
        ensures
            r is Ok,
            *final(self) == (ProjectionStream { streaming: false, ..*old(self) }),
    {
        self.streaming = false;
        Ok(())
    }

    /// Asks for frames to be received.
    pub fn receive_stream(&mut self) -> (r: Result<(), Error>)
        ensures
            r is Ok,
            *final(self) == (ProjectionStream { streaming: true, ..*old(self) }),
    {
        self.streaming = true;
        Ok(())
    }

    /// Ends the session: nothing flows and the connection is let go.
    pub fn close(&mut self) -> (r: Result<(), Error>)
        ensures
            r is Ok,
            *final(self) == (ProjectionStream {
                connected: false,
                streaming: false,
                ..*old(self)
            }),
    {
        self.streaming = false;
        self.connected = false;
        Ok(())
    }

    /// Whether the loop that sends or receives frames takes another turn.
    pub fn keeps_going(&self) -> (r: bool)
        ensures
            r == self.streaming,
    {
        self.streaming
    }

    /// Takes what came of sending a frame. A frame that went out keeps the
    /// loop going; a failure or a missing connection ends the flow. Says
    /// whether the loop takes another turn.
    pub fn on_sent(&mut self, outcome: SendOutcome) -> (r: bool)
        ensures
            r == (outcome == SendOutcome::Sent),
            *final(self) == (ProjectionStream {
                streaming: old(self).streaming && outcome == SendOutcome::Sent,
                ..*old(self)
            }),
    {
        if outcome == SendOutcome::Sent {
            true
        } else {
            self.streaming = false;
            false
        }
    }

    /// Takes what came of waiting for the peer's next message and says what
    /// to do with it.
    pub fn on_received(&mut self, received: Received) -> (step: FrameStep)
        ensures
            (*final(self), step@) == received_spec(*old(self), received@),
    {
        match received {
            Received::Payload(payload) => match decode_frame(payload.as_slice()) {
                Ok(frame) => FrameStep::Deliver(frame),
                Err(defect) => FrameStep::Skip(defect),
            },
            _ => {
                self.streaming = false;
                FrameStep::Stop
            },
        }
    }
}

} // verus!
