//! Showing one device's screen on another: frames, their travel as framed
//! messages, and the session that sends or receives them.

pub mod capture;
pub mod envelope;
pub mod stream;

pub use capture::ScreenCapture;
pub use stream::ProjectionStream;

use vstd::prelude::*;

verus! {

/// One picture of the screen.
#[derive(Debug, Clone, PartialEq, Eq)]
pub struct ProjectionFrame {
    /// The picture, compressed.
    pub data: Vec<u8>,
    pub width: u32,
    pub height: u32,
    /// When the picture was taken, in milliseconds since 1970.
    pub timestamp: u64,
}

/// The mathematical value of a [`ProjectionFrame`].
pub struct ProjectionFrameView {
    pub data: Seq<u8>,
    pub width: u32,
    pub height: u32,
    pub timestamp: u64,
}

impl View for ProjectionFrame {
    type V = ProjectionFrameView;

    open spec fn view(&self) -> ProjectionFrameView {
        ProjectionFrameView {
            data: self.data@,
            width: self.width,
            height: self.height,
            timestamp: self.timestamp,
        }
    }
}

/// How a screen is shown.
#[derive(Debug, Clone, Copy, PartialEq, Eq, Structural)]
pub struct ProjectionConfig {
    /// Frames per second.
    pub fps: u32,
    /// The quality of compression, from 0 to 100.
    pub quality: u8,
    /// The widest frame to send, if there is a limit.
    pub max_width: Option<u32>,
    /// The tallest frame to send, if there is a limit.
    pub max_height: Option<u32>,
}

impl Default for ProjectionConfig {
    /// Ten frames per second at quality 75, no larger than 1920 by 1080.
    fn default() -> (c: ProjectionConfig)
        ensures
            c == (ProjectionConfig {
                fps: 10,
                quality: 75,
                max_width: Some(1920),
                max_height: Some(1080),
            }),
    {
        ProjectionConfig { fps: 10, quality: 75, max_width: Some(1920), max_height: Some(1080) }
    }
}

impl ProjectionConfig {
    /// The configuration that a request for projection asks for: the given
    /// frame rate and quality, or ten frames per second and quality 75 where
    /// the request names none, no larger than 1920 by 1080.
    pub fn requested(fps: Option<u32>, quality: Option<u8>) -> (c: ProjectionConfig)
        ensures
            c == (ProjectionConfig {
                fps: match fps {
                    Some(f) => f,
                    None => 10,
                },
                quality: match quality {
                    Some(q) => q,
                    None => 75,
                },
                max_width: Some(1920),
                max_height: Some(1080),
            }),
    {
        ProjectionConfig {
            fps: match fps {
                Some(f) => f,
                None => 10,
            },
            quality: match quality {
                Some(q) => q,
                None => 75,
            },
            max_width: Some(1920),
            max_height: Some(1080),
        }
    }
}

} // verus!
