//! A frame on the wire: a JSON object with the frame's `width`, `height` and
//! `timestamp` as numbers and its `data` as base64 text.

use super::{ProjectionFrame, ProjectionFrameView};
use base64::Engine;
use vstd::prelude::*;
use vstd::string::*;

verus! {

/// The standard base64 text, with padding, of a row of bytes.
pub uninterp spec fn base64_text(data: Seq<u8>) -> Seq<char>;

/// The bytes that a piece of text stands for in standard base64 with padding,
/// if it stands for any.
pub uninterp spec fn base64_bytes(text: Seq<char>) -> Option<Seq<u8>>;

/// The JSON text, as bytes, of the object with the members `width`, `height`,
/// `timestamp` and `data`, if it can be written.
pub uninterp spec fn envelope_bytes(
    width: u32,
    height: u32,
    timestamp: u64,
    data: Seq<char>,
) -> Option<Seq<u8>>;

/// What a payload holds when it is read as JSON: the members `width`,
/// `height` and `timestamp` as unsigned numbers and the member `data` as
/// text, each only where the payload is an object that has such a member of
/// that kind; or the parser's complaint where the payload is no JSON.
pub uninterp spec fn envelope_fields(payload: Seq<u8>) -> Result<
    (Option<u64>, Option<u64>, Option<u64>, Option<Seq<char>>),
    Seq<char>,
>;

/// The value of bytes that may be missing.
pub open spec fn bytes_view(b: Option<Vec<u8>>) -> Option<Seq<u8>> {
    match b {
        Some(b) => Some(b@),
        None => None,
    }
}

/// The members of a frame's envelope, as far as they are there.
#[derive(Debug, Clone, PartialEq, Eq)]
pub struct FrameFields {
    pub width: Option<u64>,
    pub height: Option<u64>,
    pub timestamp: Option<u64>,
    pub data: Option<String>,
}

impl FrameFields {
    pub open spec fn parts(self) -> (Option<u64>, Option<u64>, Option<u64>, Option<Seq<char>>) {
        (
            self.width,
            self.height,
            self.timestamp,
            match self.data {
                Some(text) => Some(text@),
                None => None,
            },
        )
    }
}

/// The value of the result of reading an envelope.
pub open spec fn fields_view(r: Result<FrameFields, String>) -> Result<
    (Option<u64>, Option<u64>, Option<u64>, Option<Seq<char>>),
    Seq<char>,
> {
    match r {
        Ok(fields) => Ok(fields.parts()),
        Err(complaint) => Err(complaint@),
    }
}

/// Whether the base64 text of that many bytes has a length that the machine
/// can hold.
pub open spec fn encodable(len: nat) -> bool {
    len / 3 * 4 + 4 <= usize::MAX
}

/// `base64::Engine::encode` of the engine `STANDARD`: the base64 text of
/// `data`, in the standard alphabet, with padding. The function panics where
/// the length of the text does not fit the machine, so such input is kept out.
#[verifier::external_body]
fn base64_encode(data: &[u8]) -> (text: String)
    requires
        encodable(data@.len()),
    ensures
        text@ == base64_text(data@),
{
    base64::engine::general_purpose::STANDARD.encode(data)
}

/// `base64::Engine::decode` of the engine `STANDARD`: the bytes that `text`
/// stands for, or nothing where `text` is not base64 in the standard alphabet
/// with padding.
#[verifier::external_body]
fn base64_decode(text: &str) -> (data: Option<Vec<u8>>)
    ensures
        bytes_view(data) == base64_bytes(text@),
{
    base64::engine::general_purpose::STANDARD.decode(text).ok()
}

/// `serde_json::to_vec` of the object with the four members of an envelope:
/// its JSON text as bytes, or nothing where the serializer fails.
#[verifier::external_body]
fn envelope_json(width: u32, height: u32, timestamp: u64, data: &str) -> (payload: Option<Vec<u8>>)
    ensures
        bytes_view(payload) == envelope_bytes(width, height, timestamp, data@),
{
    let mut object = serde_json::Map::new();
    object.insert("width".to_string(), serde_json::Value::from(width));
    object.insert("height".to_string(), serde_json::Value::from(height));
    object.insert("timestamp".to_string(), serde_json::Value::from(timestamp));
    object.insert("data".to_string(), serde_json::Value::from(data));
    serde_json::to_vec(&serde_json::Value::Object(object)).ok()
}

/// `serde_json::from_slice` into a `serde_json::Value`, and of that value the
/// members `width`, `height`, `timestamp` (`Value::as_u64`) and `data`
/// (`Value::as_str`); the parser's complaint where the payload is no JSON.
#[verifier::external_body]
fn read_envelope(payload: &[u8]) -> (r: Result<FrameFields, String>)
    ensures
        fields_view(r) == envelope_fields(payload@),
{
    let json: serde_json::Value = serde_json::from_slice(payload).map_err(|e| e.to_string())?;
    Ok(
        FrameFields {
            width: json["width"].as_u64(),
            height: json["height"].as_u64(),
            timestamp: json["timestamp"].as_u64(),
            data: json["data"].as_str().map(|s| s.to_string()),
        },
    )
}

/// Why a payload is no frame.
#[derive(Debug, Clone, PartialEq, Eq)]
pub enum FrameDefect {
    /// The payload is no JSON; the parser's complaint.
    Unparseable(String),
    InvalidWidth,
    InvalidHeight,
    InvalidTimestamp,
    /// There is no `data` member that is text.
    InvalidData,
    /// The `data` member is no base64.
    InvalidBase64,
}

/// The mathematical value of a [`FrameDefect`].
pub enum FrameDefectView {
    Unparseable(Seq<char>),
    InvalidWidth,
    InvalidHeight,
    InvalidTimestamp,
    InvalidData,
    InvalidBase64,
}

impl View for FrameDefect {
    type V = FrameDefectView;

    open spec fn view(&self) -> FrameDefectView {
        match self {
            FrameDefect::Unparseable(complaint) => FrameDefectView::Unparseable(complaint@),
            FrameDefect::InvalidWidth => FrameDefectView::InvalidWidth,
            FrameDefect::InvalidHeight => FrameDefectView::InvalidHeight,
            FrameDefect::InvalidTimestamp => FrameDefectView::InvalidTimestamp,
            FrameDefect::InvalidData => FrameDefectView::InvalidData,
            FrameDefect::InvalidBase64 => FrameDefectView::InvalidBase64,
        }
    }
}

/// The value of a frame or the reason why there is none.
pub open spec fn frame_result_view(r: Result<ProjectionFrame, FrameDefect>) -> Result<
    ProjectionFrameView,
    FrameDefectView,
> {
    match r {
        Ok(frame) => Ok(frame@),
        Err(defect) => Err(defect@),
    }
}

/// A number cut to its low 32 bits.
pub open spec fn low_32(n: u64) -> u32 {
    (n % 0x1_0000_0000) as u32
}

/// The frame that the members of an envelope make. `data` is the `data`
/// member as far as it got: missing, text that is no base64, or bytes. The
/// first member that is missing or of the wrong kind, in the order width,
/// height, timestamp, data, says why there is no frame. Width and height are
/// cut to 32 bits.
pub open spec fn frame_of_parts(
    width: Option<u64>,
    height: Option<u64>,
    timestamp: Option<u64>,
    data: Option<Option<Seq<u8>>>,
) -> Result<ProjectionFrameView, FrameDefectView> {
    if width is None {
        Err(FrameDefectView::InvalidWidth)
    } else if height is None {
        Err(FrameDefectView::InvalidHeight)
    } else if timestamp is None {
        Err(FrameDefectView::InvalidTimestamp)
    } else if data is None {
        Err(FrameDefectView::InvalidData)
    } else if data->0 is None {
        Err(FrameDefectView::InvalidBase64)
    } else {
        Ok(
            ProjectionFrameView {
                data: data->0->0,
                width: low_32(width->0),
                height: low_32(height->0),
                timestamp: timestamp->0,
            },
        )
    }
}

/// The frame that a payload carries, or why it carries none.
pub open spec fn decode_spec(payload: Seq<u8>) -> Result<ProjectionFrameView, FrameDefectView> {
    match envelope_fields(payload) {
        Err(complaint) => Err(FrameDefectView::Unparseable(complaint)),
        Ok((width, height, timestamp, text)) => frame_of_parts(
            width,
            height,
            timestamp,
            match text {
                Some(t) => Some(base64_bytes(t)),
                None => None,
            },
        ),
    }
}

/// The payload that carries a frame, if the frame's picture is small enough
/// for its base64 text to fit the machine and the envelope can be written.
pub open spec fn encode_spec(frame: ProjectionFrameView) -> Option<Seq<u8>> {
    if encodable(frame.data.len()) {
        envelope_bytes(frame.width, frame.height, frame.timestamp, base64_text(frame.data))
    } else {
        None
    }
}

/// The payload that carries `frame`, or nothing where there is none; a frame
/// without a payload is passed over.
pub fn encode_frame(frame: &ProjectionFrame) -> (payload: Option<Vec<u8>>)
    ensures
        bytes_view(payload) == encode_spec(frame@),
{
    if frame.data.len() / 3 > (usize::MAX - 4) / 4 {
        return None;
    }
    let text = base64_encode(frame.data.as_slice());
    envelope_json(frame.width, frame.height, frame.timestamp, text.as_str())
}

/// The frame that the members of an envelope make, or the first reason why
/// they make none.
pub fn frame_from_parts(
    width: Option<u64>,
    height: Option<u64>,
    timestamp: Option<u64>,
    data: Option<Option<Vec<u8>>>,
) -> (r: Result<ProjectionFrame, FrameDefect>)
    ensures
        frame_result_view(r) == frame_of_parts(
            width,
            height,
            timestamp,
            match data {
                Some(d) => Some(bytes_view(d)),
                None => None,
            },
        ),
{
    let w = match width {
        Some(w) => w,
        None => {
            return Err(FrameDefect::InvalidWidth);
        },
    };
    let h = match height {
        Some(h) => h,
        None => {
            return Err(FrameDefect::InvalidHeight);
        },
    };
    let t = match timestamp {
        Some(t) => t,
        None => {
            return Err(FrameDefect::InvalidTimestamp);
        },
    };
    let decoded = match data {
        Some(d) => d,
        None => {
            return Err(FrameDefect::InvalidData);
        },
    };
    let bytes = match decoded {
        Some(b) => b,
        None => {
            return Err(FrameDefect::InvalidBase64);
        },
    };
    Ok(
        ProjectionFrame {
            data: bytes,
            width: (w % 0x1_0000_0000) as u32,
            height: (h % 0x1_0000_0000) as u32,
            timestamp: t,
        },
    )
}

/// The frame that a payload carries, or why it carries none.
pub fn decode_frame(payload: &[u8]) -> (r: Result<ProjectionFrame, FrameDefect>)
    ensures
        frame_result_view(r) == decode_spec(payload@),
{
    match read_envelope(payload) {
        Err(complaint) => Err(FrameDefect::Unparseable(complaint)),
        Ok(fields) => {
            let FrameFields { width, height, timestamp, data } = fields;
            let decoded = match data {
                Some(text) => Some(base64_decode(text.as_str())),
                None => None,
            };
            frame_from_parts(width, height, timestamp, decoded)
        },
    }
}

} // verus!
