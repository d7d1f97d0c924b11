//! Files on the wire: splitting into chunks, reassembly, and the transfer
//! protocol that carries the chunks between two devices.

pub mod chunk;
pub mod laws;
pub mod naming;
pub mod receive;
pub mod resume;
pub mod streaming;
pub mod transfer;

pub use chunk::FileChunk;
pub use resume::ResumeTransfer;
pub use transfer::FileTransfer;
