//! Binary IPC between the front end and the search sidecar.
//!
//! Messages travel as length-prefixed frames (see [`framing`]); the request
//! envelope lives in [`native_proto`].

pub mod framing;
pub mod native_proto;

pub use framing::{
    decode_frame, decode_frame_len, encode_frame, encode_frame_header, FrameError, FramingError,
    MAX_FRAME_BYTES,
};
pub use native_proto::NativeRequest;
