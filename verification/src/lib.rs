//! Bridge between an H.264 stream received over RTP and an RTMP publishing
//! session: the decoder configuration record, the units that travel between
//! the stages, the RTP ingestion gate, the video tag framing and the RTMP
//! publish driver.

pub mod api;
pub mod buffer;
pub mod chunk;
pub mod codec;
pub mod error;
pub mod flv;
pub mod h264;
pub mod nal;
pub mod param;
pub mod rtc;
pub mod rtmp;
pub mod sdp;
pub mod session;
pub mod timestamp;
