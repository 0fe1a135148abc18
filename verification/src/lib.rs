//! The decisions of a small media service: a caller uploads one file, an
//! external tool transcodes it at a preset bitrate, and the result is sent
//! back as the response.
//!
//! Nothing in this crate touches the network, the disk or a process. The
//! service is a session that is told what happened (`Event`) and answers what
//! to do next (`Action`); whoever drives it performs the actions. Every
//! function here is verified against a mathematical model of its types.

pub mod bitrate;
pub mod response;
pub mod storage;
pub mod transcode;
pub mod upload;
pub mod laws;
