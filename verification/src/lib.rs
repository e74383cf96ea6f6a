//! Status viewer core for Space Station 13 game servers: ANSI styling,
//! server configuration, status decoding helpers, topic framing and the
//! browsing state machine of the viewer.
pub mod colors;
pub mod navigation;
pub mod topic;
pub mod text;
pub mod config;
pub mod status;
pub mod display;
