//! Verified core of a screen-sharing host: viewer authentication, the
//! BGR0 to YUV pixel conversion, plane copying, key-code parsing, the
//! configuration defaults, and the small decisions of the capture session.

pub mod auth;
pub mod text;
pub mod yuv;
pub mod inputs;
pub mod config;
pub mod encoder;
pub mod capture;
pub mod audio;
pub mod gui;
pub mod content;
pub mod monitor;
