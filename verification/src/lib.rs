//! Verified core of an IP panorama checker: source-response decoding,
//! report merging, verdict heuristics, unlock-probe classification,
//! return-route line identification and the text renderers.

pub mod text;
pub mod numtext;
pub mod i18n;
pub mod probe;
pub mod net;
pub mod json;
pub mod model;
pub mod sources;
pub mod aggregate;
pub mod heuristics;
pub mod render;
pub mod cli;
pub mod config;
pub mod interactive;
pub mod session;
pub mod egress;
