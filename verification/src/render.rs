//! Text renderings of a merged report.

pub mod json;
pub mod markdown;
pub mod raw;
pub mod table;
pub mod terminal;
