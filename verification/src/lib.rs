//! Validated fields, the clip entity and the storage-row model of a
//! pastebin-style clip service.

pub mod data;
pub mod domain;
pub mod text;

pub use domain::clip::field::ShortCode;
pub use domain::clip::{Clip, ClipError};
pub use domain::time::Time;
