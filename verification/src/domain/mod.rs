//! The domain: the clip entity, its fields and its errors.

pub mod clip;
pub mod time;
