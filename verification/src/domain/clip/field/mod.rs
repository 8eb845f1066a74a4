//! The validated fields of a clip.

pub mod clip_id;
pub mod content;
pub mod expires;
pub mod hits;
pub mod password;
pub mod posted;
pub mod shortcode;
pub mod title;

pub use clip_id::ClipId;
pub use content::Content;
pub use expires::Expires;
pub use hits::Hits;
pub use password::Password;
pub use posted::Posted;
pub use shortcode::ShortCode;
pub use title::Title;
