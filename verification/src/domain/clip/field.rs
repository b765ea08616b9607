//! One module per field of a clip.

pub mod clip_id;
pub mod content;
pub mod created_at;
pub mod expires_at;
pub mod hits;
pub mod password;
pub mod short_code;
pub mod title;

pub use clip_id::ClipId;
pub use content::Content;
pub use created_at::CreatedAt;
pub use expires_at::ExpiresAt;
pub use hits::Hits;
pub use password::Password;
pub use short_code::ShortCode;
pub use title::Title;
