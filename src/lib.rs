//! Named API connection profiles: where they are stored, how the store is
//! loaded and saved across its two file formats, and how switching to a
//! profile proceeds through its environment and mirror-file steps.

pub mod app_config;
pub mod error;
pub mod paths;
pub mod profile;
pub mod store;
pub mod switch;
