pub mod clipboard;
pub mod upload;
