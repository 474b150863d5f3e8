//! Background work: uploading photos in chunks.
pub mod uploader;
