//! Conversion stages for chat-sticker media and the decision logic of a
//! content-addressed, deduplicating upload.
//!
//! The extension of an [`Image`]'s file name names the encoding of its data.
//! Each stage converts one encoding and hands any other back unchanged, so the
//! stages chain in any order. [`upload`] decides, step by step, when a picture
//! is looked up in a cache, uploaded, and recorded.
pub mod codec;
pub mod image;
pub mod name;
pub mod upload;

pub use image::{AnimationFormat, Error, Image, NoMimeType, Rgba};
pub use upload::{
    upload_after_lookup, upload_after_record, upload_after_store, upload_begin, CacheAnswer,
    UploadAction,
};
