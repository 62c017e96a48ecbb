//! Nested-box ("atom") container protocol of the MP4 format family:
//! length-prefixed, four-character-tagged records read from a byte stream,
//! with recognized kinds decoded into structure and unrecognized kinds
//! captured as opaque byte blobs.

pub mod boxtype;
pub mod bytes;
pub mod error;
pub mod header;
pub mod meta;
pub mod stream;
pub mod udta;
