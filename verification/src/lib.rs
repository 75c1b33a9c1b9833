//! The content of an audio message: a body, a plain or encrypted media source and optional
//! clip metadata, together with its flat JSON wire form.
//!
//! A value is written with [`AudioMessageEventContent::encode`] and read back with
//! [`AudioMessageEventContent::decode`]; both work on JSON held as plain data
//! ([`JsonObject`], [`JsonValue`]). What the two do together is stated and proved in
//! [`laws`].

pub mod content;
pub mod duration;
pub mod info;
pub mod json;
pub mod laws;
pub mod source;
pub mod uint;
pub mod wire;

pub use content::{AudioMessageEventContent, AudioMessageEventContentView};
pub use duration::ClipDuration;
pub use info::{AudioInfo, AudioInfoView};
pub use json::{JsonModel, JsonNumber, JsonObject, JsonValue};
pub use source::{EncryptedFile, MediaSource, MediaSourceView};
pub use uint::{SafeUInt, MAX_SAFE_UINT};
pub use wire::{DecodeError, EncodeError, WireField};
