//! The names of the wire object's fields, and the ways in which reading or writing it fails.

use vstd::prelude::*;

verus! {

/// A field of the wire object, or of the object under its `info` field.
#[derive(Clone, Copy, Debug, PartialEq, Eq)]
pub enum WireField {
    /// `msgtype`: the discriminator that every encoded object carries.
    MsgType,
    /// `body`: the fallback text.
    Body,
    /// `url`: the address of a plain source.
    Url,
    /// `file`: the descriptor of an encrypted source.
    File,
    /// `info`: the clip's metadata.
    Info,
    /// `duration`, under `info`: the clip's length in milliseconds.
    Duration,
    /// `mimetype`, under `info`: the clip's content type.
    MimeType,
    /// `size`, under `info`: the clip's length in bytes.
    Size,
}

impl WireField {
    /// The key under which the field stands in its object.
    pub open spec fn key_spec(self) -> Seq<char> {
        match self {
            WireField::MsgType => "msgtype"@,
            WireField::Body => "body"@,
            WireField::Url => "url"@,
            WireField::File => "file"@,
            WireField::Info => "info"@,
            WireField::Duration => "duration"@,
            WireField::MimeType => "mimetype"@,
            WireField::Size => "size"@,
        }
    }

    /// The key under which the field stands in its object.
    pub fn key(&self) -> (r: &'static str)
        ensures
            r@ == self.key_spec(),
    {
        match self {
            WireField::MsgType => "msgtype",
            WireField::Body => "body",
            WireField::Url => "url",
            WireField::File => "file",
            WireField::Info => "info",
            WireField::Duration => "duration",
            WireField::MimeType => "mimetype",
            WireField::Size => "size",
        }
    }
}

/// The value of `msgtype` that marks an audio message.
pub open spec fn audio_msgtype_spec() -> Seq<char> {
    "m.audio"@
}

/// The value of `msgtype` that marks an audio message.
pub fn audio_msgtype() -> (r: &'static str)
    ensures
        r@ == audio_msgtype_spec(),
{
    "m.audio"
}

/// No two fields share a key.
pub proof fn lemma_keys_differ(a: WireField, b: WireField)
    ensures
        a.key_spec() == b.key_spec() ==> a == b,
{
    reveal_strlit("msgtype");
    reveal_strlit("body");
    reveal_strlit("url");
    reveal_strlit("file");
    reveal_strlit("info");
    reveal_strlit("duration");
    reveal_strlit("mimetype");
    reveal_strlit("size");
    if a.key_spec() == b.key_spec() {
        assert(a.key_spec().len() == b.key_spec().len());
        assert(a.key_spec()[0] == b.key_spec()[0]);
    }
}

/// Why a wire object could not be read.
#[derive(Clone, Copy, Debug, PartialEq, Eq)]
pub enum DecodeError {
    /// A field that must be there is not.
    MissingRequiredField(WireField),
    /// A field is there and holds a value of the wrong shape.
    MalformedField(WireField),
}

impl DecodeError {
    /// The field that the error is about.
    pub fn field(&self) -> (r: WireField)
        ensures
            r == match *self {
                DecodeError::MissingRequiredField(f) => f,
                DecodeError::MalformedField(f) => f,
            },
    {
        match self {
            DecodeError::MissingRequiredField(f) => *f,
            DecodeError::MalformedField(f) => *f,
        }
    }
}

/// Why a value could not be written.
#[derive(Clone, Copy, Debug, PartialEq, Eq)]
pub enum EncodeError {
    /// The clip's length in whole milliseconds exceeds `MAX_SAFE_UINT`.
    DurationOutOfRange,
}

} // verus!
