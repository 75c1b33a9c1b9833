//! Where the media of a message is found: at a plain address, or in an encrypted file.

use crate::json::{field, JsonModel, JsonObject, JsonValue};
use crate::wire::{DecodeError, WireField};
use vstd::prelude::*;

verus! {

/// The descriptor of an encrypted file, kept as the JSON object that stands for it on the wire.
///
/// What the descriptor holds (key material, initialisation vector, address) is not read here.
#[derive(Clone, Debug, PartialEq, Eq)]
pub struct EncryptedFile {
    pub descriptor: JsonObject,
}

impl View for EncryptedFile {
    type V = Seq<(Seq<char>, JsonModel)>;

    open spec fn view(&self) -> Seq<(Seq<char>, JsonModel)> {
        self.descriptor@
    }
}

/// The source of a piece of media.
#[derive(Clone, Debug, PartialEq, Eq)]
#[non_exhaustive]
pub enum MediaSource {
    /// The address of media that is stored as it is.
    Plain(String),
    /// The descriptor of media that is stored encrypted.
    Encrypted(Box<EncryptedFile>),
}

/// What a `MediaSource` stands for.
pub enum MediaSourceView {
    Plain(Seq<char>),
    Encrypted(Seq<(Seq<char>, JsonModel)>),
}

impl View for MediaSource {
    type V = MediaSourceView;

    open spec fn view(&self) -> MediaSourceView {
        match self {
            MediaSource::Plain(uri) => MediaSourceView::Plain(uri@),
            MediaSource::Encrypted(file) => MediaSourceView::Encrypted(file@),
        }
    }
}

/// The one member that a source contributes to the object it is written into: `url` with the
/// address, or `file` with the descriptor.
pub open spec fn source_member(source: MediaSourceView) -> (Seq<char>, JsonModel) {
    match source {
        MediaSourceView::Plain(uri) => (WireField::Url.key_spec(), JsonModel::String(uri)),
        MediaSourceView::Encrypted(file) => (WireField::File.key_spec(), JsonModel::Object(file)),
    }
}

/// The source that the members of an object spell out.
///
/// A `file` field selects the encrypted source, whatever stands under `url`; it must hold an
/// object. Without one, `url` must be there and hold a string. A field that holds `null`
/// counts as not there.
pub open spec fn decode_source(members: Seq<(Seq<char>, JsonModel)>) -> Result<
    MediaSourceView,
    DecodeError,
> {
    match field(members, WireField::File.key_spec()) {
        Some(JsonModel::Object(file)) => Ok(MediaSourceView::Encrypted(file)),
        Some(_) => Err(DecodeError::MalformedField(WireField::File)),
        None => match field(members, WireField::Url.key_spec()) {
            Some(JsonModel::String(uri)) => Ok(MediaSourceView::Plain(uri)),
            Some(_) => Err(DecodeError::MalformedField(WireField::Url)),
            None => Err(DecodeError::MissingRequiredField(WireField::Url)),
        },
    }
}

impl MediaSource {
    /// The source at the plain address `uri`.
    pub fn plain(uri: String) -> (r: MediaSource)
        ensures
            r == MediaSource::Plain(uri),
    {
        MediaSource::Plain(uri)
    }

    /// The source in the encrypted file that `file` describes.
    pub fn encrypted(file: EncryptedFile) -> (r: MediaSource)
        ensures
            r == MediaSource::Encrypted(Box::new(file)),
    {
        MediaSource::Encrypted(Box::new(file))
    }

    /// Whether the source is a plain address.
    pub fn is_plain(&self) -> (r: bool)
        ensures
            r == (self is Plain),
    {
        match self {
            MediaSource::Plain(_) => true,
            MediaSource::Encrypted(_) => false,
        }
    }

    /// Whether the source is an encrypted file.
    pub fn is_encrypted(&self) -> (r: bool)
        ensures
            r == (self is Encrypted),
    {
        match self {
            MediaSource::Plain(_) => false,
            MediaSource::Encrypted(_) => true,
        }
    }

    /// The address of a plain source.
    pub fn url(&self) -> (r: Option<&String>)
        ensures
            r == match self {
                MediaSource::Plain(uri) => Some(uri),
                MediaSource::Encrypted(_) => None::<&String>,
            },
    {
        match self {
            MediaSource::Plain(uri) => Some(uri),
            MediaSource::Encrypted(_) => None,
        }
    }

    /// The descriptor of an encrypted source.
    pub fn file(&self) -> (r: Option<&EncryptedFile>)
        ensures
            r == match self {
                MediaSource::Plain(_) => None::<&EncryptedFile>,
                MediaSource::Encrypted(file) => Some(&**file),
            },
    {
        match self {
            MediaSource::Plain(_) => None,
            MediaSource::Encrypted(file) => Some(&**file),
        }
    }

    /// Writes the source into `object`: appends its one member, without a wrapper around it.
    pub fn encode_into(&self, object: &mut JsonObject)
        ensures
            final(object)@ == old(object)@.push(source_member(self@)),
    {
        match self {
            MediaSource::Plain(uri) => {
                object.push(WireField::Url.key().to_owned(), JsonValue::String(uri.clone()));
            },
            MediaSource::Encrypted(file) => {
                object.push(
                    WireField::File.key().to_owned(),
                    JsonValue::Object(file.descriptor.clone()),
                );
            },
        }
    }

    /// Reads the source that the members of `object` spell out.
    pub fn decode(object: &JsonObject) -> (r: Result<MediaSource, DecodeError>)
        ensures
            match r {
                Ok(source) => decode_source(object@) == Ok::<MediaSourceView, DecodeError>(source@),
                Err(e) => decode_source(object@) == Err::<MediaSourceView, DecodeError>(e),
            },
    {
        match object.field(WireField::File.key()) {
            Some(JsonValue::Object(file)) => {
                let file = EncryptedFile { descriptor: file.clone() };
                return Ok(MediaSource::Encrypted(Box::new(file)));
            },
            Some(_) => {
                return Err(DecodeError::MalformedField(WireField::File));
            },
            None => {},
        }
        match object.field(WireField::Url.key()) {
            Some(JsonValue::String(uri)) => Ok(MediaSource::Plain(uri.clone())),
            Some(_) => Err(DecodeError::MalformedField(WireField::Url)),
            None => Err(DecodeError::MissingRequiredField(WireField::Url)),
        }
    }
}

} // verus!
