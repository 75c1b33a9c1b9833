//! The content of an audio message and its wire object.

use crate::info::{decode_info, encode_info, AudioInfo, AudioInfoView};
use crate::json::{field, lookup, JsonModel, JsonObject, JsonValue};
use crate::source::{decode_source, source_member, EncryptedFile, MediaSource, MediaSourceView};
use crate::wire::{audio_msgtype, audio_msgtype_spec, DecodeError, EncodeError, WireField};
use vstd::prelude::*;

verus! {

/// The payload of an audio message.
#[derive(Clone, Debug, PartialEq, Eq)]
#[non_exhaustive]
pub struct AudioMessageEventContent {
    /// The text that stands for the message where the clip cannot be played.
    pub body: String,
    /// Where the clip is found.
    pub source: MediaSource,
    /// Metadata about the clip.
    pub info: Option<Box<AudioInfo>>,
}

/// What an `AudioMessageEventContent` stands for.
pub struct AudioMessageEventContentView {
    pub body: Seq<char>,
    pub source: MediaSourceView,
    pub info: Option<AudioInfoView>,
}

impl View for AudioMessageEventContent {
    type V = AudioMessageEventContentView;

    open spec fn view(&self) -> AudioMessageEventContentView {
        AudioMessageEventContentView {
            body: self.body@,
            source: self.source@,
            info: match self.info {
                Some(info) => Some(info@),
                None => None,
            },
        }
    }
}

impl AudioMessageEventContentView {
    /// Whether the metadata, where there is any, holds a size that the wire can carry.
    pub open spec fn wf(self) -> bool {
        self.info matches Some(info) ==> info.wf()
    }

    /// Whether the metadata, where there is any, can be written: the condition under which
    /// the content can.
    pub open spec fn encodable(self) -> bool {
        self.info matches Some(info) ==> info.encodable()
    }

    /// Whether the metadata, where there is any, holds no fraction of a millisecond.
    pub open spec fn whole_milliseconds(self) -> bool {
        self.info matches Some(info) ==> info.whole_milliseconds()
    }
}

/// The members of the wire object of `content`: `msgtype` with the audio tag, `body`, the one
/// member of the source, and `info` with the metadata's object where there is metadata.
/// Metadata that cannot be written keeps the whole from being written.
pub open spec fn encode_content(content: AudioMessageEventContentView) -> Result<
    Seq<(Seq<char>, JsonModel)>,
    EncodeError,
> {
    let head = seq![
        (WireField::MsgType.key_spec(), JsonModel::String(audio_msgtype_spec())),
        (WireField::Body.key_spec(), JsonModel::String(content.body)),
        source_member(content.source),
    ];
    match content.info {
        None => Ok(head),
        Some(info) => match encode_info(info) {
            Ok(members) => Ok(head.push((WireField::Info.key_spec(), JsonModel::Object(members)))),
            Err(e) => Err(e),
        },
    }
}

/// The metadata that the members of a wire object spell out: none without an `info` field,
/// else what the object under `info` holds.
pub open spec fn decode_optional_info(members: Seq<(Seq<char>, JsonModel)>) -> Result<
    Option<AudioInfoView>,
    DecodeError,
> {
    match field(members, WireField::Info.key_spec()) {
        None => Ok(None),
        Some(JsonModel::Object(inner)) => match decode_info(inner) {
            Ok(info) => Ok(Some(info)),
            Err(e) => Err(e),
        },
        Some(_) => Err(DecodeError::MalformedField(WireField::Info)),
    }
}

/// The content that the members of a wire object spell out.
///
/// `body` must be there and hold a string; then the source is read, then the metadata. The
/// first of the three that fails decides the error. No other member is looked at: not
/// `msgtype`, by which whoever hands the object over has told the kinds of message apart, and
/// no member of a name that is not known here.
pub open spec fn decode_content(members: Seq<(Seq<char>, JsonModel)>) -> Result<
    AudioMessageEventContentView,
    DecodeError,
> {
    match lookup(members, WireField::Body.key_spec()) {
        None => Err(DecodeError::MissingRequiredField(WireField::Body)),
        Some(JsonModel::String(body)) => match decode_source(members) {
            Err(e) => Err(e),
            Ok(source) => match decode_optional_info(members) {
                Err(e) => Err(e),
                Ok(info) => Ok(AudioMessageEventContentView { body, source, info }),
            },
        },
        Some(_) => Err(DecodeError::MalformedField(WireField::Body)),
    }
}

impl AudioMessageEventContent {
    /// The content with the given body and source, without metadata.
    pub fn new(body: String, source: MediaSource) -> (r: AudioMessageEventContent)
        ensures
            r == (AudioMessageEventContent { body, source, info: None }),
    {
        AudioMessageEventContent { body, source, info: None }
    }

    /// The content with the given body and a plain source at `url`, without metadata.
    pub fn plain(body: String, url: String) -> (r: AudioMessageEventContent)
        ensures
            r == (AudioMessageEventContent { body, source: MediaSource::Plain(url), info: None }),
    {
        AudioMessageEventContent::new(body, MediaSource::plain(url))
    }

    /// The content with the given body and the encrypted source that `file` describes, without
    /// metadata.
    pub fn encrypted(body: String, file: EncryptedFile) -> (r: AudioMessageEventContent)
        ensures
            r == (AudioMessageEventContent {
                body,
                source: MediaSource::Encrypted(Box::new(file)),
                info: None,
            }),
    {
        AudioMessageEventContent::new(body, MediaSource::encrypted(file))
    }

    /// The content that differs from `self` in its metadata alone, which is `info`.
    pub fn info(self, info: Option<Box<AudioInfo>>) -> (r: AudioMessageEventContent)
        ensures
            r == (AudioMessageEventContent { body: self.body, source: self.source, info }),
    {
        AudioMessageEventContent { body: self.body, source: self.source, info }
    }

    /// Writes the content as its wire object.
    ///
    /// Fails only where the metadata holds a duration of more whole milliseconds than
    /// `MAX_SAFE_UINT`.
    pub fn encode(&self) -> (r: Result<JsonObject, EncodeError>)
        ensures
            match r {
                Ok(object) => encode_content(self@) == Ok::<
                    Seq<(Seq<char>, JsonModel)>,
                    EncodeError,
                >(object@),
                Err(e) => encode_content(self@) == Err::<Seq<(Seq<char>, JsonModel)>, EncodeError>(
                    e,
                ),
            },
    {
        let mut object = JsonObject::new();
        object.push(
            WireField::MsgType.key().to_owned(),
            JsonValue::String(audio_msgtype().to_owned()),
        );
        object.push(WireField::Body.key().to_owned(), JsonValue::String(self.body.clone()));
        self.source.encode_into(&mut object);
        if let Some(info) = &self.info {
            match info.encode() {
                Ok(inner) => {
                    object.push(WireField::Info.key().to_owned(), JsonValue::Object(inner));
                },
                Err(e) => {
                    return Err(e);
                },
            }
        }
        assert(encode_content(self@).unwrap() =~= object@);
        Ok(object)
    }

    /// Reads the content that the members of `object` spell out.
    ///
    /// Fails with `MissingRequiredField` where `body` is not there, or neither `file` nor
    /// `url`; with `MalformedField` where `body`, the field that names the source, `info` or a
    /// field under `info` holds a value of the wrong shape. Members of other names are
    /// ignored.
    pub fn decode(object: &JsonObject) -> (r: Result<AudioMessageEventContent, DecodeError>)
        ensures
            match r {
                Ok(content) => decode_content(object@) == Ok::<
                    AudioMessageEventContentView,
                    DecodeError,
                >(content@),
                Err(e) => decode_content(object@) == Err::<
                    AudioMessageEventContentView,
                    DecodeError,
                >(e),
            },
    {
        let body = match object.get(WireField::Body.key()) {
            Some(JsonValue::String(body)) => body.clone(),
            Some(_) => {
                return Err(DecodeError::MalformedField(WireField::Body));
            },
            None => {
                return Err(DecodeError::MissingRequiredField(WireField::Body));
            },
        };
        let source = match MediaSource::decode(object) {
            Ok(source) => source,
            Err(e) => {
                return Err(e);
            },
        };
        let info = match object.field(WireField::Info.key()) {
            Some(JsonValue::Object(inner)) => match AudioInfo::decode(inner) {
                Ok(info) => Some(Box::new(info)),
                Err(e) => {
                    return Err(e);
                },
            },
            Some(_) => {
                return Err(DecodeError::MalformedField(WireField::Info));
            },
            None => None,
        };
        Ok(AudioMessageEventContent { body, source, info })
    }
}

} // verus!
