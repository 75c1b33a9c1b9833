//! What is known of an audio clip besides where it is found.

use crate::duration::{millis_in_nanos, whole_millis, ClipDuration};
use crate::json::{field, JsonModel, JsonNumber, JsonObject, JsonValue};
use crate::uint::{SafeUInt, MAX_SAFE_UINT};
use crate::wire::{DecodeError, EncodeError, WireField};
use vstd::prelude::*;

verus! {

/// Metadata about an audio clip. Each field may be absent, whatever the others hold.
#[derive(Clone, Debug, PartialEq, Eq)]
#[non_exhaustive]
pub struct AudioInfo {
    /// How long the clip plays.
    pub duration: Option<ClipDuration>,
    /// The content type of the clip, such as `audio/aac`.
    pub mimetype: Option<String>,
    /// The length of the clip in bytes.
    pub size: Option<SafeUInt>,
}

/// What an `AudioInfo` stands for: the duration in nanoseconds, the content type, the size in
/// bytes.
pub struct AudioInfoView {
    pub duration: Option<nat>,
    pub mimetype: Option<Seq<char>>,
    pub size: Option<nat>,
}

impl View for AudioInfo {
    type V = AudioInfoView;

    open spec fn view(&self) -> AudioInfoView {
        AudioInfoView {
            duration: match self.duration {
                Some(d) => Some(d@),
                None => None,
            },
            mimetype: match self.mimetype {
                Some(m) => Some(m@),
                None => None,
            },
            size: match self.size {
                Some(s) => Some(s@),
                None => None,
            },
        }
    }
}

impl AudioInfoView {
    /// Whether the size, where there is one, is an integer that the wire can carry.
    pub open spec fn wf(self) -> bool {
        self.size matches Some(s) ==> s <= MAX_SAFE_UINT
    }

    /// Whether the duration, where there is one, is of no more whole milliseconds than
    /// `MAX_SAFE_UINT`: the condition under which the metadata can be written.
    pub open spec fn encodable(self) -> bool {
        self.duration matches Some(d) ==> whole_millis(d) <= MAX_SAFE_UINT
    }

    /// Whether the duration, where there is one, is a whole number of milliseconds.
    pub open spec fn whole_milliseconds(self) -> bool {
        self.duration matches Some(d) ==> millis_in_nanos(whole_millis(d)) == d
    }
}

/// The JSON number that stands for the integer `n`.
pub open spec fn wire_uint(n: nat) -> JsonModel {
    JsonModel::Number(JsonNumber::Unsigned(n as u64))
}

/// The integer that a JSON value stands for, where it is a non-negative integer of at most
/// `MAX_SAFE_UINT`.
pub open spec fn read_uint(value: JsonModel) -> Option<nat> {
    match value {
        JsonModel::Number(JsonNumber::Unsigned(n)) => if n <= MAX_SAFE_UINT {
            Some(n as nat)
        } else {
            None
        },
        _ => None,
    }
}

/// The members that an optional field contributes: one where it has a value, none where not.
pub open spec fn optional_member(key: Seq<char>, value: Option<JsonModel>) -> Seq<
    (Seq<char>, JsonModel),
> {
    match value {
        Some(v) => seq![(key, v)],
        None => Seq::empty(),
    }
}

/// The members of the object that stands for `info`: `duration` in whole milliseconds,
/// `mimetype` and `size`, in that order, each only where it has a value. Metadata that is not
/// `encodable` cannot be written.
pub open spec fn encode_info(info: AudioInfoView) -> Result<
    Seq<(Seq<char>, JsonModel)>,
    EncodeError,
> {
    if !info.encodable() {
        Err(EncodeError::DurationOutOfRange)
    } else {
        Ok(
            optional_member(
                WireField::Duration.key_spec(),
                match info.duration {
                    Some(d) => Some(wire_uint(whole_millis(d))),
                    None => None,
                },
            ) + optional_member(
                WireField::MimeType.key_spec(),
                match info.mimetype {
                    Some(m) => Some(JsonModel::String(m)),
                    None => None,
                },
            ) + optional_member(
                WireField::Size.key_spec(),
                match info.size {
                    Some(s) => Some(wire_uint(s)),
                    None => None,
                },
            ),
        )
    }
}

/// The metadata that the members of an object spell out.
///
/// Each of the three fields may be missing or hold `null`, and is then absent. Otherwise
/// `duration` and `size` must hold non-negative integers of at most `MAX_SAFE_UINT`, and
/// `mimetype` a string; of those that do not, the first in the order `duration`, `mimetype`,
/// `size` is the one that the error names. A duration is taken as milliseconds.
pub open spec fn decode_info(members: Seq<(Seq<char>, JsonModel)>) -> Result<
    AudioInfoView,
    DecodeError,
> {
    let duration = field(members, WireField::Duration.key_spec());
    let mimetype = field(members, WireField::MimeType.key_spec());
    let size = field(members, WireField::Size.key_spec());
    if duration matches Some(v) && read_uint(v) is None {
        Err(DecodeError::MalformedField(WireField::Duration))
    } else if mimetype matches Some(v) && !(v is String) {
        Err(DecodeError::MalformedField(WireField::MimeType))
    } else if size matches Some(v) && read_uint(v) is None {
        Err(DecodeError::MalformedField(WireField::Size))
    } else {
        Ok(
            AudioInfoView {
                duration: match duration {
                    Some(v) => Some(millis_in_nanos(read_uint(v).unwrap())),
                    None => None,
                },
                mimetype: match mimetype {
                    Some(v) => Some(v->String_0),
                    None => None,
                },
                size: match size {
                    Some(v) => read_uint(v),
                    None => None,
                },
            },
        )
    }
}

/// Reads a non-negative integer of at most `MAX_SAFE_UINT`.
fn read_safe_uint(value: &JsonValue) -> (r: Option<SafeUInt>)
    ensures
        match r {
            Some(n) => read_uint(value@) == Some(n@),
            None => read_uint(value@) is None,
        },
{
    match value {
        JsonValue::Number(JsonNumber::Unsigned(n)) => SafeUInt::new(*n),
        _ => None,
    }
}

impl AudioInfo {
    /// Metadata in which every field is absent.
    pub fn new() -> (r: AudioInfo)
        ensures
            r == (AudioInfo { duration: None, mimetype: None, size: None }),
    {
        AudioInfo { duration: None, mimetype: None, size: None }
    }

    /// Writes the metadata as the object that stands for it on the wire.
    pub fn encode(&self) -> (r: Result<JsonObject, EncodeError>)
        ensures
            match r {
                Ok(object) => encode_info(self@) == Ok::<Seq<(Seq<char>, JsonModel)>, EncodeError>(
                    object@,
                ),
                Err(e) => encode_info(self@) == Err::<Seq<(Seq<char>, JsonModel)>, EncodeError>(e),
            },
    {
        let mut object = JsonObject::new();
        if let Some(duration) = &self.duration {
            match SafeUInt::from_wide(duration.as_millis()) {
                Some(millis) => {
                    object.push(
                        WireField::Duration.key().to_owned(),
                        JsonValue::Number(JsonNumber::Unsigned(millis.get())),
                    );
                },
                None => {
                    return Err(EncodeError::DurationOutOfRange);
                },
            }
        }
        if let Some(mimetype) = &self.mimetype {
            object.push(WireField::MimeType.key().to_owned(), JsonValue::String(mimetype.clone()));
        }
        if let Some(size) = &self.size {
            object.push(
                WireField::Size.key().to_owned(),
                JsonValue::Number(JsonNumber::Unsigned(size.get())),
            );
        }
        assert(encode_info(self@).unwrap() =~= object@);
        Ok(object)
    }

    /// Reads the metadata that the members of `object` spell out.
    pub fn decode(object: &JsonObject) -> (r: Result<AudioInfo, DecodeError>)
        ensures
            match r {
                Ok(info) => decode_info(object@) == Ok::<AudioInfoView, DecodeError>(info@),
                Err(e) => decode_info(object@) == Err::<AudioInfoView, DecodeError>(e),
            },
    {
        let duration = match object.field(WireField::Duration.key()) {
            Some(value) => match read_safe_uint(value) {
                Some(millis) => Some(ClipDuration::from_millis(millis.get())),
                None => {
                    return Err(DecodeError::MalformedField(WireField::Duration));
                },
            },
            None => None,
        };
        let mimetype = match object.field(WireField::MimeType.key()) {
            Some(JsonValue::String(m)) => Some(m.clone()),
            Some(_) => {
                return Err(DecodeError::MalformedField(WireField::MimeType));
            },
            None => None,
        };
        let size = match object.field(WireField::Size.key()) {
            Some(value) => match read_safe_uint(value) {
                Some(n) => Some(n),
                None => {
                    return Err(DecodeError::MalformedField(WireField::Size));
                },
            },
            None => None,
        };
        Ok(AudioInfo { duration, mimetype, size })
    }
}

impl Default for AudioInfo {
    fn default() -> (r: AudioInfo)
        ensures
            r == (AudioInfo { duration: None, mimetype: None, size: None }),
    {
        AudioInfo::new()
    }
}

} // verus!
