//! What holds of writing and reading taken together.

use crate::content::{
    decode_content, encode_content, AudioMessageEventContent, AudioMessageEventContentView,
};
use crate::duration::whole_millis;
use crate::info::{
    decode_info, encode_info, optional_member, wire_uint, AudioInfo, AudioInfoView,
};
use crate::json::{
    lemma_lookup_absent, lemma_lookup_concat, lemma_lookup_first,
    lemma_lookup_ignores_other_names, lookup, JsonModel,
};
use crate::source::{decode_source, source_member, MediaSourceView};
use crate::wire::{audio_msgtype_spec, lemma_keys_differ, DecodeError, WireField};
use vstd::prelude::*;

verus! {

/// What `lookup` finds among the members that one optional field contributes.
proof fn lemma_lookup_optional_member(
    name: WireField,
    value: Option<JsonModel>,
    key: WireField,
)
    ensures
        lookup(optional_member(name.key_spec(), value), key.key_spec()) == (if name == key {
            value
        } else {
            None
        }),
{
    let members = optional_member(name.key_spec(), value);
    lemma_keys_differ(name, key);
    if name == key && value is Some {
        assert(members[0] == (name.key_spec(), value.unwrap()));
        lemma_lookup_first(members, key.key_spec(), 0);
    } else {
        lemma_lookup_absent(members, key.key_spec());
    }
}

/// What `lookup` finds in the object that stands for metadata: under each of the three keys
/// the value of its field, where the field has one, and nothing else.
proof fn lemma_lookup_encoded_info(info: AudioInfoView, key: WireField)
    requires
        info.encodable(),
    ensures
        lookup(encode_info(info).unwrap(), key.key_spec()) == (match key {
            WireField::Duration => match info.duration {
                Some(d) => Some(wire_uint(whole_millis(d))),
                None => None,
            },
            WireField::MimeType => match info.mimetype {
                Some(m) => Some(JsonModel::String(m)),
                None => None,
            },
            WireField::Size => match info.size {
                Some(s) => Some(wire_uint(s)),
                None => None,
            },
            _ => None,
        }),
{
    let duration: Option<JsonModel> = match info.duration {
        Some(d) => Some(wire_uint(whole_millis(d))),
        None => None,
    };
    let mimetype: Option<JsonModel> = match info.mimetype {
        Some(m) => Some(JsonModel::String(m)),
        None => None,
    };
    let size: Option<JsonModel> = match info.size {
        Some(s) => Some(wire_uint(s)),
        None => None,
    };
    let first = optional_member(WireField::Duration.key_spec(), duration);
    let second = optional_member(WireField::MimeType.key_spec(), mimetype);
    let third = optional_member(WireField::Size.key_spec(), size);
    assert(encode_info(info).unwrap() == first + second + third);
    lemma_lookup_concat(first + second, third, key.key_spec());
    lemma_lookup_concat(first, second, key.key_spec());
    lemma_lookup_optional_member(WireField::Duration, duration, key);
    lemma_lookup_optional_member(WireField::MimeType, mimetype, key);
    lemma_lookup_optional_member(WireField::Size, size, key);
}

/// What `lookup` finds in the wire object of a content: under `body` the body, under `url` or
/// `file` the source, under `info` the metadata's object where there is metadata, and under
/// `msgtype` the tag.
proof fn lemma_lookup_encoded_content(content: AudioMessageEventContentView, key: WireField)
    requires
        content.encodable(),
    ensures
        lookup(encode_content(content).unwrap(), key.key_spec()) == (match key {
            WireField::MsgType => Some(JsonModel::String(audio_msgtype_spec())),
            WireField::Body => Some(JsonModel::String(content.body)),
            WireField::Url => match content.source {
                MediaSourceView::Plain(uri) => Some(JsonModel::String(uri)),
                MediaSourceView::Encrypted(_) => None,
            },
            WireField::File => match content.source {
                MediaSourceView::Plain(_) => None,
                MediaSourceView::Encrypted(file) => Some(JsonModel::Object(file)),
            },
            WireField::Info => match content.info {
                Some(info) => Some(JsonModel::Object(encode_info(info).unwrap())),
                None => None,
            },
            _ => None,
        }),
{
    let members = encode_content(content).unwrap();
    let name = key.key_spec();
    lemma_keys_differ(key, WireField::MsgType);
    lemma_keys_differ(key, WireField::Body);
    lemma_keys_differ(key, WireField::Url);
    lemma_keys_differ(key, WireField::File);
    lemma_keys_differ(key, WireField::Info);
    assert(members[0].0 == WireField::MsgType.key_spec());
    assert(members[1].0 == WireField::Body.key_spec());
    assert(members[2] == source_member(content.source));
    if content.info is Some {
        assert(members.len() == 4);
        assert(members[3].0 == WireField::Info.key_spec());
    } else {
        assert(members.len() == 3);
    }
    let source_field = if content.source is Plain {
        WireField::Url
    } else {
        WireField::File
    };
    assert(members[2].0 == source_field.key_spec());
    if key == WireField::MsgType {
        lemma_lookup_first(members, name, 0);
    } else if key == WireField::Body {
        lemma_lookup_first(members, name, 1);
    } else if key == source_field {
        lemma_lookup_first(members, name, 2);
    } else if key == WireField::Info && content.info is Some {
        lemma_lookup_first(members, name, 3);
    } else {
        lemma_lookup_absent(members, name);
    }
}

/// Reading the object that stands for metadata gives the metadata back, where its duration
/// is a whole number of milliseconds.
pub proof fn lemma_decode_info_inverts_encode(info: AudioInfo)
    requires
        info@.wf(),
        info@.encodable(),
        info@.whole_milliseconds(),
    ensures
        decode_info(encode_info(info@).unwrap()) == Ok::<AudioInfoView, DecodeError>(info@),
{
    lemma_decode_info_view_inverts_encode(info@);
}

proof fn lemma_decode_info_view_inverts_encode(info: AudioInfoView)
    requires
        info.wf(),
        info.encodable(),
        info.whole_milliseconds(),
    ensures
        decode_info(encode_info(info).unwrap()) == Ok::<AudioInfoView, DecodeError>(info),
{
    lemma_lookup_encoded_info(info, WireField::Duration);
    lemma_lookup_encoded_info(info, WireField::MimeType);
    lemma_lookup_encoded_info(info, WireField::Size);
}

/// Reading the wire object of a content gives the content back, where its duration is a whole
/// number of milliseconds that the wire can carry.
pub proof fn lemma_decode_inverts_encode(content: AudioMessageEventContent)
    requires
        content@.wf(),
        content@.encodable(),
        content@.whole_milliseconds(),
    ensures
        decode_content(encode_content(content@).unwrap()) == Ok::<
            AudioMessageEventContentView,
            DecodeError,
        >(content@),
{
    let view = content@;
    lemma_lookup_encoded_content(view, WireField::Body);
    lemma_lookup_encoded_content(view, WireField::Url);
    lemma_lookup_encoded_content(view, WireField::File);
    lemma_lookup_encoded_content(view, WireField::Info);
    if view.info is Some {
        lemma_decode_info_view_inverts_encode(view.info.unwrap());
    }
}

/// Content that was read can be written, and reading what is then written gives it back:
/// its size and its duration are integers that the wire carries, the duration a whole number
/// of milliseconds.
pub proof fn lemma_decoded_content_can_be_written(members: Seq<(Seq<char>, JsonModel)>)
    requires
        decode_content(members) is Ok,
    ensures
        decode_content(members).unwrap().wf(),
        decode_content(members).unwrap().encodable(),
        decode_content(members).unwrap().whole_milliseconds(),
{
}

/// The wire object of a content names its source once: `url` for a plain source and no
/// `file`, `file` for an encrypted one and no `url`.
pub proof fn lemma_encode_names_one_source(content: AudioMessageEventContent)
    requires
        content@.encodable(),
    ensures
        lookup(encode_content(content@).unwrap(), WireField::Url.key_spec()) is Some
            <==> content.source is Plain,
        lookup(encode_content(content@).unwrap(), WireField::File.key_spec()) is Some
            <==> content.source is Encrypted,
{
    lemma_lookup_encoded_content(content@, WireField::Url);
    lemma_lookup_encoded_content(content@, WireField::File);
}

/// Where `file` holds an object, the source read is the encrypted one that it describes,
/// whatever stands under `url`.
pub proof fn lemma_file_takes_precedence(
    members: Seq<(Seq<char>, JsonModel)>,
    file: Seq<(Seq<char>, JsonModel)>,
)
    requires
        lookup(members, WireField::File.key_spec()) == Some(JsonModel::Object(file)),
    ensures
        decode_source(members) == Ok::<MediaSourceView, DecodeError>(
            MediaSourceView::Encrypted(file),
        ),
{
}

/// A content without metadata is written without an `info` member; one with metadata is
/// written with the metadata's object under `info`, also where that object has no member.
pub proof fn lemma_info_written_iff_present(content: AudioMessageEventContent)
    requires
        content@.encodable(),
    ensures
        lookup(encode_content(content@).unwrap(), WireField::Info.key_spec()) == (
        match content@.info {
            Some(info) => Some(JsonModel::Object(encode_info(info).unwrap())),
            None => None,
        }),
{
    lemma_lookup_encoded_content(content@, WireField::Info);
}

/// Metadata is written with a member for each field that has a value and with no other:
/// metadata in which every field is absent is written as the object without members.
pub proof fn lemma_absent_fields_are_omitted(info: AudioInfo)
    requires
        info@.encodable(),
    ensures
        encode_info(info@).unwrap().len() == (if info.duration is Some {
            1nat
        } else {
            0nat
        }) + (if info.mimetype is Some {
            1nat
        } else {
            0nat
        }) + (if info.size is Some {
            1nat
        } else {
            0nat
        }),
        lookup(encode_info(info@).unwrap(), WireField::Duration.key_spec()) is Some
            <==> info.duration is Some,
        lookup(encode_info(info@).unwrap(), WireField::MimeType.key_spec()) is Some
            <==> info.mimetype is Some,
        lookup(encode_info(info@).unwrap(), WireField::Size.key_spec()) is Some
            <==> info.size is Some,
{
    lemma_lookup_encoded_info(info@, WireField::Duration);
    lemma_lookup_encoded_info(info@, WireField::MimeType);
    lemma_lookup_encoded_info(info@, WireField::Size);
}

/// Whether `key` is the key of a field of the wire object.
pub open spec fn names_content_field(key: Seq<char>) -> bool {
    ||| key == WireField::MsgType.key_spec()
    ||| key == WireField::Body.key_spec()
    ||| key == WireField::Url.key_spec()
    ||| key == WireField::File.key_spec()
    ||| key == WireField::Info.key_spec()
}

/// Whether `key` is the key of a field of the object under `info`.
pub open spec fn names_info_field(key: Seq<char>) -> bool {
    ||| key == WireField::Duration.key_spec()
    ||| key == WireField::MimeType.key_spec()
    ||| key == WireField::Size.key_spec()
}

/// The wire object of a content holds members of the content's own fields only, and of each
/// at most one.
pub proof fn lemma_encode_writes_known_fields_once(content: AudioMessageEventContent)
    requires
        content@.encodable(),
    ensures
        forall|i: int|
            0 <= i < encode_content(content@).unwrap().len() ==> names_content_field(
                (#[trigger] encode_content(content@).unwrap()[i]).0,
            ),
        forall|i: int, j: int|
            0 <= i < j < encode_content(content@).unwrap().len() ==> (#[trigger] encode_content(
                content@,
            ).unwrap()[i]).0 != (#[trigger] encode_content(content@).unwrap()[j]).0,
{
    let members = encode_content(content@).unwrap();
    let source_field = if content.source is Plain {
        WireField::Url
    } else {
        WireField::File
    };
    assert(members[0].0 == WireField::MsgType.key_spec());
    assert(members[1].0 == WireField::Body.key_spec());
    assert(members[2].0 == source_field.key_spec());
    if content@.info is Some {
        assert(members.len() == 4);
        assert(members[3].0 == WireField::Info.key_spec());
    } else {
        assert(members.len() == 3);
    }
    lemma_keys_differ(WireField::MsgType, WireField::Body);
    lemma_keys_differ(WireField::MsgType, source_field);
    lemma_keys_differ(WireField::MsgType, WireField::Info);
    lemma_keys_differ(WireField::Body, source_field);
    lemma_keys_differ(WireField::Body, WireField::Info);
    lemma_keys_differ(source_field, WireField::Info);
}

/// The object that stands for metadata holds members of the metadata's own fields only, and
/// of each at most one.
pub proof fn lemma_encode_info_writes_known_fields_once(info: AudioInfo)
    requires
        info@.encodable(),
    ensures
        forall|i: int|
            0 <= i < encode_info(info@).unwrap().len() ==> names_info_field(
                (#[trigger] encode_info(info@).unwrap()[i]).0,
            ),
        forall|i: int, j: int|
            0 <= i < j < encode_info(info@).unwrap().len() ==> (#[trigger] encode_info(
                info@,
            ).unwrap()[i]).0 != (#[trigger] encode_info(info@).unwrap()[j]).0,
{
    lemma_keys_differ(WireField::Duration, WireField::MimeType);
    lemma_keys_differ(WireField::Duration, WireField::Size);
    lemma_keys_differ(WireField::MimeType, WireField::Size);
}

/// A member under a key that the content does not have, put into a wire object at any place,
/// changes nothing of what is read from it.
pub proof fn lemma_unknown_member_is_ignored(
    members: Seq<(Seq<char>, JsonModel)>,
    at: int,
    key: Seq<char>,
    value: JsonModel,
)
    requires
        0 <= at <= members.len(),
        key != WireField::Body.key_spec(),
        key != WireField::Url.key_spec(),
        key != WireField::File.key_spec(),
        key != WireField::Info.key_spec(),
    ensures
        decode_content(members.insert(at, (key, value))) == decode_content(members),
{
    lemma_lookup_ignores_other_names(members, at, (key, value), WireField::Body.key_spec());
    lemma_lookup_ignores_other_names(members, at, (key, value), WireField::Url.key_spec());
    lemma_lookup_ignores_other_names(members, at, (key, value), WireField::File.key_spec());
    lemma_lookup_ignores_other_names(members, at, (key, value), WireField::Info.key_spec());
}

/// A member under a key that metadata does not have, put into its object at any place,
/// changes nothing of what is read from it.
pub proof fn lemma_unknown_info_member_is_ignored(
    members: Seq<(Seq<char>, JsonModel)>,
    at: int,
    key: Seq<char>,
    value: JsonModel,
)
    requires
        0 <= at <= members.len(),
        key != WireField::Duration.key_spec(),
        key != WireField::MimeType.key_spec(),
        key != WireField::Size.key_spec(),
    ensures
        decode_info(members.insert(at, (key, value))) == decode_info(members),
{
    lemma_lookup_ignores_other_names(members, at, (key, value), WireField::Duration.key_spec());
    lemma_lookup_ignores_other_names(members, at, (key, value), WireField::MimeType.key_spec());
    lemma_lookup_ignores_other_names(members, at, (key, value), WireField::Size.key_spec());
}

} // verus!
