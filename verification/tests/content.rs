use audio_message::{
    AudioInfo, AudioMessageEventContent, ClipDuration, DecodeError, EncodeError, EncryptedFile,
    JsonNumber, JsonObject, JsonValue, MediaSource, SafeUInt, WireField, MAX_SAFE_UINT,
};

fn text(s: &str) -> JsonValue {
    JsonValue::String(s.to_string())
}

fn number(n: u64) -> JsonValue {
    JsonValue::Number(JsonNumber::Unsigned(n))
}

fn object(members: Vec<(&str, JsonValue)>) -> JsonObject {
    let mut made = JsonObject::new();
    for (key, value) in members {
        made.push(key.to_string(), value);
    }
    made
}

fn descriptor() -> JsonObject {
    object(vec![
        ("url", text("mxc://example.org/enc")),
        (
            "key",
            JsonValue::Object(object(vec![("kty", text("oct")), ("ext", JsonValue::Bool(true))])),
        ),
        ("iv", text("w+sE15fzSc0AAAAAAAAAAA")),
        (
            "hashes",
            JsonValue::Object(object(vec![(
                "sha256",
                text("fdSLu/YkRx3Wyh3KQabP3rd6+SFiKg5lsJZQHtkSAYA"),
            )])),
        ),
        ("v", text("v2")),
    ])
}

fn info(duration: Option<ClipDuration>, mimetype: Option<&str>, size: Option<u64>) -> AudioInfo {
    let mut made = AudioInfo::new();
    made.duration = duration;
    made.mimetype = mimetype.map(|m| m.to_string());
    made.size = size.map(|n| SafeUInt::new(n).expect("a size in range"));
    made
}

fn cat() -> AudioMessageEventContent {
    AudioMessageEventContent::plain("cat.ogg".to_string(), "mxc://example.org/abc".to_string())
}

#[test]
fn new_content_has_no_info() {
    let source = MediaSource::plain("mxc://example.org/abc".to_string());
    let made = AudioMessageEventContent::new("cat.ogg".to_string(), source.clone());
    assert_eq!(made.body, "cat.ogg");
    assert_eq!(made.source, source);
    assert_eq!(made.info, None);
}

#[test]
fn plain_content_has_a_plain_source() {
    let made = cat();
    assert_eq!(made.body, "cat.ogg");
    assert_eq!(made.source, MediaSource::Plain("mxc://example.org/abc".to_string()));
    assert_eq!(made.info, None);
    assert_eq!(
        made,
        AudioMessageEventContent::new(
            "cat.ogg".to_string(),
            MediaSource::plain("mxc://example.org/abc".to_string())
        )
    );
}

#[test]
fn encrypted_content_has_an_encrypted_source() {
    let file = EncryptedFile { descriptor: descriptor() };
    let made = AudioMessageEventContent::encrypted("secret.ogg".to_string(), file.clone());
    assert_eq!(made.body, "secret.ogg");
    assert_eq!(made.source, MediaSource::Encrypted(Box::new(file)));
    assert_eq!(made.info, None);
}

#[test]
fn the_body_may_be_empty() {
    let made = AudioMessageEventContent::plain(String::new(), "mxc://example.org/abc".to_string());
    assert_eq!(made.body, "");
    let written = made.encode().expect("nothing that cannot be written");
    assert_eq!(written.get("body"), Some(&text("")));
    assert_eq!(AudioMessageEventContent::decode(&written), Ok(made));
}

#[test]
fn info_replaces_the_info_and_nothing_else() {
    let first = info(Some(ClipDuration::from_millis(2500)), Some("audio/ogg"), None);
    let second = info(None, None, Some(3));
    let with_first = cat().info(Some(Box::new(first.clone())));
    assert_eq!(with_first.body, "cat.ogg");
    assert_eq!(with_first.source, MediaSource::Plain("mxc://example.org/abc".to_string()));
    assert_eq!(with_first.info, Some(Box::new(first)));
    let with_second = with_first.clone().info(Some(Box::new(second.clone())));
    assert_eq!(with_second.body, with_first.body);
    assert_eq!(with_second.source, with_first.source);
    assert_eq!(with_second.info, Some(Box::new(second)));
    let without = with_second.info(None);
    assert_eq!(without, cat());
}

#[test]
fn plain_content_is_written_as_msgtype_body_url() {
    assert_eq!(
        cat().encode(),
        Ok(object(vec![
            ("msgtype", text("m.audio")),
            ("body", text("cat.ogg")),
            ("url", text("mxc://example.org/abc")),
        ]))
    );
}

#[test]
fn encrypted_content_is_written_as_msgtype_body_file() {
    let made = AudioMessageEventContent::encrypted(
        "secret.ogg".to_string(),
        EncryptedFile { descriptor: descriptor() },
    );
    assert_eq!(
        made.encode(),
        Ok(object(vec![
            ("msgtype", text("m.audio")),
            ("body", text("secret.ogg")),
            ("file", JsonValue::Object(descriptor())),
        ]))
    );
}

#[test]
fn info_is_written_last_under_its_own_key() {
    let made = cat().info(Some(Box::new(info(
        Some(ClipDuration::from_millis(2500)),
        Some("audio/ogg"),
        None,
    ))));
    assert_eq!(
        made.encode(),
        Ok(object(vec![
            ("msgtype", text("m.audio")),
            ("body", text("cat.ogg")),
            ("url", text("mxc://example.org/abc")),
            (
                "info",
                JsonValue::Object(object(vec![
                    ("duration", number(2500)),
                    ("mimetype", text("audio/ogg")),
                ]))
            ),
        ]))
    );
}

#[test]
fn absent_info_is_left_out() {
    let written = cat().encode().expect("nothing that cannot be written");
    assert_eq!(written.get("info"), None);
    assert_eq!(written.members.len(), 3);
}

#[test]
fn content_with_empty_info_carries_the_empty_object() {
    let made = cat().info(Some(Box::new(AudioInfo::new())));
    let written = made.encode().expect("nothing that cannot be written");
    assert_eq!(written.get("info"), Some(&JsonValue::Object(JsonObject::new())));
    assert_eq!(written.members.len(), 4);
}

#[test]
fn exactly_one_of_url_and_file_is_written() {
    let plain = cat().encode().expect("nothing that cannot be written");
    assert!(plain.get("url").is_some());
    assert!(plain.get("file").is_none());
    let encrypted = AudioMessageEventContent::encrypted(
        "secret.ogg".to_string(),
        EncryptedFile { descriptor: descriptor() },
    )
    .encode()
    .expect("nothing that cannot be written");
    assert!(encrypted.get("file").is_some());
    assert!(encrypted.get("url").is_none());
}

#[test]
fn a_descriptor_with_a_url_of_its_own_does_not_make_a_second_source() {
    let made = AudioMessageEventContent::encrypted(
        "secret.ogg".to_string(),
        EncryptedFile { descriptor: descriptor() },
    );
    let written = made.encode().expect("nothing that cannot be written");
    assert_eq!(written.get("url"), None);
    assert_eq!(AudioMessageEventContent::decode(&written), Ok(made));
}

#[test]
fn content_with_a_duration_out_of_range_is_not_written() {
    let made = cat().info(Some(Box::new(info(
        Some(ClipDuration::from_millis(MAX_SAFE_UINT + 1)),
        None,
        None,
    ))));
    assert_eq!(made.encode(), Err(EncodeError::DurationOutOfRange));
}

#[test]
fn content_that_is_written_reads_back() {
    let file = EncryptedFile { descriptor: descriptor() };
    let cases = [
        cat(),
        cat().info(Some(Box::new(AudioInfo::new()))),
        cat().info(Some(Box::new(info(
            Some(ClipDuration::from_millis(2500)),
            Some("audio/ogg"),
            Some(4096),
        )))),
        AudioMessageEventContent::encrypted("secret.ogg".to_string(), file.clone()),
        AudioMessageEventContent::encrypted("secret.ogg".to_string(), file).info(Some(Box::new(
            info(Some(ClipDuration::from_millis(MAX_SAFE_UINT)), None, Some(MAX_SAFE_UINT)),
        ))),
        AudioMessageEventContent::encrypted(
            String::new(),
            EncryptedFile { descriptor: JsonObject::new() },
        ),
    ];
    for made in cases {
        let written = made.encode().expect("a duration in range");
        assert_eq!(AudioMessageEventContent::decode(&written), Ok(made));
    }
}

#[test]
fn a_fraction_of_a_millisecond_is_lost_on_the_way() {
    let made = cat().info(Some(Box::new(info(ClipDuration::new(2, 500_000_001), None, None))));
    let written = made.encode().expect("a duration in range");
    let read = AudioMessageEventContent::decode(&written).expect("what was written");
    assert_eq!(
        read,
        cat().info(Some(Box::new(info(Some(ClipDuration::from_millis(2500)), None, None))))
    );
    assert_ne!(read, made);
}

#[test]
fn an_unknown_member_is_dropped_wherever_it_stands() {
    let known = vec![
        ("msgtype", text("m.audio")),
        ("body", text("cat.ogg")),
        ("url", text("mxc://example.org/abc")),
    ];
    for at in 0..=known.len() {
        let mut members = known.clone();
        members.insert(at, ("future_field", number(1)));
        let read = AudioMessageEventContent::decode(&object(members));
        assert_eq!(read, Ok(cat()));
        let again = read.unwrap().encode().expect("nothing that cannot be written");
        assert_eq!(again.get("future_field"), None);
    }
}

#[test]
fn unknown_members_of_any_shape_are_ignored() {
    let from = object(vec![
        ("format", text("org.matrix.custom.html")),
        ("body", text("cat.ogg")),
        ("m.relates_to", JsonValue::Object(object(vec![("rel_type", text("m.thread"))]))),
        ("url", text("mxc://example.org/abc")),
        ("voice", JsonValue::Null),
        ("weights", JsonValue::Array(vec![JsonValue::Number(JsonNumber::Float(0.5f64.to_bits()))])),
    ]);
    assert_eq!(AudioMessageEventContent::decode(&from), Ok(cat()));
}

#[test]
fn the_tag_is_not_read() {
    let without = object(vec![("body", text("cat.ogg")), ("url", text("mxc://example.org/abc"))]);
    assert_eq!(AudioMessageEventContent::decode(&without), Ok(cat()));
    let other = object(vec![
        ("msgtype", text("m.image")),
        ("body", text("cat.ogg")),
        ("url", text("mxc://example.org/abc")),
    ]);
    assert_eq!(AudioMessageEventContent::decode(&other), Ok(cat()));
}

#[test]
fn a_missing_source_is_a_missing_field() {
    let from = object(vec![("msgtype", text("m.audio")), ("body", text("x"))]);
    assert_eq!(
        AudioMessageEventContent::decode(&from),
        Err(DecodeError::MissingRequiredField(WireField::Url))
    );
}

#[test]
fn a_missing_body_is_a_missing_field() {
    let from = object(vec![("msgtype", text("m.audio")), ("url", text("mxc://example.org/abc"))]);
    assert_eq!(
        AudioMessageEventContent::decode(&from),
        Err(DecodeError::MissingRequiredField(WireField::Body))
    );
    assert_eq!(
        AudioMessageEventContent::decode(&JsonObject::new()),
        Err(DecodeError::MissingRequiredField(WireField::Body))
    );
}

#[test]
fn a_body_that_is_no_string_is_malformed() {
    for value in [number(1), JsonValue::Null, JsonValue::Array(vec![text("cat.ogg")])] {
        let from = object(vec![("body", value), ("url", text("mxc://example.org/abc"))]);
        assert_eq!(
            AudioMessageEventContent::decode(&from),
            Err(DecodeError::MalformedField(WireField::Body))
        );
    }
}

#[test]
fn both_sources_read_as_encrypted() {
    let from = object(vec![
        ("msgtype", text("m.audio")),
        ("body", text("secret.ogg")),
        ("url", text("mxc://example.org/abc")),
        ("file", JsonValue::Object(descriptor())),
    ]);
    assert_eq!(
        AudioMessageEventContent::decode(&from),
        Ok(AudioMessageEventContent::encrypted(
            "secret.ogg".to_string(),
            EncryptedFile { descriptor: descriptor() }
        ))
    );
}

#[test]
fn a_malformed_source_fails_the_whole() {
    let from = object(vec![("body", text("x")), ("file", text("mxc://example.org/abc"))]);
    assert_eq!(
        AudioMessageEventContent::decode(&from),
        Err(DecodeError::MalformedField(WireField::File))
    );
    let from = object(vec![("body", text("x")), ("url", number(7))]);
    assert_eq!(
        AudioMessageEventContent::decode(&from),
        Err(DecodeError::MalformedField(WireField::Url))
    );
}

#[test]
fn info_is_read_from_under_its_key() {
    let from = object(vec![
        ("body", text("cat.ogg")),
        (
            "info",
            JsonValue::Object(object(vec![
                ("size", number(4096)),
                ("duration", number(2500)),
                ("mimetype", text("audio/ogg")),
            ])),
        ),
        ("url", text("mxc://example.org/abc")),
    ]);
    assert_eq!(
        AudioMessageEventContent::decode(&from),
        Ok(cat().info(Some(Box::new(info(
            Some(ClipDuration::from_millis(2500)),
            Some("audio/ogg"),
            Some(4096)
        )))))
    );
}

#[test]
fn an_empty_info_object_reads_as_empty_info_not_as_none() {
    let from = object(vec![
        ("body", text("cat.ogg")),
        ("url", text("mxc://example.org/abc")),
        ("info", JsonValue::Object(JsonObject::new())),
    ]);
    assert_eq!(
        AudioMessageEventContent::decode(&from),
        Ok(cat().info(Some(Box::new(AudioInfo::new()))))
    );
}

#[test]
fn a_null_info_reads_as_none() {
    let from = object(vec![
        ("body", text("cat.ogg")),
        ("url", text("mxc://example.org/abc")),
        ("info", JsonValue::Null),
    ]);
    assert_eq!(AudioMessageEventContent::decode(&from), Ok(cat()));
}

#[test]
fn an_info_that_is_no_object_is_malformed() {
    for value in [text("audio/ogg"), number(1), JsonValue::Array(vec![])] {
        let from = object(vec![
            ("body", text("cat.ogg")),
            ("url", text("mxc://example.org/abc")),
            ("info", value),
        ]);
        assert_eq!(
            AudioMessageEventContent::decode(&from),
            Err(DecodeError::MalformedField(WireField::Info))
        );
    }
}

#[test]
fn a_malformed_member_of_info_fails_the_whole() {
    let from = object(vec![
        ("body", text("cat.ogg")),
        ("url", text("mxc://example.org/abc")),
        ("info", JsonValue::Object(object(vec![("size", text("large"))]))),
    ]);
    assert_eq!(
        AudioMessageEventContent::decode(&from),
        Err(DecodeError::MalformedField(WireField::Size))
    );
}

#[test]
fn the_body_is_judged_before_the_source_and_the_source_before_the_info() {
    let all_wrong = object(vec![("info", number(1)), ("url", number(2)), ("body", number(3))]);
    assert_eq!(
        AudioMessageEventContent::decode(&all_wrong),
        Err(DecodeError::MalformedField(WireField::Body))
    );
    let body_right = object(vec![("info", number(1)), ("url", number(2)), ("body", text("x"))]);
    assert_eq!(
        AudioMessageEventContent::decode(&body_right),
        Err(DecodeError::MalformedField(WireField::Url))
    );
    let no_source = object(vec![("info", number(1)), ("body", text("x"))]);
    assert_eq!(
        AudioMessageEventContent::decode(&no_source),
        Err(DecodeError::MissingRequiredField(WireField::Url))
    );
    let only_info_wrong =
        object(vec![("info", number(1)), ("url", text("mxc://a/b")), ("body", text("x"))]);
    assert_eq!(
        AudioMessageEventContent::decode(&only_info_wrong),
        Err(DecodeError::MalformedField(WireField::Info))
    );
}

#[test]
fn members_of_info_are_not_looked_for_beside_it() {
    let from = object(vec![
        ("body", text("cat.ogg")),
        ("url", text("mxc://example.org/abc")),
        ("duration", number(2500)),
        ("size", text("not read")),
    ]);
    assert_eq!(AudioMessageEventContent::decode(&from), Ok(cat()));
}

#[test]
fn only_known_keys_are_written_and_each_once() {
    let full = info(Some(ClipDuration::from_millis(1)), Some("audio/ogg"), Some(2));
    let cases = [
        cat(),
        cat().info(Some(Box::new(full.clone()))),
        AudioMessageEventContent::encrypted(
            "secret.ogg".to_string(),
            EncryptedFile { descriptor: descriptor() },
        )
        .info(Some(Box::new(full))),
    ];
    for made in cases {
        let written = made.encode().expect("a duration in range");
        let keys: Vec<&str> = written.members.iter().map(|(key, _)| key.as_str()).collect();
        for (i, key) in keys.iter().enumerate() {
            assert!(["msgtype", "body", "url", "file", "info"].contains(key));
            assert!(!keys[..i].contains(key));
        }
        if let Some(JsonValue::Object(inner)) = written.get("info") {
            let keys: Vec<&str> = inner.members.iter().map(|(key, _)| key.as_str()).collect();
            for (i, key) in keys.iter().enumerate() {
                assert!(["duration", "mimetype", "size"].contains(key));
                assert!(!keys[..i].contains(key));
            }
        }
    }
}

#[test]
fn what_was_read_can_be_written_and_read_again() {
    let from = object(vec![
        ("future_field", number(1)),
        ("info", JsonValue::Object(object(vec![("duration", number(MAX_SAFE_UINT))]))),
        ("file", JsonValue::Object(descriptor())),
        ("url", text("mxc://example.org/abc")),
        ("body", text("b")),
    ]);
    let read = AudioMessageEventContent::decode(&from).expect("well-formed content");
    let written = read.encode().expect("what was read can be written");
    assert_eq!(AudioMessageEventContent::decode(&written), Ok(read));
}
