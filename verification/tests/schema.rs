use plex_webhook::plex::{Account, Payload, Player, Server};
use plex_webhook::schema::{decode_payload, encode, payload_from_json, payload_to_json};
use serde_json::Value;

const EXAMPLE: &str = r#"{"event":"media.play","user":true,"owner":false,"Account":{"id":1,"thumb":"t","title":"alice"},"Server":{"title":"home","uuid":"s-1"},"Player":{"local":true,"publicAddress":"1.2.3.4","title":"livingroom","uuid":"p-1"}}"#;

fn example() -> Payload {
    Payload {
        event: "media.play".to_string(),
        user: true,
        owner: false,
        account: Account { id: 1, thumb: "t".to_string(), title: "alice".to_string() },
        server: Server { title: "home".to_string(), uuid: "s-1".to_string() },
        player: Player {
            local: true,
            public_address: "1.2.3.4".to_string(),
            title: "livingroom".to_string(),
            uuid: "p-1".to_string(),
        },
    }
}

fn document(text: &str) -> Value {
    serde_json::from_str(text).expect("the text is JSON")
}

/// The example with one piece of its text replaced.
fn changed(from: &str, to: &str) -> String {
    assert!(EXAMPLE.contains(from));
    EXAMPLE.replacen(from, to, 1)
}

#[test]
fn example_bytes_decode_to_the_record() {
    assert_eq!(decode_payload(EXAMPLE.as_bytes()), Some(example()));
}

#[test]
fn example_document_holds_the_record() {
    assert_eq!(payload_from_json(&document(EXAMPLE)), Some(example()));
}

#[test]
fn every_field_is_required() {
    let pieces = [
        r#""event":"media.play","#,
        r#""user":true,"#,
        r#""owner":false,"#,
        r#""Account":{"id":1,"thumb":"t","title":"alice"},"#,
        r#""Server":{"title":"home","uuid":"s-1"},"#,
        r#","Player":{"local":true,"publicAddress":"1.2.3.4","title":"livingroom","uuid":"p-1"}"#,
        r#""id":1,"#,
        r#""thumb":"t","#,
        r#","title":"alice""#,
        r#""title":"home","#,
        r#","uuid":"s-1""#,
        r#""local":true,"#,
        r#""publicAddress":"1.2.3.4","#,
        r#""title":"livingroom","#,
        r#","uuid":"p-1""#,
    ];
    for piece in pieces {
        let text = changed(piece, "");
        let doc = document(&text);
        assert_eq!(payload_from_json(&doc), None, "{text}");
        assert_eq!(decode_payload(text.as_bytes()), None, "{text}");
    }
}

#[test]
fn every_field_has_its_type() {
    let changes = [
        (r#""event":"media.play""#, r#""event":7"#),
        (r#""user":true"#, r#""user":"true""#),
        (r#""owner":false"#, r#""owner":0"#),
        (r#""owner":false"#, r#""owner":null"#),
        (r#""id":1"#, r#""id":"1""#),
        (r#""id":1"#, r#""id":-1"#),
        (r#""id":1"#, r#""id":1.5"#),
        (r#""id":1"#, r#""id":18446744073709551616"#),
        (r#""thumb":"t""#, r#""thumb":["t"]"#),
        (r#""uuid":"s-1""#, r#""uuid":{}"#),
        (r#""local":true"#, r#""local":1"#),
        (r#""publicAddress":"1.2.3.4""#, r#""publicAddress":null"#),
        (r#""Account":{"id":1,"thumb":"t","title":"alice"}"#, r#""Account":[1,"t","alice"]"#),
        (r#""Server":{"title":"home","uuid":"s-1"}"#, r#""Server":"home""#),
    ];
    for (from, to) in changes {
        let text = changed(from, to);
        assert_eq!(payload_from_json(&document(&text)), None, "{text}");
    }
}

#[test]
fn largest_account_id_is_kept() {
    let text = changed(r#""id":1"#, r#""id":18446744073709551615"#);
    let record = decode_payload(text.as_bytes()).expect("the id fits");
    assert_eq!(record.account.id, u64::MAX);
}

#[test]
fn keys_are_read_in_their_own_casing() {
    for (from, to) in [
        ("\"Account\"", "\"account\""),
        ("\"Server\"", "\"server\""),
        ("\"Player\"", "\"player\""),
        ("\"publicAddress\"", "\"public_address\""),
        ("\"publicAddress\"", "\"PublicAddress\""),
        ("\"event\"", "\"Event\""),
    ] {
        let text = changed(from, to);
        assert_eq!(decode_payload(text.as_bytes()), None, "{text}");
    }
}

#[test]
fn members_that_are_not_fields_are_ignored() {
    let text = changed(r#""user":true"#, r#""Metadata":{"title":"film","Account":3},"user":true"#);
    assert_eq!(decode_payload(text.as_bytes()), Some(example()));
    let nested = changed(r#""uuid":"p-1""#, r#""uuid":"p-1","event":"other""#);
    assert_eq!(decode_payload(nested.as_bytes()), Some(example()));
}

#[test]
fn document_that_is_no_object_holds_no_record() {
    for text in ["null", "true", "1", "\"payload\"", "[]", "{}"] {
        assert_eq!(payload_from_json(&document(text)), None, "{text}");
        assert_eq!(decode_payload(text.as_bytes()), None, "{text}");
    }
}

#[test]
fn strings_are_unescaped() {
    let text = changed(r#""title":"alice""#, r#""title":"al\"iceé\n""#);
    let record = decode_payload(text.as_bytes()).expect("the record decodes");
    assert_eq!(record.account.title, "al\"ice\u{e9}\n");
}

#[test]
fn record_is_written_with_its_fields_in_order() {
    assert_eq!(encode(&example()), EXAMPLE.as_bytes().to_vec());
}

#[test]
fn written_document_has_the_keys_it_is_read_from() {
    let doc = payload_to_json(&example());
    assert_eq!(doc, document(EXAMPLE));
    assert!(doc.get("account").is_none());
    assert!(doc.get("server").is_none());
    assert!(doc.get("player").is_none());
    assert_eq!(doc["Account"]["id"].as_u64(), Some(1));
    assert_eq!(doc["Server"]["uuid"].as_str(), Some("s-1"));
    assert_eq!(doc["Player"]["publicAddress"].as_str(), Some("1.2.3.4"));
    assert_eq!(doc["owner"].as_bool(), Some(false));
}

#[test]
fn written_record_reads_back_unchanged() {
    let mut record = example();
    record.event = "media.\"scrobble\"\n\u{1F3AC}".to_string();
    record.user = false;
    record.owner = true;
    record.account.id = u64::MAX;
    record.account.thumb = String::new();
    record.player.local = false;
    record.player.public_address = "::1".to_string();
    let text = encode(&record);
    assert_eq!(decode_payload(&text), Some(record.clone()));
    let doc: Value = serde_json::from_slice(&text).expect("the text is JSON");
    assert_eq!(doc, payload_to_json(&record));
    assert_eq!(payload_from_json(&doc), Some(record.clone()));
    assert_eq!(payload_from_json(&payload_to_json(&record)), Some(record));
}

#[test]
fn decoded_example_is_written_as_it_was_sent() {
    let record = decode_payload(EXAMPLE.as_bytes()).expect("the example decodes");
    let sent: Value = document(EXAMPLE);
    let written: Value = serde_json::from_slice(&encode(&record)).expect("the text is JSON");
    assert_eq!(written, sent);
}
