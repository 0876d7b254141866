use plex_webhook::dispatch::{Action, Stage};
use plex_webhook::plex::{
    decode, handle_webhook, is_payload_name, join_chunks, DecodeError, FormData, Part, PartData,
    BAD_REQUEST, INTERNAL_SERVER_ERROR, OK,
};
use plex_webhook::{App, MAX_LENGTH};

const EXAMPLE: &str = r#"{"event":"media.play","user":true,"owner":false,"Account":{"id":1,"thumb":"t","title":"alice"},"Server":{"title":"home","uuid":"s-1"},"Player":{"local":true,"publicAddress":"1.2.3.4","title":"livingroom","uuid":"p-1"}}"#;

const NO_ACCOUNT: &str = r#"{"event":"media.play","user":true,"owner":false,"Server":{"title":"home","uuid":"s-1"},"Player":{"local":true,"publicAddress":"1.2.3.4","title":"livingroom","uuid":"p-1"}}"#;

fn app() -> App {
    App { cmd: "event.sh".to_string(), timeout: 5 }
}

fn part(name: &str, text: &str) -> Part {
    Part { name: name.to_string(), data: PartData::Read(vec![text.as_bytes().to_vec()]) }
}

fn form(parts: Vec<Part>) -> FormData {
    FormData::Parts(parts)
}

#[test]
fn body_limit_is_one_mebibyte() {
    assert_eq!(MAX_LENGTH, 1_048_576);
}

#[test]
fn status_codes() {
    assert_eq!(OK, 200);
    assert_eq!(BAD_REQUEST, 400);
    assert_eq!(INTERNAL_SERVER_ERROR, 500);
}

#[test]
fn payload_name_is_exact() {
    assert!(is_payload_name(&"payload".to_string()));
    assert!(!is_payload_name(&"Payload".to_string()));
    assert!(!is_payload_name(&"payload ".to_string()));
    assert!(!is_payload_name(&"payloads".to_string()));
    assert!(!is_payload_name(&"".to_string()));
}

#[test]
fn chunks_are_joined_in_order() {
    assert_eq!(join_chunks(&vec![]), Vec::<u8>::new());
    assert_eq!(join_chunks(&vec![vec![1, 2], vec![], vec![3], vec![4, 5, 6]]), vec![1, 2, 3, 4, 5, 6]);
}

#[test]
fn empty_body_has_no_payload() {
    let body = form(vec![]);
    assert_eq!(decode(&body), Err(DecodeError::NotFound));
    let reply = handle_webhook(&body, &app());
    assert_eq!(reply.status, 400);
    assert!(reply.dispatch.is_none());
}

#[test]
fn body_without_payload_part_is_not_found() {
    let body = form(vec![part("thumb", "jpeg bytes"), part("Payload", EXAMPLE), part("other", EXAMPLE)]);
    assert_eq!(decode(&body), Err(DecodeError::NotFound));
    let reply = handle_webhook(&body, &app());
    assert_eq!(reply.status, 400);
    assert!(reply.dispatch.is_none());
}

#[test]
fn payload_missing_account_is_bad_request() {
    let body = form(vec![part("payload", NO_ACCOUNT)]);
    assert_eq!(decode(&body), Err(DecodeError::NotFound));
    let reply = handle_webhook(&body, &app());
    assert_eq!(reply.status, 400);
    assert!(reply.dispatch.is_none());
}

#[test]
fn well_formed_payload_is_decoded() {
    let body = form(vec![part("payload", EXAMPLE)]);
    let record = decode(&body).expect("the example decodes");
    assert_eq!(record.event, "media.play");
    assert!(record.user);
    assert!(!record.owner);
    assert_eq!(record.account.id, 1);
    assert_eq!(record.account.thumb, "t");
    assert_eq!(record.account.title, "alice");
    assert_eq!(record.server.title, "home");
    assert_eq!(record.server.uuid, "s-1");
    assert!(record.player.local);
    assert_eq!(record.player.public_address, "1.2.3.4");
    assert_eq!(record.player.title, "livingroom");
    assert_eq!(record.player.uuid, "p-1");
}

#[test]
fn well_formed_payload_is_answered_with_ok_and_a_dispatch() {
    let body = form(vec![part("thumb", "jpeg bytes"), part("payload", EXAMPLE)]);
    let reply = handle_webhook(&body, &app());
    assert_eq!(reply.status, 200);
    let dispatch = reply.dispatch.expect("a dispatch is started");
    assert_eq!(dispatch.stage(), Stage::Resolve);
    assert_eq!(dispatch.action(), Action::Resolve { cmd: "event.sh".to_string() });
}

#[test]
fn chunked_payload_is_joined_before_decoding() {
    let bytes = EXAMPLE.as_bytes();
    let chunks = vec![bytes[..10].to_vec(), Vec::new(), bytes[10..57].to_vec(), bytes[57..].to_vec()];
    let body = form(vec![Part { name: "payload".to_string(), data: PartData::Read(chunks) }]);
    let whole = form(vec![part("payload", EXAMPLE)]);
    assert!(decode(&body).is_ok());
    assert_eq!(decode(&body), decode(&whole));
}

#[test]
fn malformed_body_is_a_stream_error() {
    assert_eq!(decode(&FormData::Failed), Err(DecodeError::StreamError));
    let reply = handle_webhook(&FormData::Failed, &app());
    assert_eq!(reply.status, 500);
    assert!(reply.dispatch.is_none());
}

#[test]
fn unreadable_payload_part_is_a_stream_error() {
    let body = form(vec![Part { name: "payload".to_string(), data: PartData::Failed }, part("payload", EXAMPLE)]);
    assert_eq!(decode(&body), Err(DecodeError::StreamError));
    assert_eq!(handle_webhook(&body, &app()).status, 500);
}

#[test]
fn unreadable_part_of_another_name_is_skipped() {
    let body = form(vec![Part { name: "thumb".to_string(), data: PartData::Failed }, part("payload", EXAMPLE)]);
    assert!(decode(&body).is_ok());
    assert_eq!(handle_webhook(&body, &app()).status, 200);
}

#[test]
fn first_payload_part_decides_alone() {
    let body = form(vec![part("payload", NO_ACCOUNT), part("payload", EXAMPLE)]);
    assert_eq!(decode(&body), Err(DecodeError::NotFound));
    assert_eq!(handle_webhook(&body, &app()).status, 400);
}

#[test]
fn parts_after_the_payload_are_ignored() {
    let body = form(vec![
        part("payload", EXAMPLE),
        part("payload", "not json"),
        Part { name: "payload".to_string(), data: PartData::Failed },
    ]);
    let record = decode(&body).expect("the first payload part decodes");
    assert_eq!(record.account.title, "alice");
}

#[test]
fn payload_that_is_not_json_is_not_found() {
    for text in ["", "not json", "{", "[1,2", "{\"event\":}"] {
        let body = form(vec![part("payload", text)]);
        assert_eq!(decode(&body), Err(DecodeError::NotFound), "{text}");
    }
}

#[test]
fn payload_with_trailing_text_is_not_found() {
    let text = format!("{EXAMPLE} x");
    assert_eq!(decode(&form(vec![part("payload", &text)])), Err(DecodeError::NotFound));
    let padded = format!("  {EXAMPLE}\n ");
    assert!(decode(&form(vec![part("payload", &padded)])).is_ok());
}
