use spacestate::{decode_room_status, decode_status_document, DecodeError, RoomStatus};

fn full_document() -> String {
    let mut body = String::new();
    body.push_str(r#"{"api": "0.13", "space": "Example Space", "logo": "https://example.org/logo.png","#);
    body.push_str(r#""url": "https://example.org", "ext_ccc": "chaostreff","#);
    body.push_str(r#""location": {"address": "Somewhere 1", "lat": 50.1, "lon": 8.6},"#);
    body.push_str(r#""state": {"open": true, "lastchange": 1700000000,"#);
    body.push_str(r#""icon": {"open": "https://example.org/open.png", "closed": "https://example.org/closed.png"}},"#);
    body.push_str(r#""contact": {"phone": "+49 69 1234567", "twitter": "@example", "email": "mail@example.org","#);
    body.push_str("\"matrix\": \"#space:example.org\", \"ml\": \"list@example.org\"},");
    body.push_str(r#""issue_report_channels": ["email"],"#);
    body.push_str(r#""sensors": {"temperature": [{"value": 21.5, "unit": "C", "location": "inside"}],"#);
    body.push_str(r#""network_connections": [{"type": "wifi", "location": "inside", "value": 12}]},"#);
    body.push_str(r#""feeds": {"wiki": {"url": "https://example.org/wiki"}}}"#);
    body
}

#[test]
fn open_true_decodes_to_open() {
    assert_eq!(decode_room_status(&full_document()), Ok(RoomStatus::Open));
}

#[test]
fn open_false_decodes_to_closed() {
    let body = full_document().replace("\"open\": true", "\"open\": false");
    assert_eq!(decode_room_status(&body), Ok(RoomStatus::Closed));
}

#[test]
fn full_document_fields_carry_over() {
    let doc = decode_status_document(&full_document()).unwrap();
    assert_eq!(doc.api, "0.13");
    assert_eq!(doc.space, "Example Space");
    assert_eq!(doc.logo, "https://example.org/logo.png");
    assert_eq!(doc.url, "https://example.org");
    assert_eq!(doc.ext_ccc, "chaostreff");
    assert!(doc.state.open);
    assert_eq!(doc.state.lastchange, 1700000000);
    assert_eq!(doc.state.icon.open, "https://example.org/open.png");
    assert_eq!(doc.state.icon.closed, "https://example.org/closed.png");
    assert_eq!(doc.contact.phone, "+49 69 1234567");
    assert_eq!(doc.contact.twitter, "@example");
    assert_eq!(doc.contact.email, "mail@example.org");
    assert_eq!(doc.contact.matrix, "#space:example.org");
    assert_eq!(doc.contact.ml, "list@example.org");
    assert_eq!(doc.issue_report_channels, vec!["email".to_string()]);
    assert!(doc.api_compatibility.is_empty());
    assert_eq!(doc.feeds.wiki.url, "https://example.org/wiki");
}

#[test]
fn string_lists_keep_texts_in_order() {
    let body = r#"{"state": {"open": true}, "api_compatibility": ["13", 7, "14", null, "15"]}"#;
    let doc = decode_status_document(body).unwrap();
    assert_eq!(
        doc.api_compatibility,
        vec!["13".to_string(), "14".to_string(), "15".to_string()]
    );
    assert!(doc.issue_report_channels.is_empty());
}

#[test]
fn minimal_document_still_decodes() {
    let doc = decode_status_document(r#"{"state":{"open":true}}"#).unwrap();
    assert!(doc.state.open);
    assert_eq!(doc.state.lastchange, 0);
    assert_eq!(doc.state.icon.open, "");
    assert_eq!(doc.state.icon.closed, "");
    assert_eq!(doc.api, "");
    assert_eq!(doc.space, "");
    assert_eq!(doc.contact.email, "");
    assert_eq!(doc.feeds.wiki.url, "");
    assert_eq!(
        decode_room_status(r#"{"state":{"open":false}}"#),
        Ok(RoomStatus::Closed)
    );
}

#[test]
fn unexpected_metadata_shapes_are_tolerated() {
    let body = r#"{
        "space": 42,
        "contact": "call us",
        "feeds": {"wiki": ["not", "an", "object"]},
        "state": {"open": true, "lastchange": "yesterday", "icon": 7},
        "unknown_future_field": {"deeply": ["nested", null]}
    }"#;
    let doc = decode_status_document(body).unwrap();
    assert!(doc.state.open);
    assert_eq!(doc.space, "");
    assert_eq!(doc.contact.phone, "");
    assert_eq!(doc.state.lastchange, 0);
    assert_eq!(doc.state.icon.open, "");
    assert_eq!(doc.feeds.wiki.url, "");
}

#[test]
fn missing_open_flag_is_an_error() {
    assert_eq!(
        decode_room_status(r#"{"state":{}}"#),
        Err(DecodeError::MissingOpenFlag)
    );
    assert_eq!(
        decode_room_status(r#"{"space":"Example Space"}"#),
        Err(DecodeError::MissingOpenFlag)
    );
    assert_eq!(
        decode_room_status(r#"{"state":{"open":"yes"}}"#),
        Err(DecodeError::MissingOpenFlag)
    );
    assert_eq!(
        decode_room_status(r#"{"state":[true]}"#),
        Err(DecodeError::MissingOpenFlag)
    );
    assert_eq!(decode_room_status("[1, 2, 3]"), Err(DecodeError::MissingOpenFlag));
}

#[test]
fn malformed_body_is_an_error() {
    assert_eq!(decode_room_status(""), Err(DecodeError::InvalidJson));
    assert_eq!(
        decode_room_status(r#"{"state" {"open" true}}"#),
        Err(DecodeError::InvalidJson)
    );
    assert_eq!(decode_room_status("<html></html>"), Err(DecodeError::InvalidJson));
}
