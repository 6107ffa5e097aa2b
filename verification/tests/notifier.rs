use spacestate::{
    evaluate_webhook_reply, notification_payload, render_message, NotifyError, RoomStatus,
};

#[test]
fn messages_render_the_status_name() {
    assert_eq!(render_message(RoomStatus::Open), "Der Raum ist aktuell open!");
    assert_eq!(render_message(RoomStatus::Closed), "Der Raum ist aktuell closed!");
}

#[test]
fn payload_wraps_the_message_as_json() {
    assert_eq!(
        notification_payload(RoomStatus::Open),
        r#"{"text":"Der Raum ist aktuell open!"}"#
    );
    assert_eq!(
        notification_payload(RoomStatus::Closed),
        r#"{"text":"Der Raum ist aktuell closed!"}"#
    );
}

#[test]
fn payload_is_a_document_serde_reads_back() {
    let payload = notification_payload(RoomStatus::Open);
    let value: serde_json::Value = serde_json::from_str(&payload).unwrap();
    assert_eq!(
        value.get("text").and_then(|t| t.as_str()),
        Some("Der Raum ist aktuell open!")
    );
}

#[test]
fn accepted_reply_is_success() {
    assert_eq!(evaluate_webhook_reply(Some(202)), Ok(()));
}

#[test]
fn other_codes_and_transport_failures_are_errors() {
    assert_eq!(
        evaluate_webhook_reply(Some(500)),
        Err(NotifyError::UnexpectedStatus(500))
    );
    assert_eq!(
        evaluate_webhook_reply(Some(200)),
        Err(NotifyError::UnexpectedStatus(200))
    );
    assert_eq!(evaluate_webhook_reply(None), Err(NotifyError::Transport));
}
