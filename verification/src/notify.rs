//! Rendering the notification and judging the webhook's reply.
//!
//! The notifier's fixed template embeds the status name in a German
//! sentence, wraps the sentence in a single-field JSON object, and counts
//! a delivery as successful exactly when the webhook answers with HTTP
//! 202.

use vstd::prelude::*;
use vstd::string::*;

use crate::status::RoomStatus;

verus! {

/// The HTTP status code the webhook answers with on an accepted delivery.
pub const ACCEPTED_STATUS: u16 = 202;

/// Why a notification failed to go out.
#[derive(Debug, Clone, Copy, PartialEq, Eq, Structural)]
pub enum NotifyError {
    /// The webhook answered, but with this code instead of HTTP 202.
    UnexpectedStatus(u16),
    /// The request never got an answer: a transport-level failure.
    Transport,
}

/// The name embedded in the rendered sentence.
pub open spec fn spec_status_name(status: RoomStatus) -> Seq<char> {
    if status is Open {
        "open"@
    } else {
        "closed"@
    }
}

/// The rendered sentence: the fixed template with the status name
/// embedded.
pub open spec fn spec_message(status: RoomStatus) -> Seq<char> {
    "Der Raum ist aktuell "@ + spec_status_name(status) + "!"@
}

/// The body posted to the webhook: a single-field JSON object carrying
/// the rendered sentence.
pub open spec fn spec_payload(status: RoomStatus) -> Seq<char> {
    "{\"text\":\""@ + spec_message(status) + "\"}"@
}

/// Renders the notification sentence for `status`.
pub fn render_message(status: RoomStatus) -> (r: String)
    ensures
        r@ == spec_message(status),
{
    let mut s = String::from_str("Der Raum ist aktuell ");
    s.append(status.name());
    s.append("!");
    proof {
        assert(s@ =~= spec_message(status));
    }
    s
}

/// Builds the webhook body for `status`: the rendered sentence wrapped as
/// `{"text": ...}`. Neither sentence holds a character that JSON requires
/// to be escaped, so the wrapping is plain concatenation.
pub fn notification_payload(status: RoomStatus) -> (r: String)
    ensures
        r@ == spec_payload(status),
{
    let mut s = String::from_str("{\"text\":\"");
    let msg = render_message(status);
    s.append(msg.as_str());
    s.append("\"}");
    proof {
        assert(s@ =~= spec_payload(status));
    }
    s
}

/// Judges the webhook's reply to one delivery: `None` stands for a
/// transport-level failure, `Some(code)` for an answer with that HTTP
/// status code. Exactly an HTTP 202 answer counts as success.
pub fn evaluate_webhook_reply(reply: Option<u16>) -> (r: Result<(), NotifyError>)
    ensures
        r is Ok <==> reply == Some(ACCEPTED_STATUS),
        reply is None ==> r == Err::<(), NotifyError>(NotifyError::Transport),
        (reply matches Some(c) && c != ACCEPTED_STATUS) ==> r == Err::<(), NotifyError>(
            NotifyError::UnexpectedStatus(reply->0),
        ),
{
    match reply {
        Some(code) => {
            if code == ACCEPTED_STATUS {
                Ok(())
            } else {
                Err(NotifyError::UnexpectedStatus(code))
            }
        },
        None => Err(NotifyError::Transport),
    }
}

} // verus!
