//! Watches a hackerspace's published open/closed status and decides when a
//! chat webhook must be notified.
//!
//! The crate holds the decision logic of the poll/compare/notify loop: it
//! decodes the remote status document, detects transitions between two
//! observed statuses, renders the notification payload, and judges the
//! webhook's reply. The surrounding process does the network calls and the
//! sleeping and feeds the results back in as plain values.

pub mod codec;
pub mod config;
pub mod driver;
pub mod json;
pub mod notify;
pub mod status;

pub use codec::{
    Contact, DecodeError, Feeds, Icon, SpaceApiResponse, State, Wiki, decode_room_status,
    decode_status_document, status_of_document,
};
pub use config::{parse_u64, Config, ConfigError};
pub use driver::{replay_observations, Driver};
pub use notify::{evaluate_webhook_reply, notification_payload, render_message, NotifyError};
pub use status::{check, RoomStatus};
