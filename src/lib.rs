//! Receives push notifications from a source-control host: routes an HTTP
//! request, decodes its JSON payload into a typed event, and manages the
//! lifetime of the listening socket.

pub mod json;
pub mod notification;
pub mod server;
pub mod testing;

pub use json::Json;
pub use notification::{decode, DecodeError, Field, PushNotification, ToNotification};
pub use server::{get_kind, notification_for, ConnectionCloser, NotificationKind, NotificationReceiver};
pub use testing::Sendable;
