//! Routing of incoming requests, the decision to deliver a push, and the
//! handle that closes the running hyper listener exactly once.

use vstd::prelude::*;

use crate::json::Json;
use crate::notification::{decode, decode_spec, PushNotification, PushNotificationView};

verus! {

/// Relies on hyper's `Listening`, the running server; opaque here.
#[verifier::external_type_specification]
#[verifier::external_body]
pub struct ExListening(hyper::server::Listening);

/// Relies on hyper's error type; opaque here.
#[verifier::external_type_specification]
#[verifier::external_body]
pub struct ExHyperError(hyper::Error);

/// The application's side: it is handed every push that decodes, possibly
/// from several connections at once.
pub trait NotificationReceiver: Send {
    fn receive_push_notification(&self, not: PushNotification);
}

/// The kinds of notification that the listener understands.
#[derive(Clone, Copy, Debug, PartialEq, Eq, Structural)]
pub enum NotificationKind {
    Push,
}

/// The kind of a request with this method and path: `Push` for exactly
/// `POST` on `/push_hook`, none otherwise.
pub open spec fn kind_spec(method: Seq<char>, path: Seq<char>) -> Option<NotificationKind> {
    if method == "POST"@ && path == "/push_hook"@ {
        Some(NotificationKind::Push)
    } else {
        None
    }
}

/// Classifies a request by its method and path, compared exactly.
pub fn get_kind(method: &str, path: &str) -> (r: Option<NotificationKind>)
    ensures
        r == kind_spec(method@, path@),
{
    if method.to_owned() == "POST".to_owned() && path.to_owned() == "/push_hook".to_owned() {
        Some(NotificationKind::Push)
    } else {
        None
    }
}

/// What a request of this kind delivers to the receiver, given its body as
/// parsed JSON (`None` where the body was not JSON): the decoded push, or
/// nothing where the body does not decode.
pub open spec fn delivered(kind: NotificationKind, body: Option<Json>) -> Option<PushNotificationView> {
    match kind {
        NotificationKind::Push => match body {
            Some(j) => match decode_spec(j) {
                Ok(v) => Some(v),
                Err(_) => None,
            },
            None => None,
        },
    }
}

/// A notification that may be absent, as text.
pub open spec fn option_view(r: Option<PushNotification>) -> Option<PushNotificationView> {
    match r {
        Some(n) => Some(n@),
        None => None,
    }
}

/// Decides what a routed request hands to the receiver. Malformed bodies
/// are dropped without an error.
pub fn notification_for(kind: NotificationKind, body: Option<&Json>) -> (r: Option<PushNotification>)
    ensures
        option_view(r) == delivered(
            kind,
            match body {
                Some(j) => Some(*j),
                None => None,
            },
        ),
{
    match kind {
        NotificationKind::Push => match body {
            Some(j) => match decode(j) {
                Ok(n) => Some(n),
                Err(_) => None,
            },
            None => None,
        },
    }
}

/// Relies on `hyper::server::Listening::close`, which detaches the server's
/// accept thread, and on dropping the `Listening`, which then joins nothing.
/// Neither panics.
#[verifier::external_body]
fn release(mut listener: hyper::server::Listening) -> (r: Result<(), hyper::Error>)
    opens_invariants none
    no_unwind
{
    listener.close()
}

/// The handle of a running listener. Its hyper `Listening` is handed to
/// hyper's `close` exactly once: by `close`, or when the handle is dropped
/// while still open. With hyper 0.10 that call only detaches the accept
/// thread: the port stays bound and the server goes on serving requests.
/// Closing matters all the same, since dropping a `Listening` that was never
/// closed waits on its accept thread forever.
pub struct ConnectionCloser {
    listener: Option<hyper::server::Listening>,
}

impl ConnectionCloser {
    /// Whether the `Listening` has been handed to hyper's `close` (which does
    /// not free the port).
    pub closed spec fn closed(&self) -> bool {
        self.listener is None
    }

    /// Takes charge of a running listener.
    pub fn new(listener: hyper::server::Listening) -> (r: ConnectionCloser)
        ensures
            !r.closed(),
    {
        ConnectionCloser { listener: Some(listener) }
    }

    /// Whether the `Listening` has been handed to hyper's `close` (which does
    /// not free the port).
    pub fn is_closed(&self) -> (r: bool)
        ensures
            r == self.closed(),
    {
        self.listener.is_none()
    }

    /// Hands the `Listening` to hyper's `close`, which detaches the accept
    /// thread but leaves the port bound; on a handle that is already closed
    /// it does nothing.
    pub fn close(&mut self)
        ensures
            final(self).closed(),
            old(self).closed() ==> *final(self) == *old(self),
        opens_invariants none
        no_unwind
    {
        let mut taken: Option<hyper::server::Listening> = None;
        core::mem::swap(&mut self.listener, &mut taken);
        match taken {
            Some(listener) => {
                let _ = release(listener);
            },
            None => {},
        }
    }
}

impl Drop for ConnectionCloser {
    /// Closes the handle if `close` has not already done so.
    fn drop(&mut self)
        ensures
            final(self).closed(),
            old(self).closed() ==> *final(self) == *old(self),
        opens_invariants none
        no_unwind
    {
        self.close();
    }
}

} // verus!
