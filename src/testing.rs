//! Payloads that a source-control host sends to the listener, as text.

use vstd::prelude::*;

use crate::notification::{PushNotification, PushNotificationView};

verus! {

/// Something to send to the listener: a push, written out as the host
/// writes it, or any text at all.
pub enum Sendable<'a> {
    SendPush(PushNotification),
    SendString(&'a str),
}

/// The JSON text of a push for `n`, its branch under `refs/head/`.
pub open spec fn push_payload(n: PushNotificationView) -> Seq<char> {
    "{ \"ref\": \"refs/head/"@ + n.branch + "\", \"repository\": { \"clone_url\": \""@ + n.clone_url
        + "\" } }"@
}

impl<'a> Sendable<'a> {
    /// The text that is sent.
    pub open spec fn payload(&self) -> Seq<char> {
        match self {
            Sendable::SendPush(n) => push_payload(n@),
            Sendable::SendString(s) => s@,
        }
    }

    /// Returns the text that is sent.
    pub fn to_string(&self) -> (r: String)
        ensures
            r@ == self.payload(),
    {
        match self {
            Sendable::SendPush(push) => {
                let mut s = "{ \"ref\": \"refs/head/".to_owned();
                s.append(push.branch.as_str());
                s.append("\", \"repository\": { \"clone_url\": \"");
                s.append(push.clone_url.as_str());
                s.append("\" } }");
                s
            },
            Sendable::SendString(s) => (*s).to_owned(),
        }
    }
}

} // verus!
