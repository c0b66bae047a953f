//! The real-time channel's protocol: one connection per caller, a greeting
//! on open, then a bare echo that answers ping with pong. The transport
//! drives the loop; every decision is here.

use vstd::prelude::*;
use vstd::string::StringExecFns;

verus! {

/// One open real-time channel, carrying only the `user` parameter captured
/// at connect time.
pub struct FriendWs {
    pub user: String,
}

/// An inbound frame, as far as the protocol cares: a ping, a text frame, or
/// anything else (other frame kinds and transport errors alike).
#[derive(Clone, Debug, PartialEq)]
pub enum WsEvent {
    Ping(Vec<u8>),
    Text(String),
    Other,
}

/// What the channel answers: a pong, a text frame, or nothing.
#[derive(Clone, Debug, PartialEq)]
pub enum WsAction {
    Pong(Vec<u8>),
    Text(String),
    Nothing,
}

impl FriendWs {
    /// Opens a channel for the given caller.
    pub fn new(user: String) -> (r: FriendWs)
        ensures
            r.user@ == user@,
    {
        FriendWs { user }
    }

    /// The literal greeting line sent once, when the channel opens.
    pub fn greeting(&self) -> (r: String)
        ensures
            r@ == "Hello!\n"@,
    {
        String::from_str("Hello!\n")
    }

    /// Answers one inbound frame: a ping comes back as a pong with the same
    /// payload, a text frame is echoed unchanged, everything else is
    /// ignored.
    pub fn handle_event(&self, msg: WsEvent) -> (r: WsAction)
        ensures
            msg matches WsEvent::Ping(b) ==> r matches WsAction::Pong(b2) && b2@ == b@,
            msg matches WsEvent::Text(t) ==> r matches WsAction::Text(t2) && t2@ == t@,
            msg is Other ==> r is Nothing,
    {
        match msg {
            WsEvent::Ping(b) => WsAction::Pong(b),
            WsEvent::Text(t) => WsAction::Text(t),
            WsEvent::Other => WsAction::Nothing,
        }
    }
}

} // verus!
