//! The closed set of messages that modules and the broker exchange.

use vstd::prelude::*;

verus! {

/// The application payload that travels on a topic.
#[derive(Clone, Copy, Debug, PartialEq, Eq, Structural)]
pub enum AppMessage {
    VideoFrame,
    FaceCoords,
}

/// A message from the broker into a module.
#[derive(Clone, Debug, PartialEq, Eq)]
pub enum InMessage {
    /// One-time initialisation.
    Startup,
    /// One-time teardown; advisory only.
    Shutdown,
    /// A periodic stimulus whose producer lies outside the kernel.
    Tick,
    /// Acknowledges that the module is now subscribed to the topic.
    Subscribed(String),
    /// Acknowledges that the module is no longer subscribed to the topic.
    Unsubscribed(String),
    /// A payload published on the topic.
    Generic(String, AppMessage),
}

/// A message from a module to the broker: the broker's API as a module sees it.
#[derive(Clone, Debug, PartialEq, Eq)]
pub enum OutMessage {
    /// Add the sending module to the topic's subscribers.
    Subscribe(String),
    /// Remove the sending module from the topic's subscribers.
    Unsubscribe(String),
    /// Publish the payload on the topic.
    Generic(String, AppMessage),
}

/// The mathematical value of an [`InMessage`]: topics are character sequences.
pub ghost enum InMsg {
    Startup,
    Shutdown,
    Tick,
    Subscribed(Seq<char>),
    Unsubscribed(Seq<char>),
    Generic(Seq<char>, AppMessage),
}

/// The mathematical value of an [`OutMessage`].
pub ghost enum OutMsg {
    Subscribe(Seq<char>),
    Unsubscribe(Seq<char>),
    Generic(Seq<char>, AppMessage),
}

impl View for InMessage {
    type V = InMsg;

    open spec fn view(&self) -> InMsg {
        match self {
            InMessage::Startup => InMsg::Startup,
            InMessage::Shutdown => InMsg::Shutdown,
            InMessage::Tick => InMsg::Tick,
            InMessage::Subscribed(t) => InMsg::Subscribed(t@),
            InMessage::Unsubscribed(t) => InMsg::Unsubscribed(t@),
            InMessage::Generic(t, p) => InMsg::Generic(t@, *p),
        }
    }
}

impl View for OutMessage {
    type V = OutMsg;

    open spec fn view(&self) -> OutMsg {
        match self {
            OutMessage::Subscribe(t) => OutMsg::Subscribe(t@),
            OutMessage::Unsubscribe(t) => OutMsg::Unsubscribe(t@),
            OutMessage::Generic(t, p) => OutMsg::Generic(t@, *p),
        }
    }
}

/// The values of a sequence of outbound messages.
pub open spec fn out_views(s: Seq<OutMessage>) -> Seq<OutMsg> {
    s.map_values(|m: OutMessage| m@)
}

} // verus!
