//! The reactions of the example module roles: each turns one inbound message
//! into the outbound messages that the module emits for it.

use vstd::prelude::*;
use crate::messages::{AppMessage, InMessage, InMsg, OutMessage, OutMsg, out_views};

verus! {

/// The topic on which the camera publishes video frames.
pub open spec fn frames_topic() -> Seq<char> {
    "/frames"@
}

/// The topic on which the face detector republishes the frames it has examined.
pub open spec fn faces_topic() -> Seq<char> {
    "/faces"@
}

/// The camera publishes a video frame on every tick and ignores the rest.
pub open spec fn camera_reaction(m: InMsg) -> Seq<OutMsg> {
    match m {
        InMsg::Tick => seq![OutMsg::Generic(frames_topic(), AppMessage::VideoFrame)],
        _ => Seq::empty(),
    }
}

/// The face detector subscribes to video frames at startup and answers each
/// frame by passing it on under the faces topic.
pub open spec fn face_detector_reaction(m: InMsg) -> Seq<OutMsg> {
    match m {
        InMsg::Startup => seq![OutMsg::Subscribe(frames_topic())],
        InMsg::Generic(_, AppMessage::VideoFrame) => seq![
            OutMsg::Generic(faces_topic(), AppMessage::VideoFrame),
        ],
        _ => Seq::empty(),
    }
}

/// The display subscribes to face coordinates at startup and emits nothing else.
pub open spec fn display_reaction(m: InMsg) -> Seq<OutMsg> {
    match m {
        InMsg::Startup => seq![OutMsg::Subscribe(faces_topic())],
        _ => Seq::empty(),
    }
}

fn frames_topic_string() -> (r: String)
    ensures
        r@ == frames_topic(),
{
    proof {
        reveal_strlit("/frames");
    }
    "/frames".to_owned()
}

fn faces_topic_string() -> (r: String)
    ensures
        r@ == faces_topic(),
{
    proof {
        reveal_strlit("/faces");
    }
    "/faces".to_owned()
}

/// Reaction of the camera module.
pub fn camera_handler(in_message: InMessage) -> (r: Vec<OutMessage>)
    ensures
        out_views(r@) == camera_reaction(in_message@),
{
    let mut out: Vec<OutMessage> = Vec::new();
    match in_message {
        InMessage::Tick => {
            out.push(OutMessage::Generic(frames_topic_string(), AppMessage::VideoFrame));
        },
        _ => {},
    }
    assert(out_views(out@) =~= camera_reaction(in_message@));
    out
}

/// Reaction of the face detector module.
pub fn face_detector_handler(in_message: InMessage) -> (r: Vec<OutMessage>)
    ensures
        out_views(r@) == face_detector_reaction(in_message@),
{
    let mut out: Vec<OutMessage> = Vec::new();
    match in_message {
        InMessage::Startup => {
            out.push(OutMessage::Subscribe(frames_topic_string()));
        },
        InMessage::Generic(_, app_message) => {
            match app_message {
                AppMessage::VideoFrame => {
                    out.push(OutMessage::Generic(faces_topic_string(), AppMessage::VideoFrame));
                },
                _ => {},
            }
        },
        _ => {},
    }
    assert(out_views(out@) =~= face_detector_reaction(in_message@));
    out
}

/// Reaction of a display module.
pub fn display_handler(in_message: InMessage) -> (r: Vec<OutMessage>)
    ensures
        out_views(r@) == display_reaction(in_message@),
{
    let mut out: Vec<OutMessage> = Vec::new();
    match in_message {
        InMessage::Startup => {
            out.push(OutMessage::Subscribe(faces_topic_string()));
        },
        _ => {},
    }
    assert(out_views(out@) =~= display_reaction(in_message@));
    out
}

/// The behaviour bound to a module, chosen when the module is wired up.
#[derive(Clone, Copy, Debug, PartialEq, Eq, Structural)]
pub enum Role {
    Camera,
    FaceDetector,
    Display,
}

impl Role {
    /// What a module of this role emits in answer to one message.
    pub open spec fn reaction(self, m: InMsg) -> Seq<OutMsg> {
        match self {
            Role::Camera => camera_reaction(m),
            Role::FaceDetector => face_detector_reaction(m),
            Role::Display => display_reaction(m),
        }
    }

    /// Runs this role's handler on one inbound message.
    pub fn react(&self, in_message: InMessage) -> (r: Vec<OutMessage>)
        ensures
            out_views(r@) == self.reaction(in_message@),
    {
        match self {
            Role::Camera => camera_handler(in_message),
            Role::FaceDetector => face_detector_handler(in_message),
            Role::Display => display_handler(in_message),
        }
    }
}

} // verus!
