//! The inbound relay: what to do with each frame of one connection.
//!
//! A relay belongs to one receive-half. The shell awaits the next frame and
//! asks the relay what to do with it; the relay forwards text, drops
//! everything else, and ends for good when its connection ends.

use vstd::prelude::*;

verus! {

/// What the receive-half gave when asked for the next frame.
#[derive(Debug, PartialEq, Eq)]
pub enum Frame {
    /// A text frame with its content.
    Text(String),
    /// A frame of any other kind.
    NonText,
    /// The stream ended.
    Closed,
    /// The transport failed.
    Failed,
}

/// A frame as a mathematical value.
pub enum FrameView {
    Text(Seq<char>),
    NonText,
    Closed,
    Failed,
}

impl View for Frame {
    type V = FrameView;

    open spec fn view(&self) -> FrameView {
        match self {
            Frame::Text(content) => FrameView::Text(content@),
            Frame::NonText => FrameView::NonText,
            Frame::Closed => FrameView::Closed,
            Frame::Failed => FrameView::Failed,
        }
    }
}

/// What the relay does about one frame.
#[derive(Debug, PartialEq, Eq)]
pub enum RelayStep {
    /// Hand this text to the queue, then go on.
    Forward(String),
    /// Nothing to hand on; go on.
    Discard,
    /// Stop reading.
    Terminate,
}

/// A relay step as a mathematical value.
pub enum RelayStepView {
    Forward(Seq<char>),
    Discard,
    Terminate,
}

impl View for RelayStep {
    type V = RelayStepView;

    open spec fn view(&self) -> RelayStepView {
        match self {
            RelayStep::Forward(content) => RelayStepView::Forward(content@),
            RelayStep::Discard => RelayStepView::Discard,
            RelayStep::Terminate => RelayStepView::Terminate,
        }
    }
}

/// The step for `frame` of a relay that is active or not.
pub open spec fn step_for(active: bool, frame: FrameView) -> RelayStepView {
    if !active {
        RelayStepView::Terminate
    } else {
        match frame {
            FrameView::Text(content) => RelayStepView::Forward(content),
            FrameView::NonText => RelayStepView::Discard,
            FrameView::Closed => RelayStepView::Terminate,
            FrameView::Failed => RelayStepView::Terminate,
        }
    }
}

/// Whether a relay goes on after `frame`.
pub open spec fn active_after(active: bool, frame: FrameView) -> bool {
    active && (frame is Text || frame is NonText)
}

/// The relay of one connection.
#[derive(Debug)]
pub struct Relay {
    active: bool,
}

impl View for Relay {
    /// Whether the relay is still reading.
    type V = bool;

    closed spec fn view(&self) -> bool {
        self.active
    }
}

impl Relay {
    /// A relay that is about to read its first frame.
    pub fn new() -> (relay: Relay)
        ensures
            relay@,
    {
        Relay { active: true }
    }

    /// Whether the relay goes on reading.
    pub fn is_active(&self) -> (active: bool)
        ensures
            active == self@,
    {
        self.active
    }

    /// Decides what to do with the next frame.
    ///
    /// Text is forwarded unchanged and any other frame is dropped. The end
    /// of the stream and a transport error end the relay, and a relay that
    /// has ended forwards nothing more.
    pub fn on_frame(&mut self, frame: Frame) -> (step: RelayStep)
        ensures
            step@ == step_for(old(self)@, frame@),
            final(self)@ == active_after(old(self)@, frame@),
    {
        if !self.active {
            return RelayStep::Terminate;
        }
        match frame {
            Frame::Text(content) => RelayStep::Forward(content),
            Frame::NonText => RelayStep::Discard,
            Frame::Closed => {
                self.active = false;
                RelayStep::Terminate
            },
            Frame::Failed => {
                self.active = false;
                RelayStep::Terminate
            },
        }
    }

    /// Records whether the queue took a forwarded text. A queue that is gone
    /// ends the relay.
    pub fn on_handoff(&mut self, delivered: bool)
        ensures
            final(self)@ == (old(self)@ && delivered),
    {
        if !delivered {
            self.active = false;
        }
    }
}

/// A relay that has ended stays ended: whatever frames arrive afterwards, it
/// forwards none of them and does not become active again.
pub proof fn lemma_ended_relay_is_silent(frame: FrameView)
    ensures
        step_for(false, frame) == RelayStepView::Terminate,
        !active_after(false, frame),
{
}

/// An active relay ends exactly on the end of the stream or a transport
/// error, and forwards exactly the text frames, each with its own content.
pub proof fn lemma_relay_forwards_text_only(frame: FrameView)
    ensures
        active_after(true, frame) <==> !(frame is Closed || frame is Failed),
        step_for(true, frame) is Forward <==> frame is Text,
        frame matches FrameView::Text(content) ==> step_for(true, frame) == RelayStepView::Forward(
            content,
        ),
{
}

} // verus!
