use vstd::prelude::*;

verus! {

/// Direction of a swipe gesture.
#[derive(Clone, Copy, Debug, PartialEq, Eq, Structural)]
pub enum SwipeDirection {
    Up,
    Down,
    Left,
    Right,
}

/// Why a page became active: first shown, or entered by a swipe.
#[derive(Clone, Copy, Debug, PartialEq, Eq, Structural)]
pub enum AttachType {
    Initial,
    Swipe(SwipeDirection),
}

/// Progress of a swipe as seen by a page.
#[derive(Clone, Copy, Debug, PartialEq, Eq, Structural)]
pub enum SwipeEvent {
    Move(SwipeDirection, i16),
    End(SwipeDirection),
}

/// Raw touch input.
#[derive(Clone, Copy, Debug, PartialEq, Eq, Structural)]
pub enum TouchEvent {
    TouchStart(i16, i16),
    TouchMove(i16, i16),
    TouchEnd(i16, i16),
    TouchAbort,
}

/// An input event delivered to a flow and to its pages.
#[derive(Clone, Copy, Debug, PartialEq, Eq, Structural)]
pub enum Event {
    Attach(AttachType),
    Swipe(SwipeEvent),
    Touch(TouchEvent),
    Timer(u32),
}

/// What a page emits to the flow policy when its local interaction completes.
#[derive(Clone, Debug, PartialEq, Eq)]
pub enum FlowMsg {
    Info,
    Choice(usize),
    Cancelled,
    Confirmed,
    Text(String),
}

/// A message as the policy tables see it: text as its characters.
pub enum FlowMsgView {
    Info,
    Choice(usize),
    Cancelled,
    Confirmed,
    Text(Seq<char>),
}

impl View for FlowMsg {
    type V = FlowMsgView;

    open spec fn view(&self) -> FlowMsgView {
        match self {
            FlowMsg::Info => FlowMsgView::Info,
            FlowMsg::Choice(n) => FlowMsgView::Choice(*n),
            FlowMsg::Cancelled => FlowMsgView::Cancelled,
            FlowMsg::Confirmed => FlowMsgView::Confirmed,
            FlowMsg::Text(s) => FlowMsgView::Text(s@),
        }
    }
}

/// The view of an optional message.
pub open spec fn opt_msg_view(m: Option<FlowMsg>) -> Option<FlowMsgView> {
    match m {
        Some(x) => Some(x@),
        None => None,
    }
}

/// Requests raised while one event is processed, shared with the pages.
#[derive(Clone, Copy, Debug)]
pub struct EventCtx {
    /// A page asked for swipe detection to be turned off.
    pub disable_swipe_requested: bool,
    /// A page asked for swipe detection to be turned on.
    pub enable_swipe_requested: bool,
    /// The screen must be repainted.
    pub paint_requested: bool,
    /// How the flow left the screen when it returned its outcome.
    pub transition_out: Option<AttachType>,
    /// Transition animations are switched off on this device.
    pub animation_disabled: bool,
}

impl EventCtx {
    /// A context with no pending request.
    pub fn new(animation_disabled: bool) -> (r: EventCtx)
        ensures
            !r.disable_swipe_requested,
            !r.enable_swipe_requested,
            !r.paint_requested,
            r.transition_out is None,
            r.animation_disabled == animation_disabled,
    {
        EventCtx {
            disable_swipe_requested: false,
            enable_swipe_requested: false,
            paint_requested: false,
            transition_out: None,
            animation_disabled,
        }
    }

    /// Asks for a repaint of the screen.
    pub fn request_paint(&mut self)
        ensures
            *final(self) == (EventCtx { paint_requested: true, ..*old(self) }),
    {
        self.paint_requested = true;
    }

    /// Records how the flow left the screen.
    pub fn set_transition_out(&mut self, attach: AttachType)
        ensures
            *final(self) == (EventCtx { transition_out: Some(attach), ..*old(self) }),
    {
        self.transition_out = Some(attach);
    }
}

} // verus!
