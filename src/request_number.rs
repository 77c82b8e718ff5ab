use vstd::prelude::*;

use crate::component::FlowComponentTrait;
use crate::decision::{Decision, DecisionView, FlowController};
use crate::event::{AttachType, FlowMsg, FlowMsgView, SwipeDirection};
use crate::swipe::{Error, SwipeFlow};

verus! {

/// Entering a number: the number page, its menu, and an info page.
#[derive(Clone, Copy, Debug, PartialEq, Eq, Structural)]
pub enum RequestNumber {
    Number,
    Menu,
    Info,
}

impl FlowController for RequestNumber {
    open spec fn spec_index(&self) -> usize {
        match *self {
            RequestNumber::Number => 0,
            RequestNumber::Menu => 1,
            RequestNumber::Info => 2,
        }
    }

    open spec fn swipe_rule(&self, dir: SwipeDirection) -> Option<DecisionView<Self>> {
        match (*self, dir) {
            (RequestNumber::Number, SwipeDirection::Left) => Some(
                DecisionView::Transition(RequestNumber::Menu, AttachType::Swipe(dir)),
            ),
            (RequestNumber::Menu, SwipeDirection::Right) => Some(
                DecisionView::Transition(RequestNumber::Number, AttachType::Swipe(dir)),
            ),
            (RequestNumber::Info, SwipeDirection::Right) => Some(
                DecisionView::Transition(RequestNumber::Menu, AttachType::Swipe(dir)),
            ),
            _ => None,
        }
    }

    open spec fn event_rule(&self, msg: FlowMsgView) -> Option<DecisionView<Self>> {
        match (*self, msg) {
            (RequestNumber::Number, FlowMsgView::Info) => Some(
                DecisionView::Transition(RequestNumber::Menu, AttachType::Initial),
            ),
            (RequestNumber::Menu, FlowMsgView::Choice(0)) => Some(
                DecisionView::Transition(
                    RequestNumber::Info,
                    AttachType::Swipe(SwipeDirection::Left),
                ),
            ),
            (RequestNumber::Menu, FlowMsgView::Cancelled) => Some(
                DecisionView::Transition(
                    RequestNumber::Number,
                    AttachType::Swipe(SwipeDirection::Right),
                ),
            ),
            (RequestNumber::Info, FlowMsgView::Cancelled) => Some(
                DecisionView::Transition(RequestNumber::Menu, AttachType::Initial),
            ),
            (RequestNumber::Number, FlowMsgView::Choice(n)) => Some(
                DecisionView::Return(FlowMsgView::Choice(n)),
            ),
            _ => None,
        }
    }

    fn index(&self) -> (r: usize) {
        match self {
            RequestNumber::Number => 0,
            RequestNumber::Menu => 1,
            RequestNumber::Info => 2,
        }
    }

    fn handle_swipe(&self, dir: SwipeDirection) -> (r: Decision<Self>) {
        match (self, dir) {
            (RequestNumber::Number, SwipeDirection::Left) => Decision::Transition(
                RequestNumber::Menu,
                AttachType::Swipe(dir),
            ),
            (RequestNumber::Menu, SwipeDirection::Right) => Decision::Transition(
                RequestNumber::Number,
                AttachType::Swipe(dir),
            ),
            (RequestNumber::Info, SwipeDirection::Right) => Decision::Transition(
                RequestNumber::Menu,
                AttachType::Swipe(dir),
            ),
            _ => Decision::Nothing,
        }
    }

    fn handle_event(&self, msg: FlowMsg) -> (r: Decision<Self>) {
        match (self, msg) {
            (RequestNumber::Number, FlowMsg::Info) => Decision::Transition(
                RequestNumber::Menu,
                AttachType::Initial,
            ),
            (RequestNumber::Menu, FlowMsg::Choice(0)) => Decision::Transition(
                RequestNumber::Info,
                AttachType::Swipe(SwipeDirection::Left),
            ),
            (RequestNumber::Menu, FlowMsg::Cancelled) => Decision::Transition(
                RequestNumber::Number,
                AttachType::Swipe(SwipeDirection::Right),
            ),
            (RequestNumber::Info, FlowMsg::Cancelled) => Decision::Transition(
                RequestNumber::Menu,
                AttachType::Initial,
            ),
            (RequestNumber::Number, FlowMsg::Choice(n)) => Decision::Return(FlowMsg::Choice(n)),
            _ => Decision::Nothing,
        }
    }
}

/// The number-entry flow over its three pages, starting on the number page.
pub fn new_request_number<P: FlowComponentTrait>(number: P, menu: P, info: P) -> (r: Result<
    SwipeFlow<RequestNumber, P>,
    Error,
>)
    ensures
        r matches Ok(f) && {
            &&& f.wf()
            &&& f.complete()
            &&& f.spec_state() == RequestNumber::Number
            &&& f.spec_store() == seq![number, menu, info]
            &&& f.spec_allow_swipe()
            &&& f.spec_pending() is None
            &&& f.spec_internal_state() == 0
            &&& f.spec_internal_pages() == 1
            &&& f.spec_detector().armed is None
        },
{
    let f = SwipeFlow::new(RequestNumber::Number)?;
    let f = f.with_page(&RequestNumber::Number, number)?;
    let f = f.with_page(&RequestNumber::Menu, menu)?;
    let f = f.with_page(&RequestNumber::Info, info)?;
    assert forall|s: RequestNumber| #[trigger] s.spec_index() < f.spec_store().len() by {}
    Ok(f)
}

} // verus!
