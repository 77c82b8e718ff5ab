use vstd::prelude::*;

use crate::component::FlowComponentTrait;
use crate::decision::{Decision, DecisionView, FlowController};
use crate::event::{AttachType, FlowMsg, FlowMsgView, SwipeDirection};
use crate::swipe::{Error, SwipeFlow};

verus! {

/// Dismissing a high-priority warning: the message, its menu, and the
/// confirmation that the operation was cancelled.
#[derive(Clone, Copy, Debug, PartialEq, Eq, Structural)]
pub enum WarningHiPrio {
    Message,
    Menu,
    Cancelled,
}

impl FlowController for WarningHiPrio {
    open spec fn spec_index(&self) -> usize {
        match *self {
            WarningHiPrio::Message => 0,
            WarningHiPrio::Menu => 1,
            WarningHiPrio::Cancelled => 2,
        }
    }

    open spec fn swipe_rule(&self, dir: SwipeDirection) -> Option<DecisionView<Self>> {
        match (*self, dir) {
            (WarningHiPrio::Message, SwipeDirection::Left) => Some(
                DecisionView::Transition(WarningHiPrio::Menu, AttachType::Swipe(dir)),
            ),
            (WarningHiPrio::Message, SwipeDirection::Up) => Some(
                DecisionView::Transition(WarningHiPrio::Cancelled, AttachType::Swipe(dir)),
            ),
            (WarningHiPrio::Menu, SwipeDirection::Right) => Some(
                DecisionView::Transition(WarningHiPrio::Message, AttachType::Swipe(dir)),
            ),
            _ => None,
        }
    }

    open spec fn event_rule(&self, msg: FlowMsgView) -> Option<DecisionView<Self>> {
        match (*self, msg) {
            (WarningHiPrio::Message, FlowMsgView::Info) => Some(
                DecisionView::Transition(WarningHiPrio::Menu, AttachType::Initial),
            ),
            (WarningHiPrio::Menu, FlowMsgView::Choice(n)) => if n == 1 {
                Some(DecisionView::Return(FlowMsgView::Confirmed))
            } else {
                Some(
                    DecisionView::Transition(
                        WarningHiPrio::Cancelled,
                        AttachType::Swipe(SwipeDirection::Up),
                    ),
                )
            },
            (WarningHiPrio::Menu, FlowMsgView::Cancelled) => Some(
                DecisionView::Transition(
                    WarningHiPrio::Message,
                    AttachType::Swipe(SwipeDirection::Right),
                ),
            ),
            (WarningHiPrio::Cancelled, _) => Some(DecisionView::Return(FlowMsgView::Cancelled)),
            _ => None,
        }
    }

    fn index(&self) -> (r: usize) {
        match self {
            WarningHiPrio::Message => 0,
            WarningHiPrio::Menu => 1,
            WarningHiPrio::Cancelled => 2,
        }
    }

    fn handle_swipe(&self, dir: SwipeDirection) -> (r: Decision<Self>) {
        match (self, dir) {
            (WarningHiPrio::Message, SwipeDirection::Left) => Decision::Transition(
                WarningHiPrio::Menu,
                AttachType::Swipe(dir),
            ),
            (WarningHiPrio::Message, SwipeDirection::Up) => Decision::Transition(
                WarningHiPrio::Cancelled,
                AttachType::Swipe(dir),
            ),
            (WarningHiPrio::Menu, SwipeDirection::Right) => Decision::Transition(
                WarningHiPrio::Message,
                AttachType::Swipe(dir),
            ),
            _ => Decision::Nothing,
        }
    }

    fn handle_event(&self, msg: FlowMsg) -> (r: Decision<Self>) {
        match (self, msg) {
            (WarningHiPrio::Message, FlowMsg::Info) => Decision::Transition(
                WarningHiPrio::Menu,
                AttachType::Initial,
            ),
            (WarningHiPrio::Menu, FlowMsg::Choice(1)) => Decision::Return(FlowMsg::Confirmed),
            (WarningHiPrio::Menu, FlowMsg::Choice(_)) => Decision::Transition(
                WarningHiPrio::Cancelled,
                AttachType::Swipe(SwipeDirection::Up),
            ),
            (WarningHiPrio::Menu, FlowMsg::Cancelled) => Decision::Transition(
                WarningHiPrio::Message,
                AttachType::Swipe(SwipeDirection::Right),
            ),
            (WarningHiPrio::Cancelled, _) => Decision::Return(FlowMsg::Cancelled),
            _ => Decision::Nothing,
        }
    }
}

/// The warning flow over its three pages, starting on the message.
pub fn new_warning_hi_prio<P: FlowComponentTrait>(message: P, menu: P, cancelled: P) -> (r: Result<
    SwipeFlow<WarningHiPrio, P>,
    Error,
>)
    ensures
        r matches Ok(f) && {
            &&& f.wf()
            &&& f.complete()
            &&& f.spec_state() == WarningHiPrio::Message
            &&& f.spec_store() == seq![message, menu, cancelled]
            &&& f.spec_allow_swipe()
            &&& f.spec_pending() is None
            &&& f.spec_internal_state() == 0
            &&& f.spec_internal_pages() == 1
            &&& f.spec_detector().armed is None
        },
{
    let f = SwipeFlow::new(WarningHiPrio::Message)?;
    let f = f.with_page(&WarningHiPrio::Message, message)?;
    let f = f.with_page(&WarningHiPrio::Menu, menu)?;
    let f = f.with_page(&WarningHiPrio::Cancelled, cancelled)?;
    assert forall|s: WarningHiPrio| #[trigger] s.spec_index() < f.spec_store().len() by {}
    Ok(f)
}

} // verus!
