use vstd::prelude::*;

use crate::component::FlowComponentTrait;
use crate::decision::{Decision, DecisionView, FlowController};
use crate::event::{AttachType, FlowMsg, FlowMsgView, SwipeDirection};
use crate::swipe::{Error, SwipeFlow};

verus! {

/// Entering a passphrase: the keypad, and a confirmation when it is empty.
#[derive(Clone, Copy, Debug, PartialEq, Eq, Structural)]
pub enum RequestPassphrase {
    Keypad,
    ConfirmEmpty,
}

impl FlowController for RequestPassphrase {
    open spec fn spec_index(&self) -> usize {
        match *self {
            RequestPassphrase::Keypad => 0,
            RequestPassphrase::ConfirmEmpty => 1,
        }
    }

    open spec fn swipe_rule(&self, dir: SwipeDirection) -> Option<DecisionView<Self>> {
        None
    }

    open spec fn event_rule(&self, msg: FlowMsgView) -> Option<DecisionView<Self>> {
        match (*self, msg) {
            (RequestPassphrase::Keypad, FlowMsgView::Text(s)) => if s.len() == 0 {
                Some(DecisionView::Transition(RequestPassphrase::ConfirmEmpty, AttachType::Initial))
            } else {
                Some(DecisionView::Return(FlowMsgView::Text(s)))
            },
            (RequestPassphrase::Keypad, FlowMsgView::Cancelled) => Some(
                DecisionView::Return(FlowMsgView::Cancelled),
            ),
            (RequestPassphrase::ConfirmEmpty, FlowMsgView::Cancelled) => Some(
                DecisionView::Transition(RequestPassphrase::Keypad, AttachType::Initial),
            ),
            (RequestPassphrase::ConfirmEmpty, FlowMsgView::Confirmed) => Some(
                DecisionView::Return(FlowMsgView::Text(Seq::empty())),
            ),
            _ => None,
        }
    }

    fn index(&self) -> (r: usize) {
        match self {
            RequestPassphrase::Keypad => 0,
            RequestPassphrase::ConfirmEmpty => 1,
        }
    }

    fn handle_swipe(&self, _dir: SwipeDirection) -> (r: Decision<Self>) {
        Decision::Nothing
    }

    fn handle_event(&self, msg: FlowMsg) -> (r: Decision<Self>) {
        match (self, msg) {
            (RequestPassphrase::Keypad, FlowMsg::Text(s)) => {
                if s.as_str().is_empty() {
                    Decision::Transition(RequestPassphrase::ConfirmEmpty, AttachType::Initial)
                } else {
                    Decision::Return(FlowMsg::Text(s))
                }
            },
            (RequestPassphrase::Keypad, FlowMsg::Cancelled) => Decision::Return(
                FlowMsg::Cancelled,
            ),
            (RequestPassphrase::ConfirmEmpty, FlowMsg::Cancelled) => Decision::Transition(
                RequestPassphrase::Keypad,
                AttachType::Initial,
            ),
            (RequestPassphrase::ConfirmEmpty, FlowMsg::Confirmed) => {
                let empty = String::new();
                proof {
                    assert(empty@ =~= Seq::<char>::empty());
                }
                Decision::Return(FlowMsg::Text(empty))
            },
            _ => Decision::Nothing,
        }
    }
}

/// The passphrase flow over its two pages, starting on the keypad.
pub fn new_request_passphrase<P: FlowComponentTrait>(keypad: P, confirm_empty: P) -> (r: Result<
    SwipeFlow<RequestPassphrase, P>,
    Error,
>)
    ensures
        r matches Ok(f) && {
            &&& f.wf()
            &&& f.complete()
            &&& f.spec_state() == RequestPassphrase::Keypad
            &&& f.spec_store() == seq![keypad, confirm_empty]
            &&& f.spec_allow_swipe()
            &&& f.spec_pending() is None
            &&& f.spec_internal_state() == 0
            &&& f.spec_internal_pages() == 1
            &&& f.spec_detector().armed is None
        },
{
    let f = SwipeFlow::new(RequestPassphrase::Keypad)?;
    let f = f.with_page(&RequestPassphrase::Keypad, keypad)?;
    let f = f.with_page(&RequestPassphrase::ConfirmEmpty, confirm_empty)?;
    assert forall|s: RequestPassphrase| #[trigger] s.spec_index() < f.spec_store().len() by {}
    Ok(f)
}

} // verus!
