use vstd::prelude::*;

use crate::event::{AttachType, FlowMsg, FlowMsgView, SwipeDirection};

verus! {

/// The policy's verdict for one input.
#[derive(Clone, Debug)]
pub enum Decision<S> {
    /// Nothing changes; the input is handled by the page alone.
    Nothing,
    /// Go to another state; the attach kind tells the new page how it was entered.
    Transition(S, AttachType),
    /// The flow is done and hands this outcome to its caller.
    Return(FlowMsg),
}

/// A decision as the policy tables see it.
pub enum DecisionView<S> {
    Nothing,
    Transition(S, AttachType),
    Return(FlowMsgView),
}

impl<S> View for Decision<S> {
    type V = DecisionView<S>;

    open spec fn view(&self) -> DecisionView<S> {
        match self {
            Decision::Nothing => DecisionView::Nothing,
            Decision::Transition(s, a) => DecisionView::Transition(*s, *a),
            Decision::Return(m) => DecisionView::Return(m@),
        }
    }
}

/// The view of an optional decision.
pub open spec fn opt_decision_view<S>(d: Option<Decision<S>>) -> Option<DecisionView<S>> {
    match d {
        Some(x) => Some(x@),
        None => None,
    }
}

/// The decision of a table entry, or `Nothing` where the table has none.
pub open spec fn rule_or_nothing<S>(entry: Option<DecisionView<S>>) -> DecisionView<S> {
    match entry {
        Some(d) => d,
        None => DecisionView::Nothing,
    }
}

/// A flow's state machine: a closed set of states, each with a page index,
/// and two tables saying how a completed swipe or a page's message changes
/// the state.
pub trait FlowController: Sized {
    /// Position of this state's page in the flow's page store.
    spec fn spec_index(&self) -> usize;

    /// The swipe table's entry for this state and direction, if it has one.
    spec fn swipe_rule(&self, dir: SwipeDirection) -> Option<DecisionView<Self>>;

    /// The message table's entry for this state and message, if it has one.
    spec fn event_rule(&self, msg: FlowMsgView) -> Option<DecisionView<Self>>;

    fn index(&self) -> (r: usize)
        ensures
            r == self.spec_index(),
    ;

    fn handle_swipe(&self, dir: SwipeDirection) -> (r: Decision<Self>)
        ensures
            r@ == rule_or_nothing(self.swipe_rule(dir)),
    ;

    fn handle_event(&self, msg: FlowMsg) -> (r: Decision<Self>)
        ensures
            r@ == rule_or_nothing(self.event_rule(msg@)),
    ;
}

/// Any state and any input for which a flow's tables hold no entry leave the
/// flow where it is: the policy answers `Nothing`.
pub proof fn lemma_unmatched_input_is_nothing<S: FlowController>(
    s: S,
    dir: SwipeDirection,
    msg: FlowMsgView,
)
    ensures
        s.swipe_rule(dir) is None ==> rule_or_nothing(s.swipe_rule(dir)) is Nothing,
        s.event_rule(msg) is None ==> rule_or_nothing(s.event_rule(msg)) is Nothing,
{
}

} // verus!
