use vstd::prelude::*;

use crate::component::{FlowComponentDynTrait, FlowComponentTrait, Rect};
use crate::decision::{opt_decision_view, rule_or_nothing, Decision, DecisionView, FlowController};
use crate::event::{
    opt_msg_view, AttachType, Event, EventCtx, FlowMsg, FlowMsgView, SwipeDirection, SwipeEvent,
    TouchEvent,
};
use crate::swipe_detect::{allows, paging_delta, SwipeConfig, SwipeDetect, SwipeDetectMsg};

verus! {

/// Most pages that one flow can hold.
pub const MAX_PAGES: usize = 12;

/// Ways in which building a flow can fail.
#[derive(Clone, Copy, Debug, PartialEq, Eq, Structural)]
pub enum Error {
    /// No room is left for another page.
    AllocationFailed,
}

/// Sub-page count used for a page reporting `n`: at least one, at most what
/// the sub-page index can hold.
pub open spec fn page_count_of(n: usize) -> int {
    if n == 0 {
        1
    } else if n > u16::MAX {
        u16::MAX as int
    } else {
        n as int
    }
}

/// `v` brought into `[lo, hi]`.
pub open spec fn clamp_to(v: int, lo: int, hi: int) -> int {
    if v < lo {
        lo
    } else if v > hi {
        hi
    } else {
        v
    }
}

/// The decision taken on a completed swipe: a pending one if there is one,
/// else the swipe table's.
pub open spec fn trigger_choice<S: FlowController>(
    pending: Option<DecisionView<S>>,
    state: S,
    dir: SwipeDirection,
) -> DecisionView<S> {
    match pending {
        Some(d) => d,
        None => rule_or_nothing(state.swipe_rule(dir)),
    }
}

/// Whether `d` is a transition entered by a swipe that `config` accepts: such a
/// transition is played as an animated swipe before it happens.
pub open spec fn is_swipe_transition<S>(d: DecisionView<S>, config: SwipeConfig) -> bool {
    match d {
        DecisionView::Transition(_, AttachType::Swipe(dir)) => allows(config, dir),
        _ => false,
    }
}

/// The decision that takes effect now, once a page's decision has been checked
/// for a swipe animation.
pub open spec fn decision_now<S>(
    d: DecisionView<S>,
    config: SwipeConfig,
    animation_disabled: bool,
) -> DecisionView<S> {
    if is_swipe_transition(d, config) && !animation_disabled {
        DecisionView::Nothing
    } else {
        d
    }
}

/// The pending decision after that check.
pub open spec fn pending_after<S>(
    d: DecisionView<S>,
    config: SwipeConfig,
    animation_disabled: bool,
    pending: Option<DecisionView<S>>,
) -> Option<DecisionView<S>> {
    if is_swipe_transition(d, config) && !animation_disabled {
        Some(d)
    } else {
        pending
    }
}

/// The state after a decision is applied.
pub open spec fn next_state<S>(state: S, d: DecisionView<S>) -> S {
    match d {
        DecisionView::Transition(s, _) => s,
        _ => state,
    }
}

/// The outcome handed to the caller when a decision is applied.
pub open spec fn outcome_of<S>(d: DecisionView<S>) -> Option<FlowMsgView> {
    match d {
        DecisionView::Return(m) => Some(m),
        _ => None,
    }
}

/// Direction of a classifier message, `Up` where there is none.
pub open spec fn dir_of(m: Option<SwipeDetectMsg>) -> SwipeDirection {
    match m {
        Some(SwipeDetectMsg::Start(d)) => d,
        Some(SwipeDetectMsg::Move(d, _)) => d,
        Some(SwipeDetectMsg::Trigger(d)) => d,
        None => SwipeDirection::Up,
    }
}

/// A transition entered by a swipe that the page accepts is held back while
/// animations are on: the event that produced it changes no state and hands
/// out no outcome, the transition becomes the pending decision, and the next
/// completed swipe, in whatever direction, takes it. With animations off the
/// transition takes effect on the event that produced it.
pub proof fn lemma_swipe_transition_takes_one_more_trigger<S: FlowController>(
    state: S,
    target: S,
    dir: SwipeDirection,
    next_dir: SwipeDirection,
    config: SwipeConfig,
    pending: Option<DecisionView<S>>,
)
    requires
        allows(config, dir),
    ensures
        ({
            let d = DecisionView::Transition(target, AttachType::Swipe(dir));
            &&& next_state(state, decision_now(d, config, false)) == state
            &&& outcome_of(decision_now(d, config, false)) is None
            &&& pending_after(d, config, false, pending) == Some(d)
            &&& trigger_choice(pending_after(d, config, false, pending), state, next_dir) == d
            &&& next_state(state, trigger_choice(pending_after(d, config, false, pending), state, next_dir)) == target
            &&& next_state(state, decision_now(d, config, true)) == target
        }),
{
}

/// Whether the classifier reports a completed swipe.
pub open spec fn is_trigger(m: Option<SwipeDetectMsg>) -> bool {
    match m {
        Some(SwipeDetectMsg::Trigger(_)) => true,
        _ => false,
    }
}

/// The flow as its contracts see it.
pub struct FlowModel<S, P> {
    /// The current state.
    pub state: S,
    /// The pages, in the order of their states' indices.
    pub store: Seq<P>,
    /// The commands last given to the gesture classifier.
    pub swipe: SwipeDetect,
    /// Whether input goes through the gesture classifier.
    pub allow_swipe: bool,
    /// Index of the current page's shown sub-page.
    pub internal_state: int,
    /// Number of sub-pages of the current page.
    pub internal_pages: int,
    /// The decision that the next completed swipe takes, if one is pending.
    pub pending: Option<DecisionView<S>>,
}

/// The classifier after a reset.
pub open spec fn detector_reset() -> SwipeDetect {
    SwipeDetect { armed: None }
}

/// The current state's page.
pub open spec fn current_of<S: FlowController, P>(m: FlowModel<S, P>) -> P {
    m.store[m.state.spec_index() as int]
}

/// Sub-page count that the current page reports.
pub open spec fn current_count_of<S: FlowController, P: FlowComponentTrait>(
    m: FlowModel<S, P>,
) -> int {
    page_count_of(current_of(m).spec_internal_page_count())
}

/// The configuration handed to the gesture classifier for the next event:
/// the current page's, with the sub-page position folded in.
pub open spec fn detect_config_of<S: FlowController, P: FlowComponentTrait>(
    m: FlowModel<S, P>,
) -> SwipeConfig {
    let n = current_count_of(m);
    SwipeConfig {
        current_page: clamp_to(m.internal_state, 0, n - 1) as u16,
        total_pages: n as u16,
        ..current_of(m).spec_swipe_config()
    }
}

/// The event the current page is given once the classifier has spoken:
/// the end of a completed swipe, the movement of one in progress, an abort of
/// page-local touch tracking when one starts, else the raw event.
pub open spec fn page_event(
    allow_swipe: bool,
    detected: Option<SwipeDetectMsg>,
    event: Event,
) -> Event {
    if !allow_swipe {
        event
    } else {
        match detected {
            Some(SwipeDetectMsg::Trigger(d)) => Event::Swipe(SwipeEvent::End(d)),
            Some(SwipeDetectMsg::Move(d, p)) => Event::Swipe(
                SwipeEvent::Move(d, if p > 100 { 100i16 } else { p as i16 }),
            ),
            Some(SwipeDetectMsg::Start(_)) => Event::Touch(TouchEvent::TouchAbort),
            None => event,
        }
    }
}

/// First step of an event: with swipes allowed, the sub-page count is read
/// anew and, on a completed swipe, the pending decision is taken (else the
/// swipe table is asked). A swipe that pages within the page moves the
/// sub-page index, saturating at both ends, and drops that decision. Gives
/// the flow, the decision, and whether the page is to be told of a new
/// sub-page.
pub open spec fn step_one_model<S: FlowController, P: FlowComponentTrait>(
    m: FlowModel<S, P>,
    detected: Option<SwipeDetectMsg>,
) -> (FlowModel<S, P>, DecisionView<S>, bool) {
    if !m.allow_swipe {
        (m, DecisionView::Nothing, false)
    } else {
        let n = current_count_of(m);
        let r = FlowModel { internal_pages: n, internal_state: clamp_to(m.internal_state, 0, n - 1), ..m };
        match detected {
            Some(SwipeDetectMsg::Trigger(dir)) => {
                let choice = trigger_choice(m.pending, m.state, dir);
                let delta = paging_delta(detect_config_of(m), dir);
                let taken = FlowModel { pending: None, ..r };
                if delta != 0 {
                    (
                        FlowModel {
                            internal_state: clamp_to(r.internal_state + delta, 0, n - 1),
                            ..taken
                        },
                        DecisionView::Nothing,
                        true,
                    )
                } else {
                    (taken, choice, false)
                }
            },
            _ => (r, DecisionView::Nothing, false),
        }
    }
}

/// The current page handles `e`; the policy is asked about its message.
pub open spec fn child_model<S: FlowController, P: FlowComponentTrait>(
    m: FlowModel<S, P>,
    ctx: EventCtx,
    e: Event,
) -> (FlowModel<S, P>, EventCtx, DecisionView<S>) {
    let i = m.state.spec_index() as int;
    let t = m.store[i].spec_event(ctx, e);
    (
        FlowModel { store: m.store.update(i, t.0), ..m },
        t.1,
        match t.2 {
            Some(msg) => rule_or_nothing(m.state.event_rule(msg)),
            None => DecisionView::Nothing,
        },
    )
}

/// The current page handles `e` and nothing is asked of the policy.
pub open spec fn housekeeping_model<S: FlowController, P: FlowComponentTrait>(
    m: FlowModel<S, P>,
    ctx: EventCtx,
    e: Event,
) -> (FlowModel<S, P>, EventCtx) {
    let i = m.state.spec_index() as int;
    let t = m.store[i].spec_event(ctx, e);
    (FlowModel { store: m.store.update(i, t.0), ..m }, t.1)
}

/// Direction of a swipe transition.
pub open spec fn swipe_dir_of<S>(d: DecisionView<S>) -> SwipeDirection {
    match d {
        DecisionView::Transition(_, AttachType::Swipe(dir)) => dir,
        _ => SwipeDirection::Up,
    }
}

/// A swipe transition that `config` accepts is held back and the classifier
/// armed to play it while animations are on; swipes are turned on for it.
pub open spec fn defer_model<S, P>(
    m: FlowModel<S, P>,
    animation_disabled: bool,
    d: DecisionView<S>,
    config: SwipeConfig,
) -> (FlowModel<S, P>, DecisionView<S>) {
    let held = is_swipe_transition(d, config) && !animation_disabled;
    (
        FlowModel {
            swipe: if held {
                SwipeDetect { armed: Some(swipe_dir_of(d)) }
            } else {
                m.swipe
            },
            allow_swipe: is_swipe_transition(d, config) || m.allow_swipe,
            pending: pending_after(d, config, animation_disabled, m.pending),
            ..m
        },
        decision_now(d, config, animation_disabled),
    )
}

/// Swipe detection after the page's requests to turn it off or on.
pub open spec fn requests_model<S, P>(m: FlowModel<S, P>, ctx: EventCtx) -> FlowModel<S, P> {
    let m1 = if ctx.disable_swipe_requested {
        FlowModel { swipe: detector_reset(), allow_swipe: false, ..m }
    } else {
        m
    };
    if ctx.enable_swipe_requested {
        FlowModel { swipe: detector_reset(), allow_swipe: true, ..m1 }
    } else {
        m1
    }
}

/// Second step of an event when the first gave no decision: the page handles
/// `e` and the policy is asked about its message; after a paging swipe the
/// page is told of its new sub-page; the page's requests on swipe detection
/// are honoured; a swipe transition is then held back or let through.
pub open spec fn step_two_model<S: FlowController, P: FlowComponentTrait>(
    m: FlowModel<S, P>,
    ctx: EventCtx,
    e: Event,
    attach: bool,
) -> (FlowModel<S, P>, EventCtx, DecisionView<S>) {
    let c = child_model(m, ctx, e);
    let a = if attach {
        match e {
            Event::Swipe(SwipeEvent::End(dir)) => housekeeping_model(
                c.0,
                c.1,
                Event::Attach(AttachType::Swipe(dir)),
            ),
            _ => (c.0, c.1),
        }
    } else {
        (c.0, c.1)
    };
    let q = requests_model(a.0, a.1);
    let d = defer_model(q, a.1.animation_disabled, c.2, current_of(q).spec_swipe_config());
    (d.0, a.1, d.1)
}

/// Sub-page shown on a page entered as `at`: the first when entered upwards,
/// the last when entered downwards, else the current one within the count.
pub open spec fn attached_sub_page(at: AttachType, current: int, n: int) -> int {
    match at {
        AttachType::Swipe(SwipeDirection::Up) => 0,
        AttachType::Swipe(SwipeDirection::Down) => n - 1,
        _ => clamp_to(current, 0, n - 1),
    }
}

/// Entering the current state's page: the classifier is reset, swipes are on,
/// the page is told how it was entered, its sub-pages are read, and a repaint
/// is asked for.
pub open spec fn goto_model<S: FlowController, P: FlowComponentTrait>(
    m: FlowModel<S, P>,
    ctx: EventCtx,
    at: AttachType,
) -> (FlowModel<S, P>, EventCtx) {
    let j = m.state.spec_index() as int;
    let t = m.store[j].spec_event(ctx, Event::Attach(at));
    let n = page_count_of(t.0.spec_internal_page_count());
    (
        FlowModel {
            store: m.store.update(j, t.0),
            swipe: detector_reset(),
            allow_swipe: true,
            internal_pages: n,
            internal_state: attached_sub_page(at, m.internal_state, n),
            ..m
        },
        EventCtx { paint_requested: true, ..t.1 },
    )
}

/// Applying a decision: a transition enters the new state's page; a return
/// resets the classifier, turns swipes on, records how the flow was left
/// (`out`) and hands out the message.
pub open spec fn apply_model<S: FlowController, P: FlowComponentTrait>(
    m: FlowModel<S, P>,
    ctx: EventCtx,
    d: DecisionView<S>,
    out: AttachType,
) -> (FlowModel<S, P>, EventCtx, Option<FlowMsgView>) {
    match d {
        DecisionView::Transition(s, at) => {
            let g = goto_model(FlowModel { state: s, ..m }, ctx, at);
            (g.0, g.1, None)
        },
        DecisionView::Return(msg) => (
            FlowModel { swipe: detector_reset(), allow_swipe: true, ..m },
            EventCtx { transition_out: Some(out), ..ctx },
            Some(msg),
        ),
        DecisionView::Nothing => (m, ctx, None),
    }
}

/// One input event, whole: the flow, the context and the outcome afterwards.
/// Where the first step decides, the page sees the raw event for its own
/// bookkeeping and its message is not asked about.
pub open spec fn event_model<S: FlowController, P: FlowComponentTrait>(
    m: FlowModel<S, P>,
    ctx: EventCtx,
    event: Event,
    detected: Option<SwipeDetectMsg>,
) -> (FlowModel<S, P>, EventCtx, Option<FlowMsgView>) {
    let s1 = step_one_model(m, detected);
    let out = if m.allow_swipe && is_trigger(detected) {
        AttachType::Swipe(dir_of(detected))
    } else {
        AttachType::Initial
    };
    if s1.1 is Nothing {
        let s2 = step_two_model(s1.0, ctx, page_event(m.allow_swipe, detected, event), s1.2);
        apply_model(s2.0, s2.1, s2.2, out)
    } else {
        let h = housekeeping_model(s1.0, ctx, event);
        apply_model(h.0, h.1, s1.1, out)
    }
}

/// A completed swipe that pages within the current page changes the sub-page
/// and never the flow's state: it consumes any pending decision, takes no
/// decision of its own, and moves the sub-page index by one step, saturating
/// at both ends of the page's sub-page count.
pub proof fn lemma_paging_trigger_only_pages<S: FlowController, P: FlowComponentTrait>(
    m: FlowModel<S, P>,
    dir: SwipeDirection,
)
    requires
        m.allow_swipe,
        paging_delta(detect_config_of(m), dir) != 0,
    ensures
        ({
            let s1 = step_one_model(m, Some(SwipeDetectMsg::Trigger(dir)));
            let n = current_count_of(m);
            &&& s1.1 is Nothing
            &&& s1.2
            &&& s1.0.state == m.state
            &&& s1.0.pending is None
            &&& s1.0.internal_pages == n
            &&& s1.0.internal_state == clamp_to(
                clamp_to(m.internal_state, 0, n - 1) + paging_delta(detect_config_of(m), dir),
                0,
                n - 1,
            )
            &&& 0 <= s1.0.internal_state < n
        }),
{
}

/// A multi-page flow driven by swipes, following the state machine `S` and
/// showing one page of type `P` for each of its states.
pub struct SwipeFlow<S, P> {
    state: S,
    store: Vec<P>,
    swipe: SwipeDetect,
    allow_swipe: bool,
    internal_state: u16,
    internal_pages: u16,
    decision_override: Option<Decision<S>>,
}

impl<S: FlowController, P: FlowComponentTrait> SwipeFlow<S, P> {
    /// The flow as its contracts see it.
    pub closed spec fn model(&self) -> FlowModel<S, P> {
        FlowModel {
            state: self.state,
            store: self.store@,
            swipe: self.swipe,
            allow_swipe: self.allow_swipe,
            internal_state: self.internal_state as int,
            internal_pages: self.internal_pages as int,
            pending: opt_decision_view(self.decision_override),
        }
    }

    /// The current state.
    pub open spec fn spec_state(&self) -> S {
        self.model().state
    }

    /// The pages, in the order of their states' indices.
    pub open spec fn spec_store(&self) -> Seq<P> {
        self.model().store
    }

    /// The commands last given to the gesture classifier.
    pub open spec fn spec_detector(&self) -> SwipeDetect {
        self.model().swipe
    }

    /// Whether input goes through the gesture classifier.
    pub open spec fn spec_allow_swipe(&self) -> bool {
        self.model().allow_swipe
    }

    /// Index of the current page's shown sub-page.
    pub open spec fn spec_internal_state(&self) -> int {
        self.model().internal_state
    }

    /// Number of sub-pages of the current page.
    pub open spec fn spec_internal_pages(&self) -> int {
        self.model().internal_pages
    }

    /// The decision that the next completed swipe takes, if one is pending.
    pub open spec fn spec_pending(&self) -> Option<DecisionView<S>> {
        self.model().pending
    }

    /// The store is within capacity and the sub-page index within its page.
    pub open spec fn wf(&self) -> bool {
        &&& self.spec_store().len() <= MAX_PAGES
        &&& 1 <= self.spec_internal_pages() <= u16::MAX
        &&& 0 <= self.spec_internal_state() < self.spec_internal_pages()
    }

    /// Every state of the flow has its page.
    pub open spec fn complete(&self) -> bool {
        forall|s: S| #[trigger] s.spec_index() < self.spec_store().len()
    }

    /// The current state's page.
    pub open spec fn current_page_spec(&self) -> P {
        current_of(self.model())
    }

    /// Sub-page count that the current page reports.
    pub open spec fn current_page_count(&self) -> int {
        current_count_of(self.model())
    }

    /// The configuration handed to the gesture classifier for the next event.
    pub open spec fn detect_config(&self) -> SwipeConfig {
        detect_config_of(self.model())
    }

    /// A flow that starts in `initial_state` and has no page yet.
    pub fn new(initial_state: S) -> (r: Result<Self, Error>)
        ensures
            r is Ok,
            r matches Ok(f) ==> {
                &&& f.wf()
                &&& f.spec_state() == initial_state
                &&& f.spec_store().len() == 0
                &&& f.spec_detector().armed is None
                &&& f.spec_allow_swipe()
                &&& f.spec_internal_state() == 0
                &&& f.spec_internal_pages() == 1
                &&& f.spec_pending() is None
            },
    {
        Ok(SwipeFlow {
            state: initial_state,
            store: Vec::new(),
            swipe: SwipeDetect::new(),
            allow_swipe: true,
            internal_state: 0,
            internal_pages: 1,
            decision_override: None,
        })
    }

    /// Adds the page of `state`. Pages come in the order of their states'
    /// indices; a full store is an allocation failure.
    pub fn with_page(self, state: &S, page: P) -> (r: Result<Self, Error>)
        requires
            self.wf(),
            self.spec_store().len() == state.spec_index(),
        ensures
            self.spec_store().len() < MAX_PAGES <==> r is Ok,
            r matches Ok(f) ==> {
                &&& f.wf()
                &&& f.spec_store() == self.spec_store().push(page)
                &&& f.spec_state() == self.spec_state()
                &&& f.spec_detector() == self.spec_detector()
                &&& f.spec_allow_swipe() == self.spec_allow_swipe()
                &&& f.spec_internal_state() == self.spec_internal_state()
                &&& f.spec_internal_pages() == self.spec_internal_pages()
                &&& f.spec_pending() == self.spec_pending()
            },
            r matches Err(e) ==> e == Error::AllocationFailed,
    {
        let mut flow = self;
        if flow.store.len() >= MAX_PAGES {
            return Err(Error::AllocationFailed);
        }
        flow.store.push(page);
        Ok(flow)
    }

    /// Number of pages in the flow.
    pub fn page_count(&self) -> (r: usize)
        ensures
            r == self.spec_store().len(),
    {
        self.store.len()
    }

    /// The current state.
    pub fn current_state(&self) -> (r: &S)
        ensures
            *r == self.spec_state(),
    {
        &self.state
    }

    /// Whether input goes through the gesture classifier.
    pub fn swipe_allowed(&self) -> (r: bool)
        ensures
            r == self.spec_allow_swipe(),
    {
        self.allow_swipe
    }

    /// The commands last given to the gesture classifier.
    pub fn detector(&self) -> (r: SwipeDetect)
        ensures
            r == self.spec_detector(),
    {
        self.swipe
    }

    /// Index of the shown sub-page of the current page.
    pub fn internal_state(&self) -> (r: u16)
        ensures
            r as int == self.spec_internal_state(),
    {
        self.internal_state
    }

    /// Number of sub-pages of the current page.
    pub fn internal_pages(&self) -> (r: u16)
        ensures
            r as int == self.spec_internal_pages(),
    {
        self.internal_pages
    }

    /// Whether a decision waits for the next completed swipe.
    pub fn has_pending(&self) -> (r: bool)
        ensures
            r == self.spec_pending() is Some,
    {
        self.decision_override.is_some()
    }

    /// The current state's page.
    pub fn current_page(&self) -> (r: &P)
        requires
            self.complete(),
        ensures
            *r == self.current_page_spec(),
    {
        let i = self.state.index();
        &self.store[i]
    }

    /// Lays out every page in `bounds`; the flow takes all of it.
    pub fn place(&mut self, bounds: Rect) -> (r: Rect)
        requires
            old(self).wf(),
        ensures
            r == bounds,
            final(self).spec_store().len() == old(self).spec_store().len(),
            forall|i: int|
                0 <= i < old(self).spec_store().len() ==> final(self).spec_store()[i]
                    == (#[trigger] old(self).spec_store()[i]).spec_place(bounds).0,
            final(self).model() == (FlowModel { store: final(self).spec_store(), ..old(self).model() }),
            final(self).wf(),
    {
        let n = self.store.len();
        let mut i: usize = 0;
        while i < n
            invariant
                n == self.store@.len(),
                n == old(self).store@.len(),
                i <= n,
                self.state == old(self).state,
                self.swipe == old(self).swipe,
                self.allow_swipe == old(self).allow_swipe,
                self.internal_state == old(self).internal_state,
                self.internal_pages == old(self).internal_pages,
                self.decision_override == old(self).decision_override,
                forall|k: int| 0 <= k < i ==> self.store@[k] == (#[trigger] old(self).store@[k]).spec_place(bounds).0,
                forall|k: int| i <= k < n ==> self.store@[k] == old(self).store@[k],
            decreases n - i,
        {
            self.store[i].place(bounds);
            i = i + 1;
        }
        bounds
    }

    /// Reads the current page's sub-page count and keeps the sub-page index
    /// within it.
    fn refresh_paging(&mut self)
        requires
            old(self).wf(),
            old(self).complete(),
        ensures
            final(self).model() == (FlowModel {
                internal_pages: old(self).current_page_count(),
                internal_state: clamp_to(old(self).spec_internal_state(), 0, old(self).current_page_count() - 1),
                ..old(self).model()
            }),
    {
        let i = self.state.index();
        let n = sub_page_count(self.store[i].get_internal_page_count());
        self.internal_pages = n;
        if self.internal_state >= n {
            self.internal_state = n - 1;
        }
    }

    /// First step of an event; also gives the event the page is to see.
    fn step_one(&mut self, event: Event, detected: Option<SwipeDetectMsg>) -> (r: (Decision<S>, Event, bool))
        requires
            old(self).wf(),
            old(self).complete(),
        ensures
            final(self).model() == step_one_model(old(self).model(), detected).0,
            r.0@ == step_one_model(old(self).model(), detected).1,
            r.2 == step_one_model(old(self).model(), detected).2,
            r.1 == page_event(old(self).spec_allow_swipe(), detected, event),
    {
        if !self.allow_swipe {
            return (Decision::Nothing, event, false);
        }
        self.refresh_paging();
        let i = self.state.index();
        let mut config = self.store[i].get_swipe_config();
        config.configure_paging(self.internal_state, self.internal_pages);
        match detected {
            Some(SwipeDetectMsg::Trigger(dir)) => {
                let mut decision = match self.decision_override.take() {
                    Some(d) => d,
                    None => self.state.handle_swipe(dir),
                };
                let mut attach = false;
                let paging = config.paging_event(dir);
                if paging != 0 {
                    self.internal_state = page_step(self.internal_state, self.internal_pages, paging);
                    decision = Decision::Nothing;
                    attach = true;
                }
                (decision, Event::Swipe(SwipeEvent::End(dir)), attach)
            },
            Some(SwipeDetectMsg::Move(dir, progress)) => {
                let p: i16 = if progress > 100 { 100 } else { progress as i16 };
                (Decision::Nothing, Event::Swipe(SwipeEvent::Move(dir, p)), false)
            },
            Some(SwipeDetectMsg::Start(_)) => (Decision::Nothing, Event::Touch(TouchEvent::TouchAbort), false),
            None => (Decision::Nothing, event, false),
        }
    }

    /// Hands `event` to the current page and asks the policy about the
    /// page's message, if it has one.
    fn handle_event_child(&mut self, ctx: &mut EventCtx, event: Event) -> (r: Decision<S>)
        requires
            old(self).complete(),
        ensures
            ({
                let t = child_model(old(self).model(), *old(ctx), event);
                &&& final(self).model() == t.0
                &&& *final(ctx) == t.1
                &&& r@ == t.2
            }),
    {
        let i = self.state.index();
        let msg = self.store[i].event(ctx, event);
        match msg {
            Some(m) => self.state.handle_event(m),
            None => Decision::Nothing,
        }
    }

    /// Hands `event` to the current page for its own bookkeeping.
    fn housekeeping(&mut self, ctx: &mut EventCtx, event: Event)
        requires
            old(self).complete(),
        ensures
            ({
                let t = housekeeping_model(old(self).model(), *old(ctx), event);
                &&& final(self).model() == t.0
                &&& *final(ctx) == t.1
            }),
    {
        let i = self.state.index();
        let _ = self.store[i].event(ctx, event);
    }

    /// Holds back a transition entered by an accepted swipe so that the
    /// classifier first plays the swipe out; the next completed swipe then
    /// takes it. With animations off it takes effect at once.
    fn defer_swipe(&mut self, ctx: &EventCtx, decision: Decision<S>, config: SwipeConfig) -> (r: Decision<S>)
        ensures
            ({
                let t = defer_model(old(self).model(), ctx.animation_disabled, decision@, config);
                &&& final(self).model() == t.0
                &&& r@ == t.1
            }),
    {
        if let Decision::Transition(_, AttachType::Swipe(direction)) = decision {
            if config.is_allowed(direction) {
                self.allow_swipe = true;
                if !ctx.animation_disabled {
                    self.swipe.trigger(direction);
                    self.decision_override = Some(decision);
                    return Decision::Nothing;
                }
            }
        }
        decision
    }

    /// Second step of an event, taken when the first gave no decision.
    fn step_two(&mut self, ctx: &mut EventCtx, e: Event, attach: bool) -> (r: Decision<S>)
        requires
            old(self).complete(),
        ensures
            ({
                let t = step_two_model(old(self).model(), *old(ctx), e, attach);
                &&& final(self).model() == t.0
                &&& *final(ctx) == t.1
                &&& r@ == t.2
            }),
    {
        let decision = self.handle_event_child(ctx, e);
        // Paging within the page: it is told of its new sub-page right after
        // the swipe's end.
        if attach {
            if let Event::Swipe(SwipeEvent::End(dir)) = e {
                self.housekeeping(ctx, Event::Attach(AttachType::Swipe(dir)));
            }
        }
        if ctx.disable_swipe_requested {
            self.swipe.reset();
            self.allow_swipe = false;
        }
        if ctx.enable_swipe_requested {
            self.swipe.reset();
            self.allow_swipe = true;
        }
        let i = self.state.index();
        let config = self.store[i].get_swipe_config();
        self.defer_swipe(ctx, decision, config)
    }

    /// Makes the current state's page active, entered as `attach_type` says.
    fn goto(&mut self, ctx: &mut EventCtx, attach_type: AttachType)
        requires
            old(self).complete(),
        ensures
            ({
                let t = goto_model(old(self).model(), *old(ctx), attach_type);
                &&& final(self).model() == t.0
                &&& *final(ctx) == t.1
            }),
    {
        self.swipe = SwipeDetect::new();
        self.allow_swipe = true;
        let i = self.state.index();
        self.store[i].event(ctx, Event::Attach(attach_type));
        let n = sub_page_count(self.store[i].get_internal_page_count());
        self.internal_pages = n;
        match attach_type {
            AttachType::Swipe(SwipeDirection::Up) => {
                self.internal_state = 0;
            },
            AttachType::Swipe(SwipeDirection::Down) => {
                self.internal_state = n - 1;
            },
            _ => {
                if self.internal_state >= n {
                    self.internal_state = n - 1;
                }
            },
        }
        ctx.request_paint();
    }

    /// Applies a decision; `out` is how the flow leaves if it returns.
    fn apply(&mut self, ctx: &mut EventCtx, decision: Decision<S>, out: AttachType) -> (r: Option<FlowMsg>)
        requires
            old(self).complete(),
        ensures
            ({
                let t = apply_model(old(self).model(), *old(ctx), decision@, out);
                &&& final(self).model() == t.0
                &&& *final(ctx) == t.1
                &&& opt_msg_view(r) == t.2
            }),
    {
        match decision {
            Decision::Transition(new_state, attach_type) => {
                self.state = new_state;
                self.goto(ctx, attach_type);
                None
            },
            Decision::Return(msg) => {
                ctx.set_transition_out(out);
                self.swipe.reset();
                self.allow_swipe = true;
                Some(msg)
            },
            Decision::Nothing => None,
        }
    }

    /// Processes one input event. `detected` is what the gesture classifier
    /// made of it under `detect_config()`; it is not consulted while swipes
    /// are disallowed. Returns the flow's outcome once it is done.
    pub fn event(
        &mut self,
        ctx: &mut EventCtx,
        event: Event,
        detected: Option<SwipeDetectMsg>,
    ) -> (r: Option<FlowMsg>)
        requires
            old(self).wf(),
            old(self).complete(),
        ensures
            ({
                let t = event_model(old(self).model(), *old(ctx), event, detected);
                &&& final(self).model() == t.0
                &&& *final(ctx) == t.1
                &&& opt_msg_view(r) == t.2
            }),
            final(self).wf(),
            final(self).complete(),
            r is Some ==> {
                &&& final(self).spec_detector() == detector_reset()
                &&& final(self).spec_allow_swipe()
                &&& final(self).spec_state() == old(self).spec_state()
            },
    {
        let out = if self.allow_swipe && matches!(detected, Some(SwipeDetectMsg::Trigger(_))) {
            match detected {
                Some(SwipeDetectMsg::Trigger(dir)) => AttachType::Swipe(dir),
                _ => AttachType::Initial,
            }
        } else {
            AttachType::Initial
        };
        let (decision, e, attach) = self.step_one(event, detected);
        let decision = if matches!(decision, Decision::Nothing) {
            self.step_two(ctx, e, attach)
        } else {
            // Already transitioning: the page sees the raw event only.
            self.housekeeping(ctx, event);
            decision
        };
        self.apply(ctx, decision, out)
    }

    /// Paints the current page into `target`.
    pub fn render<R>(&self, target: &mut R) where P: FlowComponentDynTrait<R>
        requires
            self.complete(),
        ensures
            *final(target) == self.current_page_spec().spec_painted(*old(target)),
    {
        let i = self.state.index();
        self.render_state(i, target);
    }

    fn render_state<R>(&self, state: usize, target: &mut R) where P: FlowComponentDynTrait<R>
        requires
            state < self.spec_store().len(),
        ensures
            *final(target) == self.spec_store()[state as int].spec_painted(*old(target)),
    {
        self.store[state].render(target);
    }
}

/// The sub-page index after a paging step of `delta` from `current`, held
/// within `[0, pages)`: a step past either end stays at that end.
pub fn page_step(current: u16, pages: u16, delta: i16) -> (r: u16)
    requires
        pages >= 1,
    ensures
        r as int == clamp_to(current + delta, 0, pages - 1),
        r < pages,
{
    let target = current as i32 + delta as i32;
    let last = pages as i32 - 1;
    if target < 0 {
        0
    } else if target > last {
        last as u16
    } else {
        target as u16
    }
}

/// Sub-page count used for a page reporting `n`.
fn sub_page_count(n: usize) -> (r: u16)
    ensures
        r as int == page_count_of(n),
        r >= 1,
{
    if n == 0 {
        1
    } else if n > u16::MAX as usize {
        u16::MAX
    } else {
        n as u16
    }
}

} // verus!
