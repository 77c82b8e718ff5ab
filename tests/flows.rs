use swipe_flow::component::{FlowComponentTrait, Rect};
use swipe_flow::decision::{Decision, DecisionView, FlowController};
use swipe_flow::event::{AttachType, Event, EventCtx, FlowMsg, FlowMsgView, SwipeDirection, SwipeEvent, TouchEvent};
use swipe_flow::request_number::{new_request_number, RequestNumber};
use swipe_flow::request_passphrase::{new_request_passphrase, RequestPassphrase};
use swipe_flow::swipe::{page_step, Error, SwipeFlow, MAX_PAGES};
use swipe_flow::swipe_detect::{Axis, SwipeConfig, SwipeDetectMsg};
use swipe_flow::warning_hi_prio::{new_warning_hi_prio, WarningHiPrio};

const ALL_DIRS: [SwipeDirection; 4] = [
    SwipeDirection::Up,
    SwipeDirection::Down,
    SwipeDirection::Left,
    SwipeDirection::Right,
];

/// A page that emits scripted messages and records what it was sent.
#[derive(Clone, Debug)]
struct TestPage {
    config: SwipeConfig,
    sub_pages: usize,
    outbox: Vec<FlowMsg>,
    received: Vec<Event>,
    disable_swipe: bool,
    placed: usize,
}

impl TestPage {
    fn new(dirs: &[SwipeDirection]) -> TestPage {
        let mut config = SwipeConfig::new();
        for d in dirs {
            config = config.with_swipe(*d);
        }
        TestPage { config, sub_pages: 1, outbox: Vec::new(), received: Vec::new(), disable_swipe: false, placed: 0 }
    }

    fn emitting(mut self, msg: FlowMsg) -> TestPage {
        self.outbox.push(msg);
        self
    }
}

/// The message as the policy tables see it; text is not modelled here.
fn msg_view(m: FlowMsg) -> Option<FlowMsgView> {
    match m {
        FlowMsg::Info => Some(FlowMsgView::Info),
        FlowMsg::Choice(n) => Some(FlowMsgView::Choice(n)),
        FlowMsg::Cancelled => Some(FlowMsgView::Cancelled),
        FlowMsg::Confirmed => Some(FlowMsgView::Confirmed),
        FlowMsg::Text(_) => None,
    }
}

impl FlowComponentTrait for TestPage {
    fn spec_place(&self, bounds: Rect) -> (TestPage, Rect) {
        let mut page = self.clone();
        let r = page.place(bounds);
        (page, r)
    }

    fn spec_event(&self, ctx: EventCtx, event: Event) -> (TestPage, EventCtx, Option<FlowMsgView>) {
        let mut page = self.clone();
        let mut c = ctx;
        let msg = page.event(&mut c, event);
        (page, c, msg.and_then(msg_view))
    }

    fn spec_swipe_config(&self) -> SwipeConfig {
        self.config
    }

    fn spec_internal_page_count(&self) -> usize {
        self.sub_pages
    }

    fn place(&mut self, bounds: Rect) -> Rect {
        self.placed += 1;
        bounds
    }

    fn event(&mut self, ctx: &mut EventCtx, event: Event) -> Option<FlowMsg> {
        self.received.push(event);
        if self.disable_swipe {
            ctx.disable_swipe_requested = true;
        }
        match event {
            Event::Attach(_) => None,
            _ => {
                if self.outbox.is_empty() {
                    None
                } else {
                    Some(self.outbox.remove(0))
                }
            }
        }
    }

    fn get_swipe_config(&self) -> SwipeConfig {
        self.config
    }

    fn get_internal_page_count(&self) -> usize {
        self.sub_pages
    }
}

fn tap() -> Event {
    Event::Touch(TouchEvent::TouchEnd(10, 10))
}

fn number_flow(number: TestPage, menu: TestPage, info: TestPage) -> SwipeFlow<RequestNumber, TestPage> {
    new_request_number(number, menu, info).unwrap()
}

fn default_number_flow() -> SwipeFlow<RequestNumber, TestPage> {
    number_flow(
        TestPage::new(&[SwipeDirection::Up, SwipeDirection::Left]),
        TestPage::new(&[SwipeDirection::Right]),
        TestPage::new(&[SwipeDirection::Right]),
    )
}

fn is_nothing<S>(d: &Decision<S>) -> bool {
    matches!(d, Decision::Nothing)
}

#[test]
fn unmatched_swipes_are_nothing_in_every_flow() {
    for d in ALL_DIRS {
        for s in [RequestNumber::Number, RequestNumber::Menu, RequestNumber::Info] {
            let matched = matches!(
                (s, d),
                (RequestNumber::Number, SwipeDirection::Left)
                    | (RequestNumber::Menu, SwipeDirection::Right)
                    | (RequestNumber::Info, SwipeDirection::Right)
            );
            assert_eq!(is_nothing(&s.handle_swipe(d)), !matched);
        }
        for s in [RequestPassphrase::Keypad, RequestPassphrase::ConfirmEmpty] {
            assert!(is_nothing(&s.handle_swipe(d)));
        }
        for s in [WarningHiPrio::Message, WarningHiPrio::Menu, WarningHiPrio::Cancelled] {
            let matched = matches!(
                (s, d),
                (WarningHiPrio::Message, SwipeDirection::Left)
                    | (WarningHiPrio::Message, SwipeDirection::Up)
                    | (WarningHiPrio::Menu, SwipeDirection::Right)
            );
            assert_eq!(is_nothing(&s.handle_swipe(d)), !matched);
        }
    }
}

#[test]
fn unmatched_messages_are_nothing() {
    assert!(is_nothing(&RequestNumber::Info.handle_event(FlowMsg::Info)));
    assert!(is_nothing(&RequestNumber::Number.handle_event(FlowMsg::Cancelled)));
    assert!(is_nothing(&RequestNumber::Menu.handle_event(FlowMsg::Confirmed)));
    assert!(is_nothing(&RequestPassphrase::Keypad.handle_event(FlowMsg::Info)));
    assert!(is_nothing(&RequestPassphrase::ConfirmEmpty.handle_event(FlowMsg::Choice(0))));
    assert!(is_nothing(&WarningHiPrio::Message.handle_event(FlowMsg::Cancelled)));
    assert!(is_nothing(&WarningHiPrio::Menu.handle_event(FlowMsg::Info)));
}

#[test]
fn choice_99_on_menu_is_nothing_and_state_unchanged() {
    assert!(is_nothing(&RequestNumber::Menu.handle_event(FlowMsg::Choice(99))));
    let mut flow = number_flow(
        TestPage::new(&[SwipeDirection::Left]).emitting(FlowMsg::Info),
        TestPage::new(&[SwipeDirection::Right]).emitting(FlowMsg::Choice(99)),
        TestPage::new(&[SwipeDirection::Right]),
    );
    let mut ctx = EventCtx::new(false);
    // The menu button leads from Number to Menu.
    assert_eq!(flow.event(&mut ctx, tap(), None), None);
    assert_eq!(*flow.current_state(), RequestNumber::Menu);
    // Menu emits Choice(99), for which its table has no entry.
    assert_eq!(flow.event(&mut ctx, tap(), None), None);
    assert_eq!(*flow.current_state(), RequestNumber::Menu);
    assert!(!flow.has_pending());
}

#[test]
fn number_left_swipe_decides_transition_to_menu() {
    match RequestNumber::Number.handle_swipe(SwipeDirection::Left) {
        Decision::Transition(s, a) => {
            assert_eq!(s, RequestNumber::Menu);
            assert_eq!(a, AttachType::Swipe(SwipeDirection::Left));
        }
        _ => panic!("expected a transition"),
    }
    match RequestNumber::Menu.handle_swipe(SwipeDirection::Right) {
        Decision::Transition(s, a) => {
            assert_eq!(s, RequestNumber::Number);
            assert_eq!(a, AttachType::Swipe(SwipeDirection::Right));
        }
        _ => panic!("expected a transition"),
    }
    match RequestNumber::Menu.handle_event(FlowMsg::Choice(0)) {
        Decision::Transition(s, a) => {
            assert_eq!(s, RequestNumber::Info);
            assert_eq!(a, AttachType::Swipe(SwipeDirection::Left));
        }
        _ => panic!("expected a transition"),
    }
}

#[test]
fn completed_left_swipe_on_number_moves_to_menu() {
    let mut flow = default_number_flow();
    let mut ctx = EventCtx::new(false);
    let r = flow.event(&mut ctx, tap(), Some(SwipeDetectMsg::Trigger(SwipeDirection::Left)));
    assert_eq!(r, None);
    assert_eq!(*flow.current_state(), RequestNumber::Menu);
    assert!(ctx.paint_requested);
    let menu = flow.current_page();
    assert_eq!(menu.received, vec![Event::Attach(AttachType::Swipe(SwipeDirection::Left))]);
}

#[test]
fn swipe_transition_from_page_waits_for_next_trigger() {
    let mut flow = number_flow(
        TestPage::new(&[SwipeDirection::Left]).emitting(FlowMsg::Info),
        TestPage::new(&[SwipeDirection::Left, SwipeDirection::Right]).emitting(FlowMsg::Choice(0)),
        TestPage::new(&[SwipeDirection::Right]),
    );
    let mut ctx = EventCtx::new(false);
    assert_eq!(flow.event(&mut ctx, tap(), None), None);
    assert_eq!(*flow.current_state(), RequestNumber::Menu);
    // Menu emits Choice(0): a swipe-left transition to Info, held back.
    assert_eq!(flow.event(&mut ctx, tap(), None), None);
    assert_eq!(*flow.current_state(), RequestNumber::Menu);
    assert!(flow.has_pending());
    assert!(flow.swipe_allowed());
    assert_eq!(flow.detector().armed, Some(SwipeDirection::Left));
    // Movement of the played swipe does not change the state.
    assert_eq!(flow.event(&mut ctx, tap(), Some(SwipeDetectMsg::Move(SwipeDirection::Left, 50))), None);
    assert_eq!(*flow.current_state(), RequestNumber::Menu);
    // The trigger takes the pending transition.
    assert_eq!(flow.event(&mut ctx, tap(), Some(SwipeDetectMsg::Trigger(SwipeDirection::Left))), None);
    assert_eq!(*flow.current_state(), RequestNumber::Info);
    assert!(!flow.has_pending());
    assert_eq!(flow.detector().armed, None);
}

#[test]
fn swipe_transition_without_animation_is_immediate() {
    let mut flow = number_flow(
        TestPage::new(&[SwipeDirection::Left]).emitting(FlowMsg::Info),
        TestPage::new(&[SwipeDirection::Left, SwipeDirection::Right]).emitting(FlowMsg::Choice(0)),
        TestPage::new(&[SwipeDirection::Right]),
    );
    let mut ctx = EventCtx::new(true);
    assert_eq!(flow.event(&mut ctx, tap(), None), None);
    assert_eq!(flow.event(&mut ctx, tap(), None), None);
    assert_eq!(*flow.current_state(), RequestNumber::Info);
    assert!(!flow.has_pending());
}

#[test]
fn swipe_transition_in_direction_not_allowed_is_immediate() {
    let mut flow = number_flow(
        TestPage::new(&[SwipeDirection::Left]).emitting(FlowMsg::Info),
        TestPage::new(&[SwipeDirection::Right]).emitting(FlowMsg::Choice(0)),
        TestPage::new(&[SwipeDirection::Right]),
    );
    let mut ctx = EventCtx::new(false);
    assert_eq!(flow.event(&mut ctx, tap(), None), None);
    assert_eq!(flow.event(&mut ctx, tap(), None), None);
    assert_eq!(*flow.current_state(), RequestNumber::Info);
}

#[test]
fn return_resets_detector_and_enables_swipe() {
    // The page turns swipes off while it hands out its result.
    let mut number = TestPage::new(&[SwipeDirection::Left]).emitting(FlowMsg::Choice(7));
    number.disable_swipe = true;
    let mut flow = number_flow(
        number,
        TestPage::new(&[SwipeDirection::Right]),
        TestPage::new(&[SwipeDirection::Right]),
    );
    let mut ctx = EventCtx::new(false);
    let r = flow.event(&mut ctx, tap(), None);
    assert_eq!(r, Some(FlowMsg::Choice(7)));
    assert!(flow.swipe_allowed());
    assert_eq!(flow.detector().armed, None);
    assert_eq!(ctx.transition_out, Some(AttachType::Initial));
    assert_eq!(*flow.current_state(), RequestNumber::Number);
}

#[test]
fn return_after_trigger_records_swipe_out() {
    let mut flow = new_warning_hi_prio(
        TestPage::new(&[SwipeDirection::Up]),
        TestPage::new(&[SwipeDirection::Right]),
        TestPage::new(&[SwipeDirection::Up]).emitting(FlowMsg::Info),
    )
    .unwrap();
    let mut ctx = EventCtx::new(false);
    let up = Some(SwipeDetectMsg::Trigger(SwipeDirection::Up));
    assert_eq!(flow.event(&mut ctx, tap(), up), None);
    assert_eq!(*flow.current_state(), WarningHiPrio::Cancelled);
    assert_eq!(ctx.transition_out, None);
    // The Cancelled page answers the swipe's end with a message; any message
    // there returns, and the flow is left by that swipe.
    assert_eq!(flow.event(&mut ctx, tap(), up), Some(FlowMsg::Cancelled));
    assert_eq!(ctx.transition_out, Some(AttachType::Swipe(SwipeDirection::Up)));
    assert_eq!(flow.detector().armed, None);
    assert!(flow.swipe_allowed());
    assert_eq!(
        flow.current_page().received,
        vec![
            Event::Attach(AttachType::Swipe(SwipeDirection::Up)),
            Event::Swipe(SwipeEvent::End(SwipeDirection::Up)),
        ]
    );
}

#[test]
fn transition_down_shows_last_sub_page() {
    let mut info = TestPage::new(&[SwipeDirection::Right]);
    info.sub_pages = 4;
    let mut flow: SwipeFlow<Step, TestPage> = SwipeFlow::new(Step(0)).unwrap();
    flow = flow.with_page(&Step(0), TestPage::new(&[SwipeDirection::Down])).unwrap();
    flow = flow.with_page(&Step(1), info).unwrap();
    let mut ctx = EventCtx::new(false);
    let down = Some(SwipeDetectMsg::Trigger(SwipeDirection::Down));
    assert_eq!(flow.event(&mut ctx, tap(), down), None);
    assert_eq!(flow.current_state().0, 1);
    assert_eq!(flow.internal_pages(), 4);
    assert_eq!(flow.internal_state(), 3);
}

#[test]
fn page_step_saturates() {
    assert_eq!(page_step(0, 3, -1), 0);
    assert_eq!(page_step(0, 3, 1), 1);
    assert_eq!(page_step(2, 3, 1), 2);
    assert_eq!(page_step(1, 3, -1), 0);
    assert_eq!(page_step(0, 1, 1), 0);
    assert_eq!(page_step(u16::MAX - 1, u16::MAX, 1), u16::MAX - 1);
}

#[test]
fn disabled_swipe_ignores_classifier() {
    let mut p = TestPage::new(&[SwipeDirection::Left]);
    p.disable_swipe = true;
    let mut flow = number_flow(p, TestPage::new(&[SwipeDirection::Right]), TestPage::new(&[SwipeDirection::Right]));
    let mut ctx = EventCtx::new(false);
    assert_eq!(flow.event(&mut ctx, tap(), None), None);
    assert!(!flow.swipe_allowed());
    assert_eq!(flow.event(&mut ctx, tap(), Some(SwipeDetectMsg::Trigger(SwipeDirection::Left))), None);
    assert_eq!(*flow.current_state(), RequestNumber::Number);
    assert_eq!(flow.current_page().received, vec![tap(), tap()]);
}

#[test]
fn classifier_start_and_move_reach_the_page() {
    let mut flow = default_number_flow();
    let mut ctx = EventCtx::new(false);
    flow.event(&mut ctx, tap(), Some(SwipeDetectMsg::Start(SwipeDirection::Up)));
    flow.event(&mut ctx, tap(), Some(SwipeDetectMsg::Move(SwipeDirection::Up, 40)));
    assert_eq!(
        flow.current_page().received,
        vec![
            Event::Touch(TouchEvent::TouchAbort),
            Event::Swipe(SwipeEvent::Move(SwipeDirection::Up, 40)),
        ]
    );
}

#[test]
fn sub_page_index_saturates_at_both_ends() {
    let mut number = TestPage::new(&[SwipeDirection::Up, SwipeDirection::Down, SwipeDirection::Left]);
    number.config = number.config.with_pagination(Axis::Vertical);
    number.sub_pages = 3;
    let mut flow = number_flow(number, TestPage::new(&[SwipeDirection::Right]), TestPage::new(&[SwipeDirection::Right]));
    let mut ctx = EventCtx::new(false);
    let up = Some(SwipeDetectMsg::Trigger(SwipeDirection::Up));
    let down = Some(SwipeDetectMsg::Trigger(SwipeDirection::Down));
    flow.event(&mut ctx, tap(), up);
    assert_eq!(flow.internal_state(), 1);
    assert_eq!(flow.internal_pages(), 3);
    flow.event(&mut ctx, tap(), up);
    assert_eq!(flow.internal_state(), 2);
    flow.event(&mut ctx, tap(), up);
    assert_eq!(flow.internal_state(), 2);
    for _ in 0..5 {
        flow.event(&mut ctx, tap(), down);
    }
    assert_eq!(flow.internal_state(), 0);
    assert_eq!(*flow.current_state(), RequestNumber::Number);
    // The page hears the end of each paging swipe, then its attach.
    let got = &flow.current_page().received;
    assert_eq!(got[0], Event::Swipe(SwipeEvent::End(SwipeDirection::Up)));
    assert_eq!(got[1], Event::Attach(AttachType::Swipe(SwipeDirection::Up)));
}

#[test]
fn paging_swipe_does_not_change_state() {
    let mut number = TestPage::new(&[SwipeDirection::Left]);
    number.config = number.config.with_pagination(Axis::Horizontal);
    number.sub_pages = 2;
    let mut flow = number_flow(number, TestPage::new(&[SwipeDirection::Right]), TestPage::new(&[SwipeDirection::Right]));
    let mut ctx = EventCtx::new(false);
    let left = Some(SwipeDetectMsg::Trigger(SwipeDirection::Left));
    flow.event(&mut ctx, tap(), left);
    assert_eq!(*flow.current_state(), RequestNumber::Number);
    assert_eq!(flow.internal_state(), 1);
    // On the last sub-page the same swipe leaves for the menu.
    flow.event(&mut ctx, tap(), left);
    assert_eq!(*flow.current_state(), RequestNumber::Menu);
}

#[test]
fn swipe_config_paging_values() {
    let c = SwipeConfig::new().with_pagination(Axis::Vertical);
    let mut c3 = c;
    c3.configure_paging(0, 3);
    assert_eq!(c3.paging_event(SwipeDirection::Up), 1);
    assert_eq!(c3.paging_event(SwipeDirection::Down), 0);
    assert_eq!(c3.paging_event(SwipeDirection::Left), 0);
    c3.configure_paging(2, 3);
    assert_eq!(c3.paging_event(SwipeDirection::Up), 0);
    assert_eq!(c3.paging_event(SwipeDirection::Down), -1);
    let mut h = SwipeConfig::new().with_pagination(Axis::Horizontal);
    h.configure_paging(1, 3);
    assert_eq!(h.paging_event(SwipeDirection::Left), 1);
    assert_eq!(h.paging_event(SwipeDirection::Right), -1);
    assert_eq!(h.paging_event(SwipeDirection::Up), 0);
    let a = SwipeConfig::new().with_swipe(SwipeDirection::Down);
    assert!(a.is_allowed(SwipeDirection::Down));
    assert!(!a.is_allowed(SwipeDirection::Up));
}

#[test]
fn return_from_number_gives_the_choice() {
    match RequestNumber::Number.handle_event(FlowMsg::Choice(42)) {
        Decision::Return(m) => assert_eq!(m, FlowMsg::Choice(42)),
        _ => panic!("expected a return"),
    }
}

#[test]
fn passphrase_rules() {
    match RequestPassphrase::Keypad.handle_event(FlowMsg::Text(String::new())) {
        Decision::Transition(s, a) => {
            assert_eq!(s, RequestPassphrase::ConfirmEmpty);
            assert_eq!(a, AttachType::Initial);
        }
        _ => panic!("expected a transition"),
    }
    match RequestPassphrase::Keypad.handle_event(FlowMsg::Text("abc".to_string())) {
        Decision::Return(m) => assert_eq!(m, FlowMsg::Text("abc".to_string())),
        _ => panic!("expected a return"),
    }
    match RequestPassphrase::ConfirmEmpty.handle_event(FlowMsg::Confirmed) {
        Decision::Return(m) => assert_eq!(m, FlowMsg::Text(String::new())),
        _ => panic!("expected a return"),
    }
    match RequestPassphrase::Keypad.handle_event(FlowMsg::Cancelled) {
        Decision::Return(m) => assert_eq!(m, FlowMsg::Cancelled),
        _ => panic!("expected a return"),
    }
    match RequestPassphrase::ConfirmEmpty.handle_event(FlowMsg::Cancelled) {
        Decision::Transition(s, _) => assert_eq!(s, RequestPassphrase::Keypad),
        _ => panic!("expected a transition"),
    }
}

#[test]
fn passphrase_flow_confirms_empty() {
    let mut flow = new_request_passphrase(
        TestPage::new(&[]).emitting(FlowMsg::Text(String::new())),
        TestPage::new(&[]).emitting(FlowMsg::Confirmed),
    )
    .unwrap();
    let mut ctx = EventCtx::new(false);
    assert_eq!(flow.event(&mut ctx, tap(), None), None);
    assert_eq!(*flow.current_state(), RequestPassphrase::ConfirmEmpty);
    assert_eq!(flow.event(&mut ctx, tap(), None), Some(FlowMsg::Text(String::new())));
}

#[test]
fn warning_rules() {
    match WarningHiPrio::Menu.handle_event(FlowMsg::Choice(1)) {
        Decision::Return(m) => assert_eq!(m, FlowMsg::Confirmed),
        _ => panic!("expected a return"),
    }
    match WarningHiPrio::Menu.handle_event(FlowMsg::Choice(0)) {
        Decision::Transition(s, a) => {
            assert_eq!(s, WarningHiPrio::Cancelled);
            assert_eq!(a, AttachType::Swipe(SwipeDirection::Up));
        }
        _ => panic!("expected a transition"),
    }
    match WarningHiPrio::Cancelled.handle_event(FlowMsg::Info) {
        Decision::Return(m) => assert_eq!(m, FlowMsg::Cancelled),
        _ => panic!("expected a return"),
    }
    match WarningHiPrio::Message.handle_swipe(SwipeDirection::Up) {
        Decision::Transition(s, _) => assert_eq!(s, WarningHiPrio::Cancelled),
        _ => panic!("expected a transition"),
    }
}

#[test]
fn warning_flow_swipe_up_to_cancelled_then_return() {
    let mut flow = new_warning_hi_prio(
        TestPage::new(&[SwipeDirection::Up, SwipeDirection::Left]),
        TestPage::new(&[SwipeDirection::Right]),
        TestPage::new(&[]).emitting(FlowMsg::Confirmed),
    )
    .unwrap();
    let mut ctx = EventCtx::new(false);
    assert_eq!(flow.event(&mut ctx, tap(), Some(SwipeDetectMsg::Trigger(SwipeDirection::Up))), None);
    assert_eq!(*flow.current_state(), WarningHiPrio::Cancelled);
    assert_eq!(flow.event(&mut ctx, tap(), None), Some(FlowMsg::Cancelled));
}

#[test]
fn place_reaches_every_page() {
    let mut flow = default_number_flow();
    let b = Rect { x0: 0, y0: 0, x1: 240, y1: 240 };
    assert_eq!(flow.place(b), b);
    assert_eq!(flow.page_count(), 3);
    assert_eq!(flow.current_page().placed, 1);
}

/// A flow state per page index, for building flows of any size; a swipe
/// down goes to the next one.
#[derive(Clone, Copy, Debug, PartialEq)]
struct Step(usize);

impl FlowController for Step {
    fn spec_index(&self) -> usize {
        self.0
    }

    fn swipe_rule(&self, dir: SwipeDirection) -> Option<DecisionView<Step>> {
        match dir {
            SwipeDirection::Down => Some(DecisionView::Transition(Step(self.0 + 1), AttachType::Swipe(dir))),
            _ => None,
        }
    }

    fn event_rule(&self, _msg: FlowMsgView) -> Option<DecisionView<Step>> {
        None
    }

    fn index(&self) -> usize {
        self.0
    }

    fn handle_swipe(&self, dir: SwipeDirection) -> Decision<Step> {
        match dir {
            SwipeDirection::Down => Decision::Transition(Step(self.0 + 1), AttachType::Swipe(dir)),
            _ => Decision::Nothing,
        }
    }

    fn handle_event(&self, _msg: FlowMsg) -> Decision<Step> {
        Decision::Nothing
    }
}

#[test]
fn full_store_is_an_allocation_failure() {
    let mut flow: SwipeFlow<Step, TestPage> = SwipeFlow::new(Step(0)).unwrap();
    for i in 0..MAX_PAGES {
        flow = flow.with_page(&Step(i), TestPage::new(&[])).unwrap();
    }
    assert_eq!(flow.page_count(), MAX_PAGES);
    assert_eq!(flow.with_page(&Step(MAX_PAGES), TestPage::new(&[])).err(), Some(Error::AllocationFailed));
}

#[test]
fn new_flow_starts_clean() {
    let flow: SwipeFlow<Step, TestPage> = SwipeFlow::new(Step(0)).unwrap();
    assert_eq!(flow.page_count(), 0);
    assert!(flow.swipe_allowed());
    assert_eq!(flow.internal_state(), 0);
    assert_eq!(flow.internal_pages(), 1);
    assert!(!flow.has_pending());
}
