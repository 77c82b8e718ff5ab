use vstd::prelude::*;

use crate::event::{opt_msg_view, Event, EventCtx, FlowMsg, FlowMsgView};
use crate::swipe_detect::SwipeConfig;

verus! {

/// A rectangle on the screen, by its corners.
#[derive(Clone, Copy, Debug, PartialEq, Eq, Structural)]
pub struct Rect {
    pub x0: i16,
    pub y0: i16,
    pub x1: i16,
    pub y1: i16,
}

/// What a page of a swipe flow must offer: layout, event handling, and its
/// swipe and paging configuration. A page is a deterministic state machine:
/// the spec functions say what each method does to it.
pub trait FlowComponentTrait: Sized {
    /// The page after it has been laid out in `bounds`, and the area it takes.
    spec fn spec_place(&self, bounds: Rect) -> (Self, Rect);

    /// The page and the context after the page handled `event`, and the
    /// message it emitted, if any.
    spec fn spec_event(&self, ctx: EventCtx, event: Event) -> (Self, EventCtx, Option<FlowMsgView>);

    /// The swipe configuration that this page currently reports.
    spec fn spec_swipe_config(&self) -> SwipeConfig;

    /// The number of internal sub-pages that this page currently reports.
    spec fn spec_internal_page_count(&self) -> usize;

    /// Lays the page out in `bounds` and returns the area it takes.
    fn place(&mut self, bounds: Rect) -> (r: Rect)
        ensures
            (*final(self), r) == old(self).spec_place(bounds),
    ;

    /// Handles one event; returns the page's outcome, if it has one.
    fn event(&mut self, ctx: &mut EventCtx, event: Event) -> (r: Option<FlowMsg>)
        ensures
            (*final(self), *final(ctx), opt_msg_view(r)) == old(self).spec_event(*old(ctx), event),
    ;

    /// Which swipes the page accepts and how it pages internally.
    fn get_swipe_config(&self) -> (r: SwipeConfig)
        ensures
            r == self.spec_swipe_config(),
    ;

    /// Number of internal sub-pages.
    fn get_internal_page_count(&self) -> (r: usize)
        ensures
            r == self.spec_internal_page_count(),
    ;
}

/// A flow page that paints itself into render targets of type `R`.
pub trait FlowComponentDynTrait<R>: FlowComponentTrait {
    /// The target after this page has been painted onto `before`.
    spec fn spec_painted(&self, before: R) -> R;

    /// Paints the page; does not change it.
    fn render(&self, target: &mut R)
        ensures
            *final(target) == self.spec_painted(*old(target)),
    ;
}

} // verus!
