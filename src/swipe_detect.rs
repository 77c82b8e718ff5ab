use vstd::prelude::*;

use crate::event::SwipeDirection;

verus! {

/// Axis along which a page pages through its internal content.
#[derive(Clone, Copy, Debug, PartialEq, Eq, Structural)]
pub enum Axis {
    Horizontal,
    Vertical,
}

/// Which swipes a page accepts, and where it stands in its internal paging.
#[derive(Clone, Copy, Debug, PartialEq, Eq, Structural)]
pub struct SwipeConfig {
    pub up: bool,
    pub down: bool,
    pub left: bool,
    pub right: bool,
    pub page_axis: Option<Axis>,
    pub current_page: u16,
    pub total_pages: u16,
}

/// Whether `dir` is a direction that the configuration accepts.
pub open spec fn allows(c: SwipeConfig, dir: SwipeDirection) -> bool {
    match dir {
        SwipeDirection::Up => c.up,
        SwipeDirection::Down => c.down,
        SwipeDirection::Left => c.left,
        SwipeDirection::Right => c.right,
    }
}

/// Sub-page step that a completed swipe in `dir` asks for: forward or back
/// along the paging axis while a further sub-page exists there, else none.
pub open spec fn paging_delta(c: SwipeConfig, dir: SwipeDirection) -> int {
    let forward = c.current_page + 1 < c.total_pages;
    let back = c.current_page > 0;
    match (c.page_axis, dir) {
        (Some(Axis::Vertical), SwipeDirection::Up) => if forward { 1 } else { 0 },
        (Some(Axis::Vertical), SwipeDirection::Down) => if back { -1 } else { 0 },
        (Some(Axis::Horizontal), SwipeDirection::Left) => if forward { 1 } else { 0 },
        (Some(Axis::Horizontal), SwipeDirection::Right) => if back { -1 } else { 0 },
        _ => 0,
    }
}

impl SwipeConfig {
    /// A configuration that accepts no swipe and does no paging.
    pub fn new() -> (r: SwipeConfig)
        ensures
            !r.up && !r.down && !r.left && !r.right,
            r.page_axis is None,
            r.current_page == 0,
            r.total_pages == 1,
    {
        SwipeConfig {
            up: false,
            down: false,
            left: false,
            right: false,
            page_axis: None,
            current_page: 0,
            total_pages: 1,
        }
    }

    /// The same configuration, also accepting swipes in `dir`.
    pub fn with_swipe(self, dir: SwipeDirection) -> (r: SwipeConfig)
        ensures
            allows(r, dir),
            forall|d: SwipeDirection| d != dir ==> allows(r, d) == allows(self, d),
            r.page_axis == self.page_axis,
            r.current_page == self.current_page,
            r.total_pages == self.total_pages,
    {
        match dir {
            SwipeDirection::Up => SwipeConfig { up: true, ..self },
            SwipeDirection::Down => SwipeConfig { down: true, ..self },
            SwipeDirection::Left => SwipeConfig { left: true, ..self },
            SwipeDirection::Right => SwipeConfig { right: true, ..self },
        }
    }

    /// The same configuration, paging along `axis`.
    pub fn with_pagination(self, axis: Axis) -> (r: SwipeConfig)
        ensures
            r == (SwipeConfig { page_axis: Some(axis), ..self }),
    {
        SwipeConfig { page_axis: Some(axis), ..self }
    }

    /// Whether swipes in `dir` are accepted.
    pub fn is_allowed(&self, dir: SwipeDirection) -> (r: bool)
        ensures
            r == allows(*self, dir),
    {
        match dir {
            SwipeDirection::Up => self.up,
            SwipeDirection::Down => self.down,
            SwipeDirection::Left => self.left,
            SwipeDirection::Right => self.right,
        }
    }

    /// Folds the page's internal paging position into the configuration.
    pub fn configure_paging(&mut self, current: u16, total: u16)
        ensures
            *final(self) == (SwipeConfig {
                current_page: current,
                total_pages: total,
                ..*old(self)
            }),
    {
        self.current_page = current;
        self.total_pages = total;
    }

    /// Sub-page step asked for by a completed swipe in `dir`.
    pub fn paging_event(&self, dir: SwipeDirection) -> (r: i16)
        ensures
            r == paging_delta(*self, dir),
            -1 <= r <= 1,
    {
        let forward = (self.current_page as u32) + 1 < self.total_pages as u32;
        let back = self.current_page > 0;
        match (self.page_axis, dir) {
            (Some(Axis::Vertical), SwipeDirection::Up) => if forward { 1 } else { 0 },
            (Some(Axis::Vertical), SwipeDirection::Down) => if back { -1 } else { 0 },
            (Some(Axis::Horizontal), SwipeDirection::Left) => if forward { 1 } else { 0 },
            (Some(Axis::Horizontal), SwipeDirection::Right) => if back { -1 } else { 0 },
            _ => 0,
        }
    }
}

/// What the gesture classifier made of one input event.
#[derive(Clone, Copy, Debug, PartialEq, Eq, Structural)]
pub enum SwipeDetectMsg {
    Start(SwipeDirection),
    Move(SwipeDirection, u16),
    Trigger(SwipeDirection),
}

/// Commands from the flow to the gesture classifier.
///
/// The classifier itself runs outside the library; the flow only resets it or
/// arms it to play a swipe on its own.
#[derive(Clone, Copy, Debug, PartialEq, Eq, Structural)]
pub struct SwipeDetect {
    /// A swipe that the classifier is to play out by itself.
    pub armed: Option<SwipeDirection>,
}

impl SwipeDetect {
    /// A classifier in its initial state.
    pub fn new() -> (r: SwipeDetect)
        ensures
            r.armed is None,
    {
        SwipeDetect { armed: None }
    }

    /// Drops any gesture in progress.
    pub fn reset(&mut self)
        ensures
            final(self).armed is None,
    {
        self.armed = None;
    }

    /// Arms the classifier to play a swipe in `dir`.
    pub fn trigger(&mut self, dir: SwipeDirection)
        ensures
            final(self).armed == Some(dir),
    {
        self.armed = Some(dir);
    }
}

} // verus!
