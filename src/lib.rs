//! Swipe-driven navigation for multi-screen touchscreen flows.
//!
//! A flow is a finite state machine whose states each show one page. The
//! controller in `swipe` feeds input to the current page, consults the flow's
//! policy tables when a swipe completes or a page emits a message, and plays
//! swipe transitions before applying them.

use vstd::prelude::*;

/// Input events, page messages, and the per-event context.
pub mod event;
/// Swipe configuration of a page and commands to the gesture classifier.
pub mod swipe_detect;
/// Policy decisions and the state-machine trait of a flow.
pub mod decision;
/// What a page of a flow must offer.
pub mod component;
/// The swipe-flow controller.
pub mod swipe;
/// The number-entry flow.
pub mod request_number;
/// The passphrase flow.
pub mod request_passphrase;
/// The high-priority warning flow.
pub mod warning_hi_prio;

verus! {

} // verus!
