//! A cross-thread event bridge for asynchronously discovered native handles.
//!
//! Native-framework completion callbacks run on arbitrary threads; the UI
//! event loop is single-threaded and is the only context allowed to touch
//! window state. This crate models the channel that carries tagged results
//! from those callbacks into the loop, and the dispatch logic that acts on
//! each event: a successful unit instantiation triggers exactly one
//! view-controller request, and at most one view controller is ever attached
//! to the window.

pub mod bridge;
pub mod delegate;
pub mod dispatch;
pub mod event;
pub mod session;
