//! The tagged events that cross the bridge, and the handles they carry.
//!
//! A unit handle and a view-controller handle are opaque references to
//! native-framework objects. The dispatch logic never looks inside one; it
//! only moves them, so each is modeled here as a plain identifier that the
//! embedding code maps to the real native object.

use vstd::prelude::*;

verus! {

/// Opaque reference to an instantiated native audio-plugin unit.
#[derive(Clone, Copy, Debug, PartialEq, Eq, Structural)]
pub struct UnitHandle {
    pub id: u64,
}

/// Opaque reference to a native UI controller bundled with a plugin,
/// meant to be embedded in a host window.
#[derive(Clone, Copy, Debug, PartialEq, Eq, Structural)]
pub struct ViewControllerHandle {
    pub id: u64,
}

/// Failure of the asynchronous native unit-instantiation step.
#[derive(Clone, Copy, Debug, PartialEq, Eq, Structural)]
pub enum UnitError {
    /// The native framework could not instantiate a unit for the chosen
    /// component descriptor.
    InstantiationFailed,
}

/// A tagged result produced by a native-framework completion callback and
/// delivered to the UI event loop through the bridge.
#[derive(Clone, Copy, Debug, PartialEq, Eq)]
pub enum Event {
    /// Outcome of asynchronously instantiating a native plugin unit.
    UnitReady(Result<UnitHandle, UnitError>),
    /// Outcome of asynchronously requesting a plugin's bundled UI
    /// controller; `None` means the plugin has no controller to embed.
    ViewControllerReady(Option<ViewControllerHandle>),
}

/// Sender-side failure: the consumer has been dropped, so nobody will ever
/// drain the event. Treated as a non-fatal, ignorable status.
#[derive(Clone, Copy, Debug, PartialEq, Eq, Structural)]
pub enum SendError {
    ChannelClosed,
}

} // verus!
