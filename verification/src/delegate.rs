//! Auxiliary state kept beside the OS application delegate.
//!
//! The delegate object itself belongs to the OS runtime; the toolkit stores
//! this plain value in it and reads it back from lifecycle callbacks.

use vstd::prelude::*;

verus! {

/// How the application presents itself to the OS once it is running.
#[derive(Clone, Copy, Debug, PartialEq, Eq, Structural)]
pub enum ActivationPolicy {
    /// An ordinary application: it appears in the dock and can own the
    /// menubar.
    Regular,
    /// An accessory: no dock presence, activated only programmatically.
    Accessory,
    /// A background-only application that is never activated.
    Prohibited,
}

/// State stored alongside the application delegate object.
pub struct AuxDelegateState {
    /// The policy is kept here so that applying it can be deferred until
    /// the application has finished launching; applied earlier, the
    /// menubar stays unresponsive.
    pub activation_policy: ActivationPolicy,
}

impl AuxDelegateState {
    /// The state installed when the delegate object is created: the policy
    /// starts out `Regular`.
    pub fn new() -> (s: Self)
        ensures
            s.activation_policy == ActivationPolicy::Regular,
    {
        AuxDelegateState { activation_policy: ActivationPolicy::Regular }
    }
}

} // verus!
