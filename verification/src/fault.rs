//! The single failure channel of the boundary.
//!
//! Every invariant violation a module can detect — a capability used before
//! bootstrap, an operation on an uninitialized class, a release through a
//! null slot — is surfaced as a [`Fault`] value. The host turns a fault into
//! a script-visible exception; there is no retry or partial-failure recovery
//! layer, so a fault always ends the current host-invoked call.

use vstd::prelude::*;

verus! {

/// The defined failure outcomes of boundary calls.
#[derive(Debug)]
pub enum Fault {
    /// A capability was invoked before the table was bound at bootstrap.
    /// This is the defined placeholder behaviour: the call fails safely
    /// instead of running through an unbound function pointer.
    Unbound,
    /// The bootstrap binding ran a second time; the table is write-once.
    AlreadyBound,
    /// A registration, creation or dispatch call reached a class whose
    /// vtable has not been set up yet.
    ClassUninit,
    /// A class vtable was set up a second time.
    ClassAlreadyInit,
    /// A class handle does not name a slot of the class registry.
    BadClass,
    /// A release ran through a null instance slot. The flag records whether
    /// the owning class still carries the default clone hook, the usual
    /// culprit: a bit-for-bit copy of an owning slot leads to a second
    /// release through a slot that was already cleared.
    NullRelease { onclone_default: bool },
    /// A read or release reached a resource cell that does not exist or was
    /// already released.
    BadResource,
    /// A scope handle does not name a live scope of the host.
    BadScope,
    /// A value reference does not name a live slot of the host.
    BadSlot,
    /// A write went through a reference to a binding that `const_var` locked.
    FrozenBinding,
    /// `const_var` found no binding of that name anywhere in the chain.
    UnresolvedName,
    /// An outlive counter would leave its range.
    OutliveOverflow,
    /// An outlive counter would drop below zero: a handle was destroyed
    /// that no copy or original still accounted for.
    OutliveUnderflow,
    /// A failure reported explicitly through the error capability.
    Reported(String),
}

} // verus!
