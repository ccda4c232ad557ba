//! Handles to the callable things that cross the boundary.
//!
//! The ABI stores a fixed menu of function shapes: module free functions,
//! methods, lifecycle hooks, host closures and unresolved external
//! references. Native function pointers cannot be reasoned about here, so
//! each one appears as an opaque handle; every operation that would call
//! through one instead returns a directive naming the handle, and the
//! unverified driver around the library performs the call.

use vstd::prelude::*;
use crate::scope::Scope;

verus! {

/// A handle to a module-side free function or static method, of shape
/// `(args, scope) -> value`.
#[derive(Debug, Clone, Copy, PartialEq, Eq, Structural)]
pub struct NativeFn {
    pub id: usize,
}

/// A handle to a module-side method, of shape
/// `(&mut instance, args, scope) -> value`.
#[derive(Debug, Clone, Copy, PartialEq, Eq, Structural)]
pub struct NativeMethod {
    pub id: usize,
}

/// A handle to a module-side lifecycle hook override. The shape of the
/// hook is fixed by the vtable slot it is installed in.
#[derive(Debug, Clone, Copy, PartialEq, Eq, Structural)]
pub struct HookFn {
    pub id: usize,
}

/// An external reference the host has not resolved; calling it yields
/// nothing.
#[derive(Debug, Clone, Copy, PartialEq, Eq)]
pub struct ExternFunc {
    /// The host's opaque description of the reference.
    pub raw: [usize; 4],
}

/// A reference to a host closure together with the lexical scope it closes
/// over.
///
/// A handle is deliberately neither `Copy` nor `Clone`: every copy must
/// increment the outlive counter of the scope, and every destruction must
/// decrement it, so copies are made only through `LocalFunc::duplicate`
/// and handles are retired only through `LocalFunc::dispose` (both in
/// [`crate::invoke`]).
#[derive(Debug, PartialEq, Eq)]
pub struct LocalFunc {
    /// The host's handle for the closure body.
    pub ptr: usize,
    /// The scope the closure closes over.
    pub scope: Scope,
}

/// A callable value: a module-native function, a host closure, or an
/// unresolved external reference.
#[derive(Debug, PartialEq, Eq)]
pub enum Function {
    /// A module-side native function.
    Native(NativeFn),
    /// A host closure with its captured scope.
    Local(LocalFunc),
    /// An unresolved external reference.
    Extern(ExternFunc),
}

} // verus!
