//! Boundary protocol for native extension modules of an embedded
//! dynamic-language interpreter.
//!
//! A loaded module and its host share a tagged value representation, a
//! capability table that is bound into module state exactly once at
//! bootstrap, a vtable registry that lets a module-defined type take part
//! in every host operator, and a reference-counted lifetime-extension
//! protocol for host closures captured by native code.
//!
//! The host's side of the boundary (its interning cache, its scope chain
//! and the outlive counters on scopes) is modelled by concrete state in
//! [`scope::Host`], so that the contracts of both sides can be stated and
//! checked against one reference model. Module hooks and host closures are
//! native code outside this crate; they appear here as opaque handles, and
//! every operation that would run one returns a directive naming the handle
//! instead of calling through a pointer.
//!
//! The pieces, leaves first: [`ident`] canonicalizes names into
//! identity-comparable tokens; [`value`] is the tagged union crossing the
//! boundary; [`scope`] models the host's scope chain; [`table`] holds the
//! one-time capability binding and the capabilities themselves; [`refs`]
//! is the borrowed-or-owned value reference with its single ownership
//! transfer; [`invoke`] decides calls and carries the closure outlive
//! protocol; [`class`] is the vtable registry and operator dispatch;
//! [`instance`] is the two-slot native instance with its owned-resource
//! arena; [`exports`] is the surface a module populates at bootstrap; and
//! every failure is a [`fault::Fault`].

pub mod fault;
pub mod ident;
pub mod scope;
pub mod funcs;
pub mod class;
pub mod instance;
pub mod value;
pub mod table;
pub mod refs;
pub mod invoke;
pub mod exports;
