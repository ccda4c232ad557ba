//! Borrowed-or-owned value references.
//!
//! Arguments reach a module as aliases of live host-owned slots, so the
//! common read-only call path copies nothing. A callee that must retain a
//! value past the call performs the one explicit ownership transfer,
//! [`LitrRef::own`]: clone-if-borrowed, move-if-owned. That conversion is
//! the only way to end the aliasing relationship.

use vstd::prelude::*;
use crate::fault::Fault;
use crate::scope::{
    eq_mod_outlive, lemma_slot_live_under_eq_mod_outlive, lemma_slot_roundtrip_eq_mod_outlive,
    lemma_wf_unchanged_but_slot, outlive_monotone, Host, SlotRef,
};
use crate::table::ModuleCtx;
use crate::value::{closure_free, litr_eq, Litr};

verus! {

/// A value that is either a borrowed alias of a live host-owned slot or an
/// owned value. Dereference is uniform; mutation through a borrowed
/// reference mutates the aliased slot.
#[derive(Debug)]
pub enum LitrRef {
    /// A borrowed alias of a host-owned slot.
    Ref(SlotRef),
    /// An owned value.
    Own(Litr),
}

impl LitrRef {
    /// True when the reference can be dereferenced against the given host
    /// state.
    pub open spec fn live_in(&self, h: Host) -> bool {
        match self {
            LitrRef::Ref(slot) => h.slot_live(*slot),
            LitrRef::Own(_) => true,
        }
    }

    /// The value the reference designates in the given host state.
    pub open spec fn value_in(&self, h: Host) -> Litr
        recommends
            self.live_in(h),
    {
        match self {
            LitrRef::Ref(slot) => h.slot_value(*slot),
            LitrRef::Own(v) => *v,
        }
    }

    /// Uniform dereference: the aliased slot's value for a borrowed
    /// reference, the held value for an owned one.
    pub fn read<'a>(&'a self, ctx: &'a ModuleCtx) -> (r: Result<&'a Litr, Fault>)
        ensures
            match r {
                Ok(v) => match self {
                    LitrRef::Ref(_) => {
                        &&& ctx.bound()
                        &&& self.live_in(ctx.host())
                        &&& *v == self.value_in(ctx.host())
                    },
                    LitrRef::Own(v0) => *v == v0,
                },
                Err(f) => {
                    &&& self is Ref
                    &&& (f is Unbound <==> !ctx.bound())
                    &&& (ctx.bound() ==> f is BadSlot && !self.live_in(ctx.host()))
                },
            },
    {
        match self {
            LitrRef::Own(v) => Ok(v),
            LitrRef::Ref(slot) => match &ctx.state {
                crate::table::Binding::Unbound => Err(Fault::Unbound),
                crate::table::Binding::Bound(h) => h.read_slot(slot),
            },
        }
    }

    /// Uniform mutation: writes the aliased slot for a borrowed reference
    /// (faulting on a binding locked by `const_var`), replaces the held
    /// value for an owned one.
    pub fn write(&mut self, ctx: &mut ModuleCtx, v: Litr) -> (r: Result<(), Fault>)
        ensures
            match r {
                Ok(()) => match *old(self) {
                    LitrRef::Ref(slot) => {
                        &&& old(ctx).bound()
                        &&& final(ctx).bound()
                        &&& old(ctx).host().slot_live(slot)
                        &&& !old(ctx).host().slot_frozen(slot)
                        &&& final(ctx).host().slot_value(slot) == v
                        &&& final(ctx).host().slot_live(slot)
                        &&& crate::scope::unchanged_but_slot(old(ctx).host(), final(ctx).host(), slot)
                        &&& *final(self) == *old(self)
                    },
                    LitrRef::Own(_) => {
                        &&& *final(self) == LitrRef::Own(v)
                        &&& *final(ctx) == *old(ctx)
                    },
                },
                Err(f) => {
                    &&& *final(self) == *old(self)
                    &&& *final(ctx) == *old(ctx)
                    &&& (f is Unbound || f is BadSlot || f is FrozenBinding)
                    &&& match *old(self) {
                        LitrRef::Ref(slot) => {
                            &&& (f is Unbound <==> !old(ctx).bound())
                            &&& (old(ctx).bound() ==> {
                                &&& (f is BadSlot <==> !old(ctx).host().slot_live(slot))
                                &&& (f is FrozenBinding <==> old(ctx).host().slot_live(slot)
                                    && old(ctx).host().slot_frozen(slot))
                            })
                        },
                        LitrRef::Own(_) => false,
                    }
                },
            },
    {
        match self {
            LitrRef::Own(_) => {
                *self = LitrRef::Own(v);
                Ok(())
            }
            LitrRef::Ref(slot) => {
                let slot = *slot;
                match &mut ctx.state {
                    crate::table::Binding::Unbound => Err(Fault::Unbound),
                    crate::table::Binding::Bound(h) => h.write_slot(&slot, v),
                }
            }
        }
    }

    /// The one ownership transfer: clone-if-borrowed, move-if-owned. After
    /// this call no aliasing relationship remains; the slot a borrowed
    /// reference aliased keeps its value. Copying a host closure held
    /// inside the value increments the outlive counter of its scope, so
    /// the copy's later destruction stays balanced.
    pub fn own(self, ctx: &mut ModuleCtx) -> (r: Result<Litr, Fault>)
        requires
            old(ctx).wf(),
        ensures
            final(ctx).wf(),
            match self {
                LitrRef::Own(_) => r is Ok,
                LitrRef::Ref(slot) => (old(ctx).bound() && old(ctx).host().slot_live(slot)
                    && closure_free(old(ctx).host().slot_value(slot))) ==> r is Ok,
            },
            match self {
                LitrRef::Own(_) => true,
                LitrRef::Ref(slot) => (old(ctx).bound() && old(ctx).host().slot_live(slot)
                    && crate::value::copy_ready(
                    old(ctx).host().slot_value(slot),
                    old(ctx).host(),
                )) ==> r is Ok,
            },
            match r {
                Ok(out) => match self {
                    LitrRef::Own(v0) => {
                        &&& out == v0
                        &&& *final(ctx) == *old(ctx)
                    },
                    LitrRef::Ref(slot) => {
                        &&& old(ctx).bound()
                        &&& final(ctx).bound()
                        &&& old(ctx).host().slot_live(slot)
                        &&& litr_eq(out, old(ctx).host().slot_value(slot))
                        &&& eq_mod_outlive(old(ctx).host(), final(ctx).host())
                        &&& outlive_monotone(old(ctx).host(), final(ctx).host())
                        &&& forall|i: int| 0 <= i < old(ctx).host().scopes@.len()
                            ==> (#[trigger] final(ctx).host().scopes@[i]).outlive
                                == old(ctx).host().scopes@[i].outlive
                                + crate::value::closure_units(
                            old(ctx).host().slot_value(slot),
                            i,
                        )
                    },
                },
                Err(f) => {
                    &&& self is Ref
                    &&& (f is Unbound <==> !old(ctx).bound())
                    &&& (old(ctx).bound() && final(ctx).bound() ==> {
                        &&& eq_mod_outlive(old(ctx).host(), final(ctx).host())
                        &&& outlive_monotone(old(ctx).host(), final(ctx).host())
                    })
                    &&& (old(ctx).bound() <==> final(ctx).bound())
                    &&& (f is Unbound || f is BadSlot || f is BadScope || f is OutliveOverflow)
                    &&& match self {
                        LitrRef::Ref(slot) => old(ctx).bound()
                            ==> (f is BadSlot <==> !old(ctx).host().slot_live(slot)),
                        LitrRef::Own(_) => false,
                    }
                },
            },
    {
        match self {
            LitrRef::Own(v) => Ok(v),
            LitrRef::Ref(slot) => {
                let ghost h0 = old(ctx).host();
                let taken = match &mut ctx.state {
                    crate::table::Binding::Unbound => {
                        return Err(Fault::Unbound);
                    }
                    crate::table::Binding::Bound(h) => h.replace_slot(&slot, Litr::Uninit)?,
                };
                proof {
                    lemma_wf_unchanged_but_slot(h0, ctx.host(), slot);
                    if old(ctx).bound() && h0.slot_live(slot) && crate::value::copy_ready(
                        h0.slot_value(slot),
                        h0,
                    ) {
                        crate::value::lemma_closures_live_same_len(taken, h0, ctx.host());
                        assert forall|sid: int| 0 <= sid < ctx.host().scopes@.len() implies (
                        #[trigger] ctx.host().scopes@[sid]).outlive + crate::value::closure_units(
                            taken,
                            sid,
                        ) <= u64::MAX by {
                            assert(ctx.host().scopes@[sid].outlive == h0.scopes@[sid].outlive);
                        }
                        assert(crate::value::copy_ready(taken, ctx.host()));
                    }
                }
                let ghost h1 = ctx.host();
                let copied = taken.deep_copy(ctx);
                let ghost h2 = ctx.host();
                proof {
                    assert(ctx.host().slot_live(slot)) by {
                        lemma_slot_live_under_eq_mod_outlive(h1, h2, slot);
                    }
                }
                let restored = match &mut ctx.state {
                    crate::table::Binding::Unbound => {
                        return vstd::pervasive::unreached();
                    }
                    crate::table::Binding::Bound(h) => h.replace_slot(&slot, taken),
                };
                proof {
                    lemma_wf_unchanged_but_slot(h2, ctx.host(), slot);
                    lemma_slot_roundtrip_eq_mod_outlive(h0, h1, h2, ctx.host(), slot);
                    if copied is Ok {
                        assert forall|i: int| 0 <= i < h0.scopes@.len() implies (
                        #[trigger] ctx.host().scopes@[i]).outlive == h0.scopes@[i].outlive
                            + crate::value::closure_units(h0.slot_value(slot), i) by {
                            assert(h1.scopes@[i].outlive == h0.scopes@[i].outlive);
                            assert(h2.scopes@[i].outlive == h1.scopes@[i].outlive
                                + crate::value::closure_units(taken, i));
                            assert(ctx.host().scopes@[i].outlive == h2.scopes@[i].outlive);
                        }
                    }
                }
                match restored {
                    Ok(_) => copied,
                    Err(_) => vstd::pervasive::unreached(),
                }
            }
        }
    }
}

} // verus!
