//! Calling across the boundary, and the lifetime-extension protocol for
//! host closures.
//!
//! Running native or script code is outside this library: every operation
//! that would call through a function pointer returns an [`Invocation`]
//! directive instead, and the surrounding driver performs it. What is
//! checked here is the decision logic: which callee runs, in which scope,
//! with which `self` location, and with arguments owned exactly as the
//! value-reference protocol demands.
//!
//! A [`LocalFunc`] handle participates in the manual outlive protocol:
//! every copy of a handle increments the counter of the scope it closes
//! over and every destruction decrements it, so over the whole lifetime of
//! a closure and its copies the increments and decrements balance, and a
//! scope is eligible for teardown exactly when its net count is zero.

use vstd::prelude::*;
use crate::fault::Fault;
use crate::funcs::{Function, LocalFunc, NativeFn};
use crate::refs::LitrRef;
use crate::scope::{eq_mod_outlive, outlive_adjusted, outlive_monotone, Host, Scope, SlotRef};
use crate::table::{Binding, ModuleCtx};
use crate::value::{
    closure_free, closure_units, closures_live, copy_ready, lemma_closures_live_same_len, litr_eq,
    Litr,
};

verus! {

/// What the host must do to complete a call the module decided on.
#[derive(Debug)]
#[allow(inconsistent_fields)]
pub enum Invocation {
    /// The call is already complete, with this result.
    Done(Litr),
    /// Run host closure `func` in its own captured scope.
    CallClosure { func: usize, scope: Scope, args: Vec<Litr> },
    /// Run host closure `func` at scope `at`, with `self` at the given
    /// location.
    CallClosureAt { func: usize, at: Scope, kself: Option<SlotRef>, args: Vec<Litr> },
    /// Invoke the module-native function `func` with aliased arguments.
    CallNative { func: NativeFn, args: Vec<LitrRef>, scope: Scope },
}

/// The outlive units that owning a call's arguments adds to scope `sid`,
/// counted from argument `k` on: owning a borrowed argument deep-copies
/// the aliased value, so every closure handle inside it costs one unit;
/// owning an owned argument moves it and costs nothing.
pub open spec fn args_units_from(args: Seq<LitrRef>, h: Host, sid: int, k: int) -> nat
    decreases args.len() - k,
{
    if k < 0 || k >= args.len() {
        0nat
    } else {
        (match args[k] {
            LitrRef::Ref(_) => closure_units(args[k].value_in(h), sid),
            LitrRef::Own(_) => 0nat,
        }) + args_units_from(args, h, sid, k + 1)
    }
}

/// The `self` location a call at scope `s` receives: the scope's `self`
/// slot when it has one.
pub open spec fn self_slot_model(h: Host, s: Scope) -> Option<SlotRef> {
    if s.id < h.scopes@.len() && h.scopes@[s.id as int].kself is Some {
        Some(SlotRef::SelfSlot { scope: s })
    } else {
        None
    }
}

impl LocalFunc {
    /// Copies the handle. The copy refers to the same closure; the outlive
    /// counter of the captured scope grows by one, so the scope stays
    /// alive until this copy too is destroyed.
    pub fn duplicate(&self, ctx: &mut ModuleCtx) -> (r: Result<LocalFunc, Fault>)
        requires
            old(ctx).wf(),
        ensures
            final(ctx).wf(),
            old(ctx).bound() <==> final(ctx).bound(),
            match r {
                Ok(g) => {
                    &&& g.ptr == self.ptr
                    &&& g.scope == self.scope
                    &&& old(ctx).bound()
                    &&& outlive_adjusted(old(ctx).host(), final(ctx).host(), self.scope.id as int, 1)
                },
                Err(f) => {
                    &&& *final(ctx) == *old(ctx)
                    &&& (f is Unbound || f is BadScope || f is OutliveOverflow)
                    &&& (f is Unbound <==> !old(ctx).bound())
                    &&& (old(ctx).bound() ==> {
                        &&& (f is BadScope <==> !old(ctx).host().live_scope(self.scope))
                        &&& (f is OutliveOverflow <==> old(ctx).host().live_scope(self.scope)
                            && old(ctx).host().scopes@[self.scope.id as int].outlive == u64::MAX)
                    })
                },
            },
    {
        match ctx.outlive_inc(self.scope) {
            Ok(()) => Ok(LocalFunc { ptr: self.ptr, scope: self.scope }),
            Err(f) => Err(f),
        }
    }

    /// Destroys the handle, releasing its unit of the outlive counter. A
    /// destruction that no creation or copy accounted for is refused.
    pub fn dispose(self, ctx: &mut ModuleCtx) -> (r: Result<(), Fault>)
        requires
            old(ctx).wf(),
        ensures
            final(ctx).wf(),
            old(ctx).bound() <==> final(ctx).bound(),
            match r {
                Ok(()) => {
                    &&& old(ctx).bound()
                    &&& outlive_adjusted(old(ctx).host(), final(ctx).host(), self.scope.id as int, -1)
                },
                Err(f) => {
                    &&& *final(ctx) == *old(ctx)
                    &&& (f is Unbound || f is BadScope || f is OutliveUnderflow)
                    &&& (f is Unbound <==> !old(ctx).bound())
                    &&& (old(ctx).bound() ==> {
                        &&& (f is BadScope <==> !old(ctx).host().live_scope(self.scope))
                        &&& (f is OutliveUnderflow <==> old(ctx).host().live_scope(self.scope)
                            && old(ctx).host().scopes@[self.scope.id as int].outlive == 0)
                    })
                },
            },
    {
        ctx.outlive_dec(self.scope)
    }

    /// The `call_closure` capability: have the host run the closure in its
    /// own captured scope. Synchronous and re-entrant: the closure may call
    /// back into the module before this directive completes.
    pub fn call(&self, ctx: &ModuleCtx, args: Vec<Litr>) -> (r: Result<Invocation, Fault>)
        ensures
            match r {
                Ok(inv) => {
                    &&& ctx.bound()
                    &&& inv == (Invocation::CallClosure {
                        func: self.ptr,
                        scope: self.scope,
                        args,
                    })
                },
                Err(f) => {
                    &&& f is Unbound
                    &&& !ctx.bound()
                },
            },
    {
        match &ctx.state {
            Binding::Unbound => Err(Fault::Unbound),
            Binding::Bound(_) => Ok(Invocation::CallClosure {
                func: self.ptr,
                scope: self.scope,
                args,
            }),
        }
    }

    /// The `call_at` capability: have the host run the closure at a chosen
    /// scope, with a chosen `self` location.
    pub fn call_at(&self, ctx: &ModuleCtx, at: Scope, kself: Option<SlotRef>, args: Vec<Litr>) -> (r:
        Result<Invocation, Fault>)
        ensures
            match r {
                Ok(inv) => {
                    &&& ctx.bound()
                    &&& inv == (Invocation::CallClosureAt { func: self.ptr, at, kself, args })
                },
                Err(f) => {
                    &&& f is Unbound
                    &&& !ctx.bound()
                },
            },
    {
        match &ctx.state {
            Binding::Unbound => Err(Fault::Unbound),
            Binding::Bound(_) => Ok(Invocation::CallClosureAt {
                func: self.ptr,
                at,
                kself,
                args,
            }),
        }
    }
}

impl Function {
    /// Routes a call on a callable value. A host closure runs through
    /// `call_at` in the caller's scope with the caller's `self`, and every
    /// aliased argument is owned first — the closure may outlive the
    /// aliases. A native function is invoked directly with the aliases. An
    /// unresolved external reference yields nothing.
    #[verifier::loop_isolation(false)]
    pub fn call(&self, ctx: &mut ModuleCtx, args: Vec<LitrRef>, cx: Scope) -> (r: Result<
        Invocation,
        Fault,
    >)
        requires
            old(ctx).wf(),
        ensures
            final(ctx).wf(),
            old(ctx).bound() <==> final(ctx).bound(),
            (self is Native || self is Extern) ==> r is Ok,
            (self is Local && old(ctx).bound() && old(ctx).host().live_scope(cx) && (forall|k: int|
                0 <= k < args@.len() ==> (#[trigger] args@[k]).live_in(old(ctx).host())
                    && closure_free(args@[k].value_in(old(ctx).host())))) ==> r is Ok,
            (self is Local && old(ctx).bound() && old(ctx).host().live_scope(cx) && (forall|k: int|
                0 <= k < args@.len() ==> (#[trigger] args@[k]).live_in(old(ctx).host()) && (
                args@[k] is Ref ==> closures_live(
                    args@[k].value_in(old(ctx).host()),
                    old(ctx).host(),
                ))) && (forall|sid: int|
                0 <= sid < old(ctx).host().scopes@.len()
                    ==> (#[trigger] old(ctx).host().scopes@[sid]).outlive + args_units_from(
                        args@,
                        old(ctx).host(),
                        sid,
                        0,
                    ) <= u64::MAX)) ==> r is Ok,
            match r {
                Ok(inv) => match self {
                    Function::Extern(_) => {
                        &&& inv == Invocation::Done(Litr::Uninit)
                        &&& *final(ctx) == *old(ctx)
                    },
                    Function::Native(f) => {
                        &&& inv == (Invocation::CallNative { func: *f, args, scope: cx })
                        &&& *final(ctx) == *old(ctx)
                    },
                    Function::Local(f) => {
                        &&& old(ctx).bound()
                        &&& old(ctx).host().live_scope(cx)
                        &&& eq_mod_outlive(old(ctx).host(), final(ctx).host())
                        &&& outlive_monotone(old(ctx).host(), final(ctx).host())
                        &&& (inv matches Invocation::CallClosureAt { func, at, kself, args: owned }
                            && {
                            &&& func == f.ptr
                            &&& at == cx
                            &&& kself == self_slot_model(old(ctx).host(), cx)
                            &&& owned@.len() == args@.len()
                            &&& forall|k: int| 0 <= k < args@.len() ==> {
                                &&& (#[trigger] args@[k]).live_in(old(ctx).host())
                                &&& litr_eq(owned@[k], args@[k].value_in(old(ctx).host()))
                            }
                        })
                    },
                },
                Err(f) => {
                    &&& self is Local
                    &&& (f is Unbound <==> !old(ctx).bound())
                    &&& (f is Unbound || f is BadSlot || f is BadScope || f is OutliveOverflow)
                    &&& (old(ctx).bound() ==> {
                        &&& eq_mod_outlive(old(ctx).host(), final(ctx).host())
                        &&& outlive_monotone(old(ctx).host(), final(ctx).host())
                    })
                },
            },
    {
        match self {
            Function::Extern(_) => Ok(Invocation::Done(Litr::Uninit)),
            Function::Native(f) => Ok(Invocation::CallNative { func: *f, args, scope: cx }),
            Function::Local(f) => {
                let ghost h0 = old(ctx).host();
                let ghost args0 = args;
                let mut rest = args;
                let mut owned: Vec<Litr> = Vec::new();
                let n = rest.len();
                let mut i: usize = 0;
                while i < n
                    invariant
                        old(ctx).wf(),
                        ctx.wf(),
                        n == args0@.len(),
                        0 <= i <= n,
                        rest@ == args0@.subrange(i as int, n as int),
                        owned@.len() == i,
                        old(ctx).bound() <==> ctx.bound(),
                        old(ctx).bound() ==> {
                            &&& eq_mod_outlive(h0, ctx.host())
                            &&& outlive_monotone(h0, ctx.host())
                        },
                        !old(ctx).bound() ==> *ctx == *old(ctx),
                        h0 == old(ctx).host(),
                        forall|k: int| 0 <= k < i ==> {
                            &&& (#[trigger] args0@[k]).live_in(h0)
                            &&& litr_eq(owned@[k], args0@[k].value_in(h0))
                        },
                        old(ctx).bound() ==> forall|sid: int|
                            0 <= sid < h0.scopes@.len()
                                ==> (#[trigger] ctx.host().scopes@[sid]).outlive
                                    + args_units_from(args0@, h0, sid, i as int)
                                    == h0.scopes@[sid].outlive
                                    + args_units_from(args0@, h0, sid, 0),
                    decreases n - i,
                {
                    let a = rest.remove(0);
                    proof {
                        assert(a == args0@[i as int]);
                    }
                    let ghost hpre = ctx.host();
                    match a.own(ctx) {
                        Ok(v) => {
                            proof {
                                match args0@[i as int] {
                                    LitrRef::Ref(sl) => {
                                        crate::scope::lemma_eq_mod_outlive_trans(
                                            h0,
                                            hpre,
                                            ctx.host(),
                                        );
                                        crate::scope::lemma_slot_live_under_eq_mod_outlive(
                                            h0,
                                            hpre,
                                            sl,
                                        );
                                    }
                                    LitrRef::Own(v0) => {
                                        crate::value::lemma_litr_eq_reflexive(v0);
                                    }
                                }
                                if old(ctx).bound() {
                                    assert forall|sid: int| 0 <= sid < h0.scopes@.len() implies (
                                    #[trigger] ctx.host().scopes@[sid]).outlive + args_units_from(
                                        args0@,
                                        h0,
                                        sid,
                                        i + 1,
                                    ) == h0.scopes@[sid].outlive + args_units_from(
                                        args0@,
                                        h0,
                                        sid,
                                        0,
                                    ) by {
                                        assert(args_units_from(args0@, h0, sid, i as int)
                                            == (match args0@[i as int] {
                                            LitrRef::Ref(_) => closure_units(
                                                args0@[i as int].value_in(h0),
                                                sid,
                                            ),
                                            LitrRef::Own(_) => 0nat,
                                        }) + args_units_from(args0@, h0, sid, i + 1));
                                        match args0@[i as int] {
                                            LitrRef::Ref(sl) => {
                                                assert(hpre.slot_value(sl) == h0.slot_value(sl));
                                            }
                                            LitrRef::Own(_) => {}
                                        }
                                    }
                                }
                            }
                            owned.push(v);
                        }
                        Err(f) => {
                            proof {
                                if old(ctx).bound() {
                                    crate::scope::lemma_eq_mod_outlive_trans(h0, hpre, ctx.host());
                                    if let LitrRef::Ref(sl) = args0@[i as int] {
                                        crate::scope::lemma_slot_live_under_eq_mod_outlive(
                                            h0,
                                            hpre,
                                            sl,
                                        );
                                    }
                                    if old(ctx).host().live_scope(cx) && (forall|k: int|
                                        0 <= k < args0@.len() ==> (#[trigger] args0@[k]).live_in(h0)
                                            && (args0@[k] is Ref ==> closures_live(
                                            args0@[k].value_in(h0),
                                            h0,
                                        ))) && (forall|sid: int|
                                        0 <= sid < h0.scopes@.len()
                                            ==> (#[trigger] h0.scopes@[sid]).outlive
                                                + args_units_from(args0@, h0, sid, 0)
                                                <= u64::MAX) {
                                        match args0@[i as int] {
                                            LitrRef::Ref(sl) => {
                                                lemma_closures_live_same_len(
                                                    args0@[i as int].value_in(h0),
                                                    h0,
                                                    hpre,
                                                );
                                                assert forall|sid: int|
                                                    0 <= sid < hpre.scopes@.len() implies (
                                                #[trigger] hpre.scopes@[sid]).outlive
                                                    + closure_units(
                                                    args0@[i as int].value_in(h0),
                                                    sid,
                                                ) <= u64::MAX by {
                                                    assert(args_units_from(args0@, h0, sid, i as int)
                                                        == closure_units(
                                                        args0@[i as int].value_in(h0),
                                                        sid,
                                                    ) + args_units_from(args0@, h0, sid, i + 1));
                                                }
                                                assert(hpre.slot_value(sl) == h0.slot_value(sl));
                                                assert(copy_ready(hpre.slot_value(sl), hpre));
                                                assert(false);
                                            }
                                            LitrRef::Own(_) => {
                                                assert(false);
                                            }
                                        }
                                    }
                                }
                            }
                            return Err(f);
                        }
                    }
                    i += 1;
                }
                let kself = match ctx.get_self(cx) {
                    Ok(Some(LitrRef::Ref(sl))) => Some(sl),
                    Ok(Some(LitrRef::Own(_))) => vstd::pervasive::unreached(),
                    Ok(None) => None,
                    Err(f) => {
                        return Err(f);
                    }
                };
                Ok(Invocation::CallClosureAt { func: f.ptr, at: cx, kself, args: owned })
            }
        }
    }
}

/// One lifetime event of a closure-handle family: a handle copied, or a
/// handle destroyed.
#[derive(Debug, Clone, Copy, PartialEq, Eq, Structural)]
pub enum HandleEvent {
    /// A handle was copied ([`LocalFunc::duplicate`]): one increment.
    Copy,
    /// A handle was destroyed ([`LocalFunc::dispose`]): one decrement.
    Destroy,
}

/// How many copies a sequence of handle events contains.
pub open spec fn copies(evs: Seq<HandleEvent>) -> int
    decreases evs.len(),
{
    if evs.len() == 0 {
        0
    } else {
        copies(evs.drop_last()) + if evs.last() is Copy {
            1int
        } else {
            0int
        }
    }
}

/// How many destructions a sequence of handle events contains.
pub open spec fn destroys(evs: Seq<HandleEvent>) -> int
    decreases evs.len(),
{
    if evs.len() == 0 {
        0
    } else {
        destroys(evs.drop_last()) + if evs.last() is Destroy {
            1int
        } else {
            0int
        }
    }
}

/// The outlive counter of the captured scope after a sequence of handle
/// events, starting from `start`: each copy adds one, each destruction
/// removes one, exactly as [`LocalFunc::duplicate`] and
/// [`LocalFunc::dispose`] promise.
pub open spec fn counter_after(evs: Seq<HandleEvent>, start: int) -> int
    decreases evs.len(),
{
    if evs.len() == 0 {
        start
    } else {
        counter_after(evs.drop_last(), start) + if evs.last() is Copy {
            1int
        } else {
            -1int
        }
    }
}

/// The outlive balance law. For any sequence of copy/destroy events
/// derived from one handle family, the counter moves by exactly the
/// copies minus the destructions: the total increments equal the total
/// decrements exactly when the sequence is balanced, and then the
/// captured scope's counter — and with it its teardown eligibility,
/// which holds exactly at net count zero — is what it was before the
/// family existed.
pub proof fn lemma_outlive_balance(evs: Seq<HandleEvent>, start: int)
    ensures
        counter_after(evs, start) == start + copies(evs) - destroys(evs),
        copies(evs) == destroys(evs) ==> counter_after(evs, start) == start,
        copies(evs) == destroys(evs) ==> ((counter_after(evs, start) == 0) <==> (start == 0)),
    decreases evs.len(),
{
    if evs.len() > 0 {
        lemma_outlive_balance(evs.drop_last(), start);
    }
}

} // verus!
