//! The capability table and its one-time binding.
//!
//! The host passes a module its capabilities exactly once, at bootstrap.
//! Before that transition every capability is a defined placeholder that
//! fails safely with [`Fault::Unbound`] — never a call through an unbound
//! function pointer. After it, the binding is read-only: no second
//! bootstrap is accepted.

use vstd::prelude::*;
use crate::fault::Fault;
use crate::ident::{ident_wf, intern_table, intern_tok, Ident};
use crate::refs::LitrRef;
use crate::scope::{
    outlive_adjusted, slot_locked, var_pushed, Host, Scope, SlotRef, VarSlot,
};
use crate::value::Litr;
use vstd::string::StringSliceAdditionalSpecFns;

verus! {

/// The capability bundle the host hands to the bootstrap entry point:
/// access to the host's state, given up to the module's binding exactly
/// once.
pub struct FuncTable {
    pub host: Host,
}

/// The one-time binding state of the module's capability access.
pub enum Binding {
    /// Before bootstrap: every capability is a defined placeholder that
    /// fails safely.
    Unbound,
    /// After bootstrap: capabilities reach the host.
    Bound(Host),
}

/// The module-global state: the capability binding. All module-side calls
/// into the host go through this value, so the bind/freeze transition is
/// enforced by construction rather than by convention.
pub struct ModuleCtx {
    pub state: Binding,
}

/// Where the name `tok` resolves from scope `s`, as a value reference:
/// a borrowed alias of the binding's slot, or nothing when the name is
/// unresolved anywhere in the chain.
pub open spec fn find_var_model(h: Host, s: Scope, tok: usize) -> Option<LitrRef> {
    match h.resolve(s.id as int, tok) {
        Some(sl) => Some(LitrRef::Ref(sl)),
        None => None,
    }
}

impl ModuleCtx {
    /// True once the capability table has been bound.
    pub open spec fn bound(&self) -> bool {
        self.state is Bound
    }

    /// The host state behind the binding.
    pub open spec fn host(&self) -> Host
        recommends
            self.bound(),
    {
        match self.state {
            Binding::Bound(h) => h,
            Binding::Unbound => vstd::pervasive::arbitrary(),
        }
    }

    /// Well-formedness: once bound, the host state behind the binding is
    /// well-formed.
    pub open spec fn wf(&self) -> bool {
        self.bound() ==> self.host().wf()
    }

    /// The module's state as a process starts: nothing bound yet.
    pub fn new() -> (r: ModuleCtx)
        ensures
            !r.bound(),
            r.wf(),
    {
        ModuleCtx { state: Binding::Unbound }
    }

    /// The `intern` capability: canonicalizes a byte-string name into a
    /// token (see [`crate::ident::Interner::intern`]).
    pub fn intern(&mut self, s: &[u8]) -> (r: Result<Ident, Fault>)
        requires
            old(self).wf(),
        ensures
            final(self).wf(),
            old(self).bound() <==> final(self).bound(),
            match r {
                Ok(id) => {
                    &&& old(self).bound()
                    &&& id.tok == intern_tok(old(self).host().interner@, s@)
                    &&& id.bytes@ == s@
                    &&& ident_wf(id, final(self).host().interner@)
                    &&& final(self).host().interner@ == intern_table(
                        old(self).host().interner@,
                        s@,
                    )
                    &&& final(self).host().scopes == old(self).host().scopes
                },
                Err(f) => {
                    &&& f is Unbound
                    &&& !old(self).bound()
                    &&& *final(self) == *old(self)
                },
            },
    {
        match &mut self.state {
            Binding::Unbound => Err(Fault::Unbound),
            Binding::Bound(h) => Ok(h.interner.intern(s)),
        }
    }

    /// The error-report capability: turns a native-side failure into the
    /// fault the host surfaces as a script exception. The report channel
    /// never returns control to the failing operation; here that is
    /// modelled by the returned fault ending the current call.
    pub fn report_error(&self, msg: &str) -> (r: Fault)
        ensures
            !self.bound() ==> r is Unbound,
            self.bound() ==> (r matches Fault::Reported(m) && m@ == msg@),
    {
        match &self.state {
            Binding::Unbound => Fault::Unbound,
            Binding::Bound(_) => Fault::Reported(msg.to_owned()),
        }
    }

    /// The `find_var` capability: where an already-interned name resolves
    /// from a scope. Absence is a normal outcome, not an error.
    pub fn find_var(&self, s: Scope, id: &Ident) -> (r: Result<Option<LitrRef>, Fault>)
        requires
            self.wf(),
        ensures
            match r {
                Ok(opt) => {
                    &&& self.bound()
                    &&& opt == find_var_model(self.host(), s, id.tok)
                    &&& (opt matches Some(LitrRef::Ref(sl)) ==> self.host().slot_live(sl))
                },
                Err(f) => {
                    &&& f is Unbound
                    &&& !self.bound()
                },
            },
    {
        match &self.state {
            Binding::Unbound => Err(Fault::Unbound),
            Binding::Bound(h) => {
                match h.lookup(s, id.tok) {
                    Some(sl) => {
                        proof {
                            crate::scope::lemma_resolve_live(*h, s.id as int, id.tok);
                        }
                        Ok(Some(LitrRef::Ref(sl)))
                    }
                    None => Ok(None),
                }
            }
        }
    }

    /// The `let_var` capability: introduces a binding of an
    /// already-interned name in a scope; shadowing an older binding is
    /// permitted.
    pub fn let_var(&mut self, s: Scope, id: &Ident, val: Litr) -> (r: Result<(), Fault>)
        requires
            old(self).wf(),
        ensures
            final(self).wf(),
            old(self).bound() <==> final(self).bound(),
            match r {
                Ok(()) => {
                    &&& old(self).bound()
                    &&& old(self).host().live_scope(s)
                    &&& var_pushed(old(self).host(), final(self).host(), s, id.tok, val)
                },
                Err(f) => {
                    &&& *final(self) == *old(self)
                    &&& (f is Unbound <==> !old(self).bound())
                    &&& (old(self).bound() ==> f is BadScope && !old(self).host().live_scope(s))
                },
            },
    {
        match &mut self.state {
            Binding::Unbound => Err(Fault::Unbound),
            Binding::Bound(h) => {
                if s.id < h.scopes.len() {
                    h.scopes[s.id].vars.push(VarSlot { name: id.tok, val, frozen: false });
                    Ok(())
                } else {
                    Err(Fault::BadScope)
                }
            }
        }
    }

    /// The `const_var` capability: locks the binding an already-interned
    /// name resolves to against further assignment. A name that resolves
    /// nowhere is reported, since there is nothing to lock.
    pub fn const_var(&mut self, s: Scope, id: &Ident) -> (r: Result<(), Fault>)
        requires
            old(self).wf(),
        ensures
            final(self).wf(),
            old(self).bound() <==> final(self).bound(),
            match r {
                Ok(()) => {
                    &&& old(self).bound()
                    &&& final(self).host().interner == old(self).host().interner
                    &&& match old(self).host().resolve(s.id as int, id.tok) {
                        Some(sl) => slot_locked(old(self).host(), final(self).host(), sl),
                        None => false,
                    }
                },
                Err(f) => {
                    &&& *final(self) == *old(self)
                    &&& (f is Unbound <==> !old(self).bound())
                    &&& (old(self).bound()
                        ==> f is UnresolvedName
                            && old(self).host().resolve(s.id as int, id.tok) is None)
                },
            },
    {
        match &mut self.state {
            Binding::Unbound => Err(Fault::Unbound),
            Binding::Bound(h) => {
                proof {
                    crate::scope::lemma_resolve_live(*h, s.id as int, id.tok);
                }
                match h.lookup(s, id.tok) {
                    Some(SlotRef::Var { scope, index }) => {
                        h.scopes[scope.id].vars[index].frozen = true;
                        Ok(())
                    }
                    Some(SlotRef::SelfSlot { .. }) => vstd::pervasive::unreached(),
                    None => Err(Fault::UnresolvedName),
                }
            }
        }
    }

    /// The `get_self` capability: the location of a scope's `self` value,
    /// when it has one.
    pub fn get_self(&self, s: Scope) -> (r: Result<Option<LitrRef>, Fault>)
        requires
            self.wf(),
        ensures
            match r {
                Ok(opt) => {
                    &&& self.bound()
                    &&& self.host().live_scope(s)
                    &&& (self.host().scopes@[s.id as int].kself is Some
                        ==> opt == Some(LitrRef::Ref(SlotRef::SelfSlot { scope: s })))
                    &&& (self.host().scopes@[s.id as int].kself is None ==> opt is None)
                    &&& (opt matches Some(LitrRef::Ref(sl)) ==> self.host().slot_live(sl))
                },
                Err(f) => {
                    &&& (f is Unbound <==> !self.bound())
                    &&& (self.bound() ==> f is BadScope && !self.host().live_scope(s))
                },
            },
    {
        match &self.state {
            Binding::Unbound => Err(Fault::Unbound),
            Binding::Bound(h) => {
                if s.id < h.scopes.len() {
                    match &h.scopes[s.id].kself {
                        Some(_) => Ok(Some(LitrRef::Ref(SlotRef::SelfSlot { scope: s }))),
                        None => Ok(None),
                    }
                } else {
                    Err(Fault::BadScope)
                }
            }
        }
    }

    /// The `get_parent` capability: the enclosing scope, absent for the
    /// root.
    pub fn get_parent(&self, s: Scope) -> (r: Result<Option<Scope>, Fault>)
        requires
            self.wf(),
        ensures
            match r {
                Ok(p) => {
                    &&& self.bound()
                    &&& self.host().live_scope(s)
                    &&& p == self.host().scopes@[s.id as int].parent
                },
                Err(f) => {
                    &&& (f is Unbound <==> !self.bound())
                    &&& (self.bound() ==> f is BadScope && !self.host().live_scope(s))
                },
            },
    {
        match &self.state {
            Binding::Unbound => Err(Fault::Unbound),
            Binding::Bound(h) => {
                if s.id < h.scopes.len() {
                    Ok(h.scopes[s.id].parent)
                } else {
                    Err(Fault::BadScope)
                }
            }
        }
    }

    /// The `outlive_inc` capability: one more escaped reference keeps the
    /// scope alive, deferring its teardown.
    pub fn outlive_inc(&mut self, s: Scope) -> (r: Result<(), Fault>)
        requires
            old(self).wf(),
        ensures
            final(self).wf(),
            old(self).bound() <==> final(self).bound(),
            match r {
                Ok(()) => {
                    &&& old(self).bound()
                    &&& old(self).host().live_scope(s)
                    &&& old(self).host().scopes@[s.id as int].outlive < u64::MAX
                    &&& outlive_adjusted(old(self).host(), final(self).host(), s.id as int, 1)
                },
                Err(f) => {
                    &&& *final(self) == *old(self)
                    &&& (f is Unbound || f is BadScope || f is OutliveOverflow)
                    &&& (f is Unbound <==> !old(self).bound())
                    &&& (old(self).bound() ==> {
                        &&& (f is BadScope <==> !old(self).host().live_scope(s))
                        &&& (f is OutliveOverflow <==> old(self).host().live_scope(s)
                            && old(self).host().scopes@[s.id as int].outlive == u64::MAX)
                    })
                },
            },
    {
        match &mut self.state {
            Binding::Unbound => Err(Fault::Unbound),
            Binding::Bound(h) => {
                if s.id < h.scopes.len() {
                    if h.scopes[s.id].outlive < u64::MAX {
                        h.scopes[s.id].outlive = h.scopes[s.id].outlive + 1;
                        Ok(())
                    } else {
                        Err(Fault::OutliveOverflow)
                    }
                } else {
                    Err(Fault::BadScope)
                }
            }
        }
    }

    /// The `outlive_dec` capability: one escaped reference fewer; a scope
    /// whose counter returns to zero becomes eligible for teardown. A
    /// decrement no increment accounted for is refused.
    pub fn outlive_dec(&mut self, s: Scope) -> (r: Result<(), Fault>)
        requires
            old(self).wf(),
        ensures
            final(self).wf(),
            old(self).bound() <==> final(self).bound(),
            match r {
                Ok(()) => {
                    &&& old(self).bound()
                    &&& old(self).host().live_scope(s)
                    &&& old(self).host().scopes@[s.id as int].outlive > 0
                    &&& outlive_adjusted(old(self).host(), final(self).host(), s.id as int, -1)
                },
                Err(f) => {
                    &&& *final(self) == *old(self)
                    &&& (f is Unbound || f is BadScope || f is OutliveUnderflow)
                    &&& (f is Unbound <==> !old(self).bound())
                    &&& (old(self).bound() ==> {
                        &&& (f is BadScope <==> !old(self).host().live_scope(s))
                        &&& (f is OutliveUnderflow <==> old(self).host().live_scope(s)
                            && old(self).host().scopes@[s.id as int].outlive == 0)
                    })
                },
            },
    {
        match &mut self.state {
            Binding::Unbound => Err(Fault::Unbound),
            Binding::Bound(h) => {
                if s.id < h.scopes.len() {
                    if h.scopes[s.id].outlive > 0 {
                        h.scopes[s.id].outlive = h.scopes[s.id].outlive - 1;
                        Ok(())
                    } else {
                        Err(Fault::OutliveUnderflow)
                    }
                } else {
                    Err(Fault::BadScope)
                }
            }
        }
    }
}

impl Scope {
    /// Finds a variable by name from this scope outward: interns the
    /// name, then resolves it along the chain. Absence is a normal
    /// outcome.
    pub fn find_var(self, ctx: &mut ModuleCtx, name: &str) -> (r: Result<Option<LitrRef>, Fault>)
        requires
            old(ctx).wf(),
        ensures
            final(ctx).wf(),
            old(ctx).bound() <==> final(ctx).bound(),
            match r {
                Ok(opt) => {
                    &&& old(ctx).bound()
                    &&& final(ctx).host().interner@ == intern_table(
                        old(ctx).host().interner@,
                        name.spec_bytes(),
                    )
                    &&& final(ctx).host().scopes == old(ctx).host().scopes
                    &&& opt == find_var_model(
                        final(ctx).host(),
                        self,
                        intern_tok(old(ctx).host().interner@, name.spec_bytes()) as usize,
                    )
                    &&& (opt matches Some(LitrRef::Ref(sl)) ==> final(ctx).host().slot_live(sl))
                },
                Err(f) => {
                    &&& f is Unbound
                    &&& !old(ctx).bound()
                    &&& *final(ctx) == *old(ctx)
                },
            },
    {
        let id = ctx.intern(name.as_bytes())?;
        ctx.find_var(self, &id)
    }

    /// Introduces a binding of `name` to `val` in this scope; a newer
    /// binding shadows an older one of the same name.
    pub fn let_var(self, ctx: &mut ModuleCtx, name: &str, val: Litr) -> (r: Result<(), Fault>)
        requires
            old(ctx).wf(),
        ensures
            final(ctx).wf(),
            old(ctx).bound() <==> final(ctx).bound(),
            match r {
                Ok(()) => {
                    &&& old(ctx).bound()
                    &&& old(ctx).host().live_scope(self)
                    &&& final(ctx).host().interner@ == intern_table(
                        old(ctx).host().interner@,
                        name.spec_bytes(),
                    )
                    &&& {
                        let mid = Host {
                            interner: final(ctx).host().interner,
                            scopes: old(ctx).host().scopes,
                        };
                        var_pushed(
                            mid,
                            final(ctx).host(),
                            self,
                            intern_tok(old(ctx).host().interner@, name.spec_bytes()) as usize,
                            val,
                        )
                    }
                },
                Err(f) => {
                    &&& (f is Unbound <==> !old(ctx).bound())
                    &&& (old(ctx).bound() ==> f is BadScope && !old(ctx).host().live_scope(self))
                    &&& (f is Unbound ==> *final(ctx) == *old(ctx))
                    &&& (f is BadScope ==> final(ctx).host().scopes == old(ctx).host().scopes
                        && final(ctx).host().interner@ == intern_table(
                            old(ctx).host().interner@,
                            name.spec_bytes(),
                        ))
                },
            },
    {
        let id = ctx.intern(name.as_bytes())?;
        ctx.let_var(self, &id, val)
    }

    /// Locks the binding `name` resolves to from this scope against
    /// further assignment.
    pub fn const_var(self, ctx: &mut ModuleCtx, name: &str) -> (r: Result<(), Fault>)
        requires
            old(ctx).wf(),
        ensures
            final(ctx).wf(),
            old(ctx).bound() <==> final(ctx).bound(),
            match r {
                Ok(()) => {
                    &&& old(ctx).bound()
                    &&& final(ctx).host().interner@ == intern_table(
                        old(ctx).host().interner@,
                        name.spec_bytes(),
                    )
                    &&& {
                        let mid = Host {
                            interner: final(ctx).host().interner,
                            scopes: old(ctx).host().scopes,
                        };
                        let tok = intern_tok(old(ctx).host().interner@, name.spec_bytes()) as usize;
                        match mid.resolve(self.id as int, tok) {
                            Some(sl) => slot_locked(mid, final(ctx).host(), sl),
                            None => false,
                        }
                    }
                },
                Err(f) => {
                    &&& (f is Unbound <==> !old(ctx).bound())
                    &&& (old(ctx).bound() ==> f is UnresolvedName)
                    &&& (f is Unbound ==> *final(ctx) == *old(ctx))
                    &&& (f is UnresolvedName ==> final(ctx).host().scopes == old(ctx).host().scopes
                        && final(ctx).host().interner@ == intern_table(
                            old(ctx).host().interner@,
                            name.spec_bytes(),
                        )
                        && final(ctx).host().resolve(
                            self.id as int,
                            intern_tok(old(ctx).host().interner@, name.spec_bytes()) as usize,
                        ) is None)
                },
            },
    {
        let id = ctx.intern(name.as_bytes())?;
        let ghost hmid = ctx.host();
        let r = ctx.const_var(self, &id);
        proof {
            if r is Ok {
                let mid = Host { interner: ctx.host().interner, scopes: old(ctx).host().scopes };
                assert(mid.interner == hmid.interner);
                assert(mid.scopes == hmid.scopes);
                assert(mid == hmid);
            }
        }
        r
    }

    /// The location of this scope's `self` value, when it has one.
    pub fn get_self(self, ctx: &ModuleCtx) -> (r: Result<Option<LitrRef>, Fault>)
        requires
            ctx.wf(),
        ensures
            match r {
                Ok(opt) => {
                    &&& ctx.bound()
                    &&& ctx.host().live_scope(self)
                    &&& (ctx.host().scopes@[self.id as int].kself is Some
                        ==> opt == Some(LitrRef::Ref(SlotRef::SelfSlot { scope: self })))
                    &&& (ctx.host().scopes@[self.id as int].kself is None ==> opt is None)
                },
                Err(f) => {
                    &&& (f is Unbound <==> !ctx.bound())
                    &&& (ctx.bound() ==> f is BadScope && !ctx.host().live_scope(self))
                },
            },
    {
        ctx.get_self(self)
    }

    /// This scope's enclosing scope, absent for the root.
    pub fn get_parent(self, ctx: &ModuleCtx) -> (r: Result<Option<Scope>, Fault>)
        requires
            ctx.wf(),
        ensures
            match r {
                Ok(p) => {
                    &&& ctx.bound()
                    &&& ctx.host().live_scope(self)
                    &&& p == ctx.host().scopes@[self.id as int].parent
                },
                Err(f) => {
                    &&& (f is Unbound <==> !ctx.bound())
                    &&& (ctx.bound() ==> f is BadScope && !ctx.host().live_scope(self))
                },
            },
    {
        ctx.get_parent(self)
    }
}

/// The bootstrap binding: moves the host's capability bundle into the
/// module-global state, exactly once. A second run is a programmer error
/// and fails fast. The error channel is installed by the same transition:
/// from here on every fault a module operation detects is surfaced as a
/// [`Fault`] value that the host turns into a script exception.
pub fn premain(ctx: &mut ModuleCtx, table: FuncTable) -> (r: Result<(), Fault>)
    requires
        old(ctx).wf(),
        table.host.wf(),
    ensures
        final(ctx).wf(),
        match r {
            Ok(()) => {
                &&& !old(ctx).bound()
                &&& final(ctx).bound()
                &&& final(ctx).host() == table.host
            },
            Err(f) => {
                &&& f is AlreadyBound
                &&& old(ctx).bound()
                &&& *final(ctx) == *old(ctx)
            },
        },
{
    let ghost incoming = table.host;
    match &ctx.state {
        Binding::Unbound => {
            ctx.state = Binding::Bound(table.host);
            proof {
                assert(ctx.host() == incoming);
            }
            Ok(())
        }
        Binding::Bound(_) => Err(Fault::AlreadyBound),
    }
}

/// Canonicalizes a byte-string name through the bound capability table.
pub fn intern(ctx: &mut ModuleCtx, s: &[u8]) -> (r: Result<Ident, Fault>)
    requires
        old(ctx).wf(),
    ensures
        final(ctx).wf(),
        old(ctx).bound() <==> final(ctx).bound(),
        match r {
            Ok(id) => {
                &&& old(ctx).bound()
                &&& id.tok == intern_tok(old(ctx).host().interner@, s@)
                &&& id.bytes@ == s@
                &&& ident_wf(id, final(ctx).host().interner@)
                &&& final(ctx).host().interner@ == intern_table(old(ctx).host().interner@, s@)
                &&& final(ctx).host().scopes == old(ctx).host().scopes
            },
            Err(f) => {
                &&& f is Unbound
                &&& !old(ctx).bound()
                &&& *final(ctx) == *old(ctx)
            },
        },
{
    ctx.intern(s)
}

/// Defers a scope's teardown for one more escaped reference. Every call
/// must later be balanced by [`outlive_dec`], or the scope and everything
/// above it can never be reclaimed.
pub fn outlive_inc(ctx: &mut ModuleCtx, s: Scope) -> (r: Result<(), Fault>)
    requires
        old(ctx).wf(),
    ensures
        final(ctx).wf(),
        old(ctx).bound() <==> final(ctx).bound(),
        match r {
            Ok(()) => {
                &&& old(ctx).bound()
                &&& old(ctx).host().live_scope(s)
                &&& outlive_adjusted(old(ctx).host(), final(ctx).host(), s.id as int, 1)
            },
            Err(f) => {
                &&& *final(ctx) == *old(ctx)
                &&& (f is Unbound || f is BadScope || f is OutliveOverflow)
                &&& (f is Unbound <==> !old(ctx).bound())
                &&& (old(ctx).bound() ==> {
                    &&& (f is BadScope <==> !old(ctx).host().live_scope(s))
                    &&& (f is OutliveOverflow <==> old(ctx).host().live_scope(s)
                        && old(ctx).host().scopes@[s.id as int].outlive == u64::MAX)
                })
            },
        },
{
    ctx.outlive_inc(s)
}

/// Releases one deferral of a scope's teardown.
pub fn outlive_dec(ctx: &mut ModuleCtx, s: Scope) -> (r: Result<(), Fault>)
    requires
        old(ctx).wf(),
    ensures
        final(ctx).wf(),
        old(ctx).bound() <==> final(ctx).bound(),
        match r {
            Ok(()) => {
                &&& old(ctx).bound()
                &&& old(ctx).host().live_scope(s)
                &&& outlive_adjusted(old(ctx).host(), final(ctx).host(), s.id as int, -1)
            },
            Err(f) => {
                &&& *final(ctx) == *old(ctx)
                &&& (f is Unbound || f is BadScope || f is OutliveUnderflow)
                &&& (f is Unbound <==> !old(ctx).bound())
                &&& (old(ctx).bound() ==> {
                    &&& (f is BadScope <==> !old(ctx).host().live_scope(s))
                    &&& (f is OutliveUnderflow <==> old(ctx).host().live_scope(s)
                        && old(ctx).host().scopes@[s.id as int].outlive == 0)
                })
            },
        },
{
    ctx.outlive_dec(s)
}

} // verus!
