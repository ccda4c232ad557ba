//! Scopes of the host's lexical environment, and the host-side state they
//! live in.
//!
//! A [`Scope`] is an opaque handle into the scope chain that the host owns;
//! a module navigates and mutates it only through the bound capabilities.
//! The chain itself, with its variable bindings and the outlive counters
//! that keep escaped scopes alive, is modelled by [`Host`].

use vstd::prelude::*;
use crate::value::Litr;
use crate::fault::Fault;
use crate::ident::Interner;

verus! {

/// An opaque reference to one scope of the host's lexical environment.
#[derive(Debug, Clone, Copy, PartialEq, Eq, Structural)]
pub struct Scope {
    /// The host's index for the scope.
    pub id: usize,
}

/// The location of one live, host-owned value slot: either a variable
/// binding of a scope, or the `self` slot of a scope. A borrowed value
/// reference aliases such a slot.
#[derive(Debug, Clone, Copy, PartialEq, Eq, Structural)]
pub enum SlotRef {
    /// The binding at `index` of the variable list of `scope`.
    Var { scope: Scope, index: usize },
    /// The `self` value of `scope`.
    SelfSlot { scope: Scope },
}

/// One variable binding of a scope.
#[derive(Debug)]
pub struct VarSlot {
    /// The token of the binding's name.
    pub name: usize,
    /// The bound value.
    pub val: Litr,
    /// Whether `const_var` locked the binding against further assignment.
    pub frozen: bool,
}

/// One scope of the host's chain.
#[derive(Debug)]
pub struct ScopeData {
    /// The enclosing scope, absent for the root.
    pub parent: Option<Scope>,
    /// The bindings introduced in this scope, oldest first. A name may
    /// occur more than once; the newest occurrence shadows the others.
    pub vars: Vec<VarSlot>,
    /// The `self` value of the scope, when it has one.
    pub kself: Option<Litr>,
    /// How many escaped references (closure handles held by native code)
    /// keep this scope alive. Teardown is deferred while nonzero.
    pub outlive: u64,
}

/// The host side of the boundary: the interning cache and the scope chain.
/// The host owns this state; the module reaches it only through the bound
/// capability table.
#[derive(Debug)]
pub struct Host {
    /// The process-wide interning cache.
    pub interner: Interner,
    /// The scope chain storage. A scope's parent always has a smaller
    /// index, so chains are finite.
    pub scopes: Vec<ScopeData>,
}

/// The newest binding of `tok` in one scope's variable list, if any: the
/// largest index whose slot carries that name token.
pub open spec fn last_match(vars: Seq<VarSlot>, tok: usize) -> Option<int>
    decreases vars.len(),
{
    if vars.len() == 0 {
        None
    } else if vars[vars.len() - 1].name == tok {
        Some(vars.len() - 1)
    } else {
        last_match(vars.drop_last(), tok)
    }
}

impl Host {
    /// Well-formedness of the host state: the interning cache is
    /// canonical, and every scope's parent has a smaller index, so walking
    /// a chain terminates.
    pub open spec fn wf(&self) -> bool {
        &&& self.interner.wf()
        &&& forall|i: int| 0 <= i < self.scopes@.len()
            ==> ((#[trigger] self.scopes@[i]).parent matches Some(p) ==> p.id < i)
    }

    /// True when the handle names a scope of this host.
    pub open spec fn live_scope(&self, s: Scope) -> bool {
        s.id < self.scopes@.len()
    }

    /// True when the reference names a live value slot of this host.
    pub open spec fn slot_live(&self, r: SlotRef) -> bool {
        match r {
            SlotRef::Var { scope, index } => {
                &&& scope.id < self.scopes@.len()
                &&& index < self.scopes@[scope.id as int].vars@.len()
            },
            SlotRef::SelfSlot { scope } => {
                &&& scope.id < self.scopes@.len()
                &&& self.scopes@[scope.id as int].kself is Some
            },
        }
    }

    /// The value held by a live slot.
    pub open spec fn slot_value(&self, r: SlotRef) -> Litr
        recommends
            self.slot_live(r),
    {
        match r {
            SlotRef::Var { scope, index } => self.scopes@[scope.id as int].vars@[index as int].val,
            SlotRef::SelfSlot { scope } => self.scopes@[scope.id as int].kself->0,
        }
    }

    /// True when assignment through the slot is locked (`const_var`). The
    /// `self` slot of a scope is never locked.
    pub open spec fn slot_frozen(&self, r: SlotRef) -> bool
        recommends
            self.slot_live(r),
    {
        match r {
            SlotRef::Var { scope, index } => self.scopes@[scope.id as int].vars@[index as int].frozen,
            SlotRef::SelfSlot { .. } => false,
        }
    }

    /// Where the name `tok` resolves from scope `sid` outward: the newest
    /// binding of the innermost scope that binds it, or nothing when it is
    /// unresolved anywhere in the chain.
    pub open spec fn resolve(&self, sid: int, tok: usize) -> Option<SlotRef>
        decreases sid,
    {
        if 0 <= sid < self.scopes@.len() {
            let sd = self.scopes@[sid];
            match last_match(sd.vars@, tok) {
                Some(j) => Some(
                    SlotRef::Var { scope: Scope { id: sid as usize }, index: j as usize },
                ),
                None => match sd.parent {
                    Some(p) => if p.id < sid {
                        self.resolve(p.id as int, tok)
                    } else {
                        None
                    },
                    None => None,
                },
            }
        } else {
            None
        }
    }

    /// A host with no scopes and an empty interning cache.
    pub fn new() -> (r: Host)
        ensures
            r.wf(),
            r.scopes@.len() == 0,
            r.interner@.len() == 0,
    {
        Host { interner: Interner::new(), scopes: Vec::new() }
    }

    /// Host-side scope creation: a fresh scope under `parent`, with the
    /// given `self` value, no bindings, and a zero outlive count.
    pub fn alloc_scope(&mut self, parent: Option<Scope>, kself: Option<Litr>) -> (s: Scope)
        requires
            old(self).wf(),
            parent matches Some(p) ==> old(self).live_scope(p),
        ensures
            final(self).wf(),
            final(self).interner == old(self).interner,
            s.id == old(self).scopes@.len(),
            final(self).scopes@.len() == old(self).scopes@.len() + 1,
            forall|i: int| 0 <= i < old(self).scopes@.len()
                ==> final(self).scopes@[i] == old(self).scopes@[i],
            final(self).scopes@[s.id as int].parent == parent,
            final(self).scopes@[s.id as int].vars@.len() == 0,
            final(self).scopes@[s.id as int].kself == kself,
            final(self).scopes@[s.id as int].outlive == 0,
    {
        let s = Scope { id: self.scopes.len() };
        self.scopes.push(ScopeData { parent, vars: Vec::new(), kself, outlive: 0 });
        s
    }

    /// Host-side name resolution along the scope chain, matching
    /// [`Host::resolve`].
    pub fn lookup(&self, s: Scope, tok: usize) -> (r: Option<SlotRef>)
        requires
            self.wf(),
        ensures
            r == self.resolve(s.id as int, tok),
    {
        if s.id >= self.scopes.len() {
            return None;
        }
        let mut cur: usize = s.id;
        loop
            invariant
                self.wf(),
                cur < self.scopes@.len(),
                self.resolve(s.id as int, tok) == self.resolve(cur as int, tok),
            decreases cur,
        {
            let sd = &self.scopes[cur];
            let mut j: usize = sd.vars.len();
            proof {
                assert(sd.vars@.subrange(0, j as int) =~= sd.vars@);
            }
            while j > 0
                invariant
                    self.wf(),
                    cur < self.scopes@.len(),
                    *sd == self.scopes@[cur as int],
                    self.resolve(s.id as int, tok) == self.resolve(cur as int, tok),
                    j <= sd.vars@.len(),
                    last_match(sd.vars@, tok) == last_match(sd.vars@.subrange(0, j as int), tok),
                decreases j,
            {
                proof {
                    assert(sd.vars@.subrange(0, j as int).drop_last()
                        =~= sd.vars@.subrange(0, j - 1));
                }
                if sd.vars[j - 1].name == tok {
                    proof {
                        let pre = sd.vars@.subrange(0, j as int);
                        assert(pre[pre.len() - 1] == sd.vars@[j - 1]);
                        assert(last_match(sd.vars@, tok) == Some(j - 1));
                        assert(self.resolve(cur as int, tok) == Some(
                            SlotRef::Var { scope: Scope { id: cur }, index: (j - 1) as usize },
                        ));
                    }
                    return Some(SlotRef::Var { scope: Scope { id: cur }, index: j - 1 });
                }
                j = j - 1;
            }
            proof {
                assert(sd.vars@.subrange(0, 0) =~= Seq::<VarSlot>::empty());
                assert(last_match(sd.vars@, tok) is None);
            }
            match &sd.parent {
                Some(p) => {
                    proof {
                        assert(self.resolve(cur as int, tok) == self.resolve(p.id as int, tok));
                    }
                    cur = p.id;
                }
                None => {
                    return None;
                }
            }
        }
    }

    /// Host-side slot read.
    pub fn read_slot<'a>(&'a self, r: &SlotRef) -> (res: Result<&'a Litr, Fault>)
        ensures
            self.slot_live(*r) ==> (res matches Ok(v) && *v == self.slot_value(*r)),
            !self.slot_live(*r) ==> (res matches Err(f) && f is BadSlot),
    {
        match r {
            SlotRef::Var { scope, index } => {
                if scope.id < self.scopes.len() {
                    let sd = &self.scopes[scope.id];
                    if *index < sd.vars.len() {
                        return Ok(&sd.vars[*index].val);
                    }
                }
                Err(Fault::BadSlot)
            }
            SlotRef::SelfSlot { scope } => {
                if scope.id < self.scopes.len() {
                    match &self.scopes[scope.id].kself {
                        Some(v) => Ok(v),
                        None => Err(Fault::BadSlot),
                    }
                } else {
                    Err(Fault::BadSlot)
                }
            }
        }
    }

    /// Host-side slot write: mutates the aliased slot in place. A write
    /// through a locked binding faults; nothing else of the host changes.
    pub fn write_slot(&mut self, r: &SlotRef, v: Litr) -> (res: Result<(), Fault>)
        ensures
            match res {
                Ok(()) => {
                    &&& old(self).slot_live(*r)
                    &&& !old(self).slot_frozen(*r)
                    &&& final(self).slot_live(*r)
                    &&& final(self).slot_value(*r) == v
                    &&& final(self).slot_frozen(*r) == old(self).slot_frozen(*r)
                    &&& unchanged_but_slot(*old(self), *final(self), *r)
                },
                Err(f) => {
                    &&& *final(self) == *old(self)
                    &&& (f is BadSlot <==> !old(self).slot_live(*r))
                    &&& (f is FrozenBinding <==> old(self).slot_live(*r) && old(self).slot_frozen(*r))
                    &&& (f is BadSlot || f is FrozenBinding)
                },
            },
    {
        match r {
            SlotRef::Var { scope, index } => {
                if scope.id < self.scopes.len() && *index < self.scopes[scope.id].vars.len() {
                    if self.scopes[scope.id].vars[*index].frozen {
                        return Err(Fault::FrozenBinding);
                    }
                    self.scopes[scope.id].vars[*index].val = v;
                    return Ok(());
                }
                Err(Fault::BadSlot)
            }
            SlotRef::SelfSlot { scope } => {
                if scope.id < self.scopes.len() {
                    match &self.scopes[scope.id].kself {
                        Some(_) => {
                            self.scopes[scope.id].kself = Some(v);
                            Ok(())
                        }
                        None => Err(Fault::BadSlot),
                    }
                } else {
                    Err(Fault::BadSlot)
                }
            }
        }
    }

    /// Host-side slot exchange: moves the held value out and the given one
    /// in. This is the host's own right to move values; it ignores
    /// `const_var` locks and is used to copy a value out of a slot without
    /// holding a borrow of the host.
    pub fn replace_slot(&mut self, r: &SlotRef, v: Litr) -> (res: Result<Litr, Fault>)
        ensures
            match res {
                Ok(prev) => {
                    &&& old(self).slot_live(*r)
                    &&& prev == old(self).slot_value(*r)
                    &&& final(self).slot_live(*r)
                    &&& final(self).slot_value(*r) == v
                    &&& final(self).slot_frozen(*r) == old(self).slot_frozen(*r)
                    &&& unchanged_but_slot(*old(self), *final(self), *r)
                },
                Err(f) => {
                    &&& *final(self) == *old(self)
                    &&& f is BadSlot
                    &&& !old(self).slot_live(*r)
                },
            },
    {
        match r {
            SlotRef::Var { scope, index } => {
                if scope.id < self.scopes.len() && *index < self.scopes[scope.id].vars.len() {
                    let mut v = v;
                    core::mem::swap(&mut self.scopes[scope.id].vars[*index].val, &mut v);
                    return Ok(v);
                }
                Err(Fault::BadSlot)
            }
            SlotRef::SelfSlot { scope } => {
                if scope.id < self.scopes.len() {
                    match &self.scopes[scope.id].kself {
                        Some(_) => {
                            let prev = self.scopes[scope.id].kself.take();
                            self.scopes[scope.id].kself = Some(v);
                            match prev {
                                Some(p) => Ok(p),
                                None => vstd::pervasive::unreached(),
                            }
                        }
                        None => Err(Fault::BadSlot),
                    }
                } else {
                    Err(Fault::BadSlot)
                }
            }
        }
    }

    /// True when the scope's teardown may proceed: no escaped reference
    /// keeps it alive.
    pub fn teardown_eligible(&self, s: Scope) -> (r: Result<bool, Fault>)
        ensures
            self.live_scope(s) ==> r == Ok::<bool, Fault>(self.scopes@[s.id as int].outlive == 0),
            !self.live_scope(s) ==> (r matches Err(f) && f is BadScope),
    {
        if s.id < self.scopes.len() {
            Ok(self.scopes[s.id].outlive == 0)
        } else {
            Err(Fault::BadScope)
        }
    }
}

/// True when the two host states agree everywhere except, possibly, the
/// value of the one slot `r`: same interner, same scope layout, same
/// bindings (names, lock marks, and the values of all other slots), same
/// outlive counters.
pub open spec fn unchanged_but_slot(h1: Host, h2: Host, r: SlotRef) -> bool {
    &&& h2.interner == h1.interner
    &&& h2.scopes@.len() == h1.scopes@.len()
    &&& forall|i: int| 0 <= i < h1.scopes@.len() ==> {
        let s1 = #[trigger] h1.scopes@[i];
        let s2 = h2.scopes@[i];
        &&& s2.parent == s1.parent
        &&& s2.outlive == s1.outlive
        &&& s2.vars@.len() == s1.vars@.len()
        &&& (s2.kself is Some <==> s1.kself is Some)
        &&& forall|j: int| 0 <= j < s1.vars@.len() ==> {
            let v1 = #[trigger] s1.vars@[j];
            let v2 = s2.vars@[j];
            &&& v2.name == v1.name
            &&& v2.frozen == v1.frozen
            &&& (r != (SlotRef::Var { scope: Scope { id: i as usize }, index: j as usize })
                ==> v2.val == v1.val)
        }
        &&& (r != (SlotRef::SelfSlot { scope: Scope { id: i as usize } })
            ==> s2.kself == s1.kself)
    }
}

/// True when the two host states agree on everything observable except,
/// possibly, the outlive counters: same interning cache, same scope
/// layout, same bindings and `self` values.
pub open spec fn eq_mod_outlive(h1: Host, h2: Host) -> bool {
    &&& h2.interner@ == h1.interner@
    &&& h2.scopes@.len() == h1.scopes@.len()
    &&& forall|i: int| 0 <= i < h1.scopes@.len() ==> {
        let s1 = #[trigger] h1.scopes@[i];
        let s2 = h2.scopes@[i];
        &&& s2.parent == s1.parent
        &&& s2.kself == s1.kself
        &&& s2.vars@ == s1.vars@
    }
}

/// True when no outlive counter decreased between the two host states.
pub open spec fn outlive_monotone(h1: Host, h2: Host) -> bool {
    &&& h2.scopes@.len() == h1.scopes@.len()
    &&& forall|i: int| 0 <= i < h1.scopes@.len()
        ==> (#[trigger] h2.scopes@[i]).outlive >= h1.scopes@[i].outlive
}

/// True when the second host state is the first with the outlive counter
/// of scope `sid` moved by `delta` and nothing else changed.
pub open spec fn outlive_adjusted(h1: Host, h2: Host, sid: int, delta: int) -> bool {
    &&& 0 <= sid < h1.scopes@.len()
    &&& h2.interner@ == h1.interner@
    &&& h2.scopes@.len() == h1.scopes@.len()
    &&& forall|i: int| 0 <= i < h1.scopes@.len() && i != sid
        ==> #[trigger] h2.scopes@[i] == h1.scopes@[i]
    &&& h2.scopes@[sid].parent == h1.scopes@[sid].parent
    &&& h2.scopes@[sid].vars@ == h1.scopes@[sid].vars@
    &&& h2.scopes@[sid].kself == h1.scopes@[sid].kself
    &&& h2.scopes@[sid].outlive == h1.scopes@[sid].outlive + delta
}

/// An adjustment of one outlive counter leaves everything else alone.
pub proof fn lemma_outlive_adjusted_is_eq_mod_outlive(h1: Host, h2: Host, sid: int, delta: int)
    requires
        outlive_adjusted(h1, h2, sid, delta),
    ensures
        eq_mod_outlive(h1, h2),
{
}

/// `eq_mod_outlive` composes along a chain of host states.
pub proof fn lemma_eq_mod_outlive_trans(h1: Host, h2: Host, h3: Host)
    requires
        eq_mod_outlive(h1, h2),
        eq_mod_outlive(h2, h3),
    ensures
        eq_mod_outlive(h1, h3),
{
}

/// True when the second host state is the first with one fresh unlocked
/// binding of token `tok` to `val` appended to scope `s`, and nothing else
/// changed. This is the shape `let_var` leaves behind: the newest binding
/// shadows any older one of the same name.
pub open spec fn var_pushed(h1: Host, h2: Host, s: Scope, tok: usize, val: Litr) -> bool {
    &&& s.id < h1.scopes@.len()
    &&& h2.interner@ == h1.interner@
    &&& h2.scopes@.len() == h1.scopes@.len()
    &&& forall|i: int| 0 <= i < h1.scopes@.len() && i != s.id
        ==> #[trigger] h2.scopes@[i] == h1.scopes@[i]
    &&& h2.scopes@[s.id as int].parent == h1.scopes@[s.id as int].parent
    &&& h2.scopes@[s.id as int].kself == h1.scopes@[s.id as int].kself
    &&& h2.scopes@[s.id as int].outlive == h1.scopes@[s.id as int].outlive
    &&& h2.scopes@[s.id as int].vars@ == h1.scopes@[s.id as int].vars@.push(
        VarSlot { name: tok, val, frozen: false },
    )
}

/// True when the second host state is the first with the binding at `r`
/// locked against assignment, and nothing else changed. This is the shape
/// `const_var` leaves behind; only variable bindings can be locked.
pub open spec fn slot_locked(h1: Host, h2: Host, r: SlotRef) -> bool {
    match r {
        SlotRef::Var { scope, index } => {
            let old_slot = h1.scopes@[scope.id as int].vars@[index as int];
            &&& scope.id < h1.scopes@.len()
            &&& index < h1.scopes@[scope.id as int].vars@.len()
            &&& h2.interner@ == h1.interner@
            &&& h2.scopes@.len() == h1.scopes@.len()
            &&& forall|i: int| 0 <= i < h1.scopes@.len() && i != scope.id
                ==> #[trigger] h2.scopes@[i] == h1.scopes@[i]
            &&& h2.scopes@[scope.id as int].parent == h1.scopes@[scope.id as int].parent
            &&& h2.scopes@[scope.id as int].kself == h1.scopes@[scope.id as int].kself
            &&& h2.scopes@[scope.id as int].outlive == h1.scopes@[scope.id as int].outlive
            &&& h2.scopes@[scope.id as int].vars@ == h1.scopes@[scope.id as int].vars@.update(
                index as int,
                VarSlot { name: old_slot.name, val: old_slot.val, frozen: true },
            )
        },
        SlotRef::SelfSlot { .. } => false,
    }
}

/// A binding found by resolution is a live, name-matching variable slot:
/// resolution never returns a `self` slot, never an out-of-range index,
/// and always a slot whose name is the token sought.
pub proof fn lemma_resolve_live(h: Host, sid: int, tok: usize)
    ensures
        h.resolve(sid, tok) matches Some(sl) ==> {
            &&& sl matches SlotRef::Var { scope, index } && {
                &&& scope.id < h.scopes@.len()
                &&& index < h.scopes@[scope.id as int].vars@.len()
                &&& h.scopes@[scope.id as int].vars@[index as int].name == tok
            }
            &&& h.slot_live(sl)
        },
    decreases sid,
{
    if 0 <= sid < h.scopes@.len() {
        let sd = h.scopes@[sid];
        lemma_last_match_in_range(sd.vars@, tok);
        match last_match(sd.vars@, tok) {
            Some(j) => {
                assert(h.scopes.len() == h.scopes@.len());
                assert(sd.vars.len() == sd.vars@.len());
                assert(0 <= j < sd.vars@.len() && sd.vars@[j].name == tok);
                assert(h.resolve(sid, tok) == Some(
                    SlotRef::Var { scope: Scope { id: sid as usize }, index: j as usize },
                ));
            }
            None => {}
        }
        if last_match(sd.vars@, tok) is None {
            match sd.parent {
                Some(p) => {
                    if p.id < sid {
                        lemma_resolve_live(h, p.id as int, tok);
                    }
                }
                None => {}
            }
        }
    }
}

/// Changing the value behind one slot leaves the host well-formed: the
/// interning cache and the parent structure are untouched.
pub proof fn lemma_wf_unchanged_but_slot(h0: Host, h1: Host, r: SlotRef)
    requires
        h0.wf(),
        unchanged_but_slot(h0, h1, r),
    ensures
        h1.wf(),
{
    assert forall|i: int| 0 <= i < h1.scopes@.len() implies ((#[trigger] h1.scopes@[i]).parent
        matches Some(p) ==> p.id < i) by {
        assert(h1.scopes@[i].parent == h0.scopes@[i].parent);
        assert(h0.scopes@[i].parent matches Some(p) ==> p.id < i);
    }
}

/// Slot liveness and slot values only depend on what `eq_mod_outlive`
/// preserves.
pub proof fn lemma_slot_live_under_eq_mod_outlive(h1: Host, h2: Host, r: SlotRef)
    requires
        eq_mod_outlive(h1, h2),
    ensures
        h2.slot_live(r) <==> h1.slot_live(r),
        h1.slot_live(r) ==> h2.slot_value(r) == h1.slot_value(r),
{
    match r {
        SlotRef::Var { scope, index } => {
            if scope.id < h1.scopes@.len() {
                assert(h2.scopes@[scope.id as int].vars@ == h1.scopes@[scope.id as int].vars@);
            }
        }
        SlotRef::SelfSlot { scope } => {
            if scope.id < h1.scopes@.len() {
                assert(h2.scopes@[scope.id as int].kself == h1.scopes@[scope.id as int].kself);
            }
        }
    }
}

/// Taking a value out of a slot and putting it back, with only outlive
/// counters moving in between, leaves the host equal up to outlive
/// counters; and each of the two exchanges touches no counter itself.
pub proof fn lemma_slot_roundtrip_eq_mod_outlive(h0: Host, h1: Host, h2: Host, h3: Host, r: SlotRef)
    requires
        h0.slot_live(r),
        unchanged_but_slot(h0, h1, r),
        eq_mod_outlive(h1, h2),
        outlive_monotone(h1, h2),
        unchanged_but_slot(h2, h3, r),
        h3.slot_value(r) == h0.slot_value(r),
    ensures
        eq_mod_outlive(h0, h3),
        outlive_monotone(h0, h3),
        forall|i: int| 0 <= i < h0.scopes@.len()
            ==> (#[trigger] h3.scopes@[i]).outlive == h2.scopes@[i].outlive
                && h1.scopes@[i].outlive == h0.scopes@[i].outlive,
{
    assert(h0.scopes.len() == h0.scopes@.len());
    assert forall|i: int| 0 <= i < h0.scopes@.len() implies {
        let s0 = #[trigger] h0.scopes@[i];
        let s3 = h3.scopes@[i];
        &&& s3.parent == s0.parent
        &&& s3.kself == s0.kself
        &&& s3.vars@ == s0.vars@
        &&& s3.outlive >= s0.outlive
        &&& h3.scopes@[i].outlive == h2.scopes@[i].outlive
        &&& h1.scopes@[i].outlive == h0.scopes@[i].outlive
    } by {
        let s0 = h0.scopes@[i];
        let s1 = h1.scopes@[i];
        let s2 = h2.scopes@[i];
        let s3 = h3.scopes@[i];
        assert(s2.vars@ == s1.vars@ && s2.kself == s1.kself && s2.parent == s1.parent);
        assert(s0.vars.len() == s0.vars@.len());
        assert forall|j: int| 0 <= j < s0.vars@.len() implies s3.vars@[j] == s0.vars@[j] by {
            let v0 = s0.vars@[j];
            let v1 = s1.vars@[j];
            let v3 = s3.vars@[j];
            assert(v1.name == v0.name && v1.frozen == v0.frozen);
            assert(v3.name == v1.name && v3.frozen == v1.frozen);
            if r == (SlotRef::Var { scope: Scope { id: i as usize }, index: j as usize }) {
                assert(h3.slot_value(r) == v3.val);
                assert(h0.slot_value(r) == v0.val);
            } else {
                assert(v1.val == v0.val);
                assert(v3.val == v1.val);
            }
        }
        assert(s3.vars@ =~= s0.vars@);
        if r == (SlotRef::SelfSlot { scope: Scope { id: i as usize } }) {
            assert(s0.kself is Some && s1.kself is Some && s3.kself is Some);
            assert(s3.kself->0 == h3.slot_value(r));
            assert(s0.kself->0 == h0.slot_value(r));
        } else {
            assert(s1.kself == s0.kself);
            assert(s3.kself == s2.kself);
        }
    }
}

/// The shadowing law, first half: after `let_var` binds a name in a
/// scope, that name resolves from the scope to the fresh binding, whatever
/// it resolved to before.
pub proof fn lemma_newest_binding_wins(h1: Host, h2: Host, s: Scope, tok: usize, val: Litr)
    requires
        var_pushed(h1, h2, s, tok, val),
    ensures
        h2.resolve(s.id as int, tok) == Some(
            SlotRef::Var { scope: s, index: h1.scopes@[s.id as int].vars@.len() as usize },
        ),
        h2.slot_value(
            SlotRef::Var { scope: s, index: h1.scopes@[s.id as int].vars@.len() as usize },
        ) == val,
{
    let vars2 = h2.scopes@[s.id as int].vars@;
    assert(h2.scopes@[s.id as int].vars.len() == vars2.len());
    assert(vars2.last().name == tok);
    assert(last_match(vars2, tok) == Some(vars2.len() - 1));
    assert(h2.resolve(s.id as int, tok) == Some(
        SlotRef::Var { scope: Scope { id: s.id }, index: (vars2.len() - 1) as usize },
    ));
}

/// The shadowing law, second half: the fresh binding hides nothing else.
/// Every other name resolves after `let_var` exactly as it did before,
/// from every scope.
pub proof fn lemma_shadowing_preserves_other_names(
    h1: Host,
    h2: Host,
    s: Scope,
    tok: usize,
    val: Litr,
    sid: int,
    other: usize,
)
    requires
        var_pushed(h1, h2, s, tok, val),
        other != tok,
    ensures
        h2.resolve(sid, other) == h1.resolve(sid, other),
    decreases sid,
{
    if 0 <= sid < h1.scopes@.len() {
        let sd1 = h1.scopes@[sid];
        let sd2 = h2.scopes@[sid];
        if sid == s.id {
            assert(sd2.vars@ == sd1.vars@.push(VarSlot { name: tok, val, frozen: false }));
            assert(sd2.vars@.last().name != other);
            assert(sd2.vars@.drop_last() =~= sd1.vars@);
            assert(last_match(sd2.vars@, other) == last_match(sd1.vars@, other));
        } else {
            assert(sd2 == sd1);
        }
        assert(sd2.parent == sd1.parent);
        match last_match(sd1.vars@, other) {
            Some(_) => {}
            None => {
                match sd1.parent {
                    Some(p) => {
                        if p.id < sid {
                            lemma_shadowing_preserves_other_names(
                                h1,
                                h2,
                                s,
                                tok,
                                val,
                                p.id as int,
                                other,
                            );
                        }
                    }
                    None => {}
                }
            }
        }
    } else {
        assert(h2.scopes@.len() == h1.scopes@.len());
    }
}

/// A match found in one scope's variable list is in range and carries the
/// name sought.
pub proof fn lemma_last_match_in_range(vars: Seq<VarSlot>, tok: usize)
    ensures
        last_match(vars, tok) matches Some(j) ==> 0 <= j < vars.len() && vars[j].name == tok,
    decreases vars.len(),
{
    if vars.len() > 0 && vars[vars.len() - 1].name != tok {
        lemma_last_match_in_range(vars.drop_last(), tok);
        match last_match(vars.drop_last(), tok) {
            Some(j) => {
                assert(vars.drop_last()[j] == vars[j]);
            }
            None => {}
        }
    }
}

} // verus!
