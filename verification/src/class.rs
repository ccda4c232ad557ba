//! The class registry: vtables for module-defined native types.
//!
//! A module registers a native type by allocating a registry slot
//! ([`Class::uninit`]), initializing its vtable exactly once
//! ([`Class::new`]), then optionally overriding lifecycle hooks and
//! appending methods. Registration and dispatch are two disjoint phases:
//! after bootstrap the vtable is read-only and every structural operation
//! on an instance is routed through it.

use vstd::prelude::*;
use crate::fault::Fault;
use crate::funcs::{HookFn, NativeFn, NativeMethod};
use crate::ident::{intern_table, intern_tok, Ident};
use crate::instance::Instance;
use crate::table::ModuleCtx;
use crate::value::{Litr, Symbol};
use vstd::string::{StringExecFns, StringSliceAdditionalSpecFns};

verus! {

/// A non-owning reference to a class descriptor: the index of its slot in
/// the module's class registry. Instances carry this handle; two classes
/// are the same exactly when their handles are equal.
#[derive(Debug, Clone, Copy, PartialEq, Eq, Structural)]
pub struct Class {
    pub id: usize,
}

/// One vtable slot for a lifecycle hook: the documented default behaviour
/// until a module overrides it with its own hook function.
#[derive(Debug, Clone, Copy, PartialEq, Eq, Structural)]
pub enum Hook {
    /// The documented default behaviour of the slot.
    Default,
    /// A module-installed override.
    Custom(HookFn),
}

/// The descriptor of a registered native type: its name, its method
/// tables, and its eight lifecycle hooks.
#[derive(Debug)]
pub struct Vtable {
    /// The interned class name.
    pub name: Ident,
    /// Static methods, in registration order. Append-only; lookup by name
    /// resolves to the first entry, so a duplicate name is unreachable.
    pub statics: Vec<(Ident, NativeFn)>,
    /// Instance methods, in registration order, first-registered-wins.
    pub methods: Vec<(Ident, NativeMethod)>,
    /// Handles the dot-access read operator.
    pub getter: Hook,
    /// Handles the dot-access assignment operator.
    pub setter: Hook,
    /// Handles subscript reads.
    pub index_get: Hook,
    /// Handles subscript writes.
    pub index_set: Hook,
    /// Handles the iteration protocol.
    pub next: Hook,
    /// Produces the host string conversion of an instance.
    pub to_str: Hook,
    /// Runs on every value copy of an instance.
    pub onclone: Hook,
    /// Runs when an instance is destroyed.
    pub ondrop: Hook,
}

/// The module's class registry: one slot per allocated class, holding its
/// vtable once the class is initialized.
#[derive(Debug)]
pub struct ClassRegistry {
    pub slots: Vec<Option<Vtable>>,
}

/// The first entry of a method table carrying the given name token, read
/// from position `i` on.
pub open spec fn first_entry_from<F>(entries: Seq<(Ident, F)>, tok: usize, i: int) -> Option<F>
    decreases entries.len() - i,
{
    if i < 0 || i >= entries.len() {
        None
    } else if entries[i].0.tok == tok {
        Some(entries[i].1)
    } else {
        first_entry_from(entries, tok, i + 1)
    }
}

/// Name-based lookup in an append-only method table: the
/// first-registered entry of that name wins; a later entry of the same
/// name occupies its slot but is unreachable by name.
pub open spec fn first_entry<F>(entries: Seq<(Ident, F)>, tok: usize) -> Option<F> {
    first_entry_from(entries, tok, 0)
}

/// The first-registered-wins law: once a table binds a name token,
/// appending any further entry — in particular a second one under the
/// same name — leaves name-based lookup of that token unchanged.
pub proof fn lemma_first_registration_wins<F>(entries: Seq<(Ident, F)>, tok: usize, e: (Ident, F))
    requires
        exists|j: int| 0 <= j < entries.len() && (#[trigger] entries[j]).0.tok == tok,
    ensures
        first_entry(entries.push(e), tok) == first_entry(entries, tok),
{
    lemma_first_entry_from_push(entries, tok, e, 0);
}

/// Helper for [`lemma_first_registration_wins`], generalized over the
/// start position.
proof fn lemma_first_entry_from_push<F>(entries: Seq<(Ident, F)>, tok: usize, e: (Ident, F), i: int)
    requires
        0 <= i <= entries.len(),
        exists|j: int| i <= j < entries.len() && (#[trigger] entries[j]).0.tok == tok,
    ensures
        first_entry_from(entries.push(e), tok, i) == first_entry_from(entries, tok, i),
    decreases entries.len() - i,
{
    assert(entries.push(e)[i] == entries[i]);
    if entries[i].0.tok != tok {
        let j = choose|j: int| i <= j < entries.len() && (#[trigger] entries[j]).0.tok == tok;
        assert(i + 1 <= j);
        lemma_first_entry_from_push(entries, tok, e, i + 1);
    }
}

/// True when the second table is the first with one entry appended: the
/// given name token with the given byte content, bound to `f`, and every
/// earlier entry untouched.
pub open spec fn entry_appended<F>(
    t1: Seq<(Ident, F)>,
    t2: Seq<(Ident, F)>,
    tok: usize,
    b: Seq<u8>,
    f: F,
) -> bool {
    &&& t2.len() == t1.len() + 1
    &&& forall|i: int| 0 <= i < t1.len() ==> t2[i] == t1[i]
    &&& t2.last().0.tok == tok
    &&& t2.last().0.bytes@ == b
    &&& t2.last().1 == f
}

impl ClassRegistry {
    /// An empty registry: no classes allocated yet.
    pub fn new() -> (r: ClassRegistry)
        ensures
            r.slots@.len() == 0,
    {
        ClassRegistry { slots: Vec::new() }
    }

    /// True when the handle names a slot of this registry.
    pub open spec fn valid(&self, c: Class) -> bool {
        c.id < self.slots@.len()
    }

    /// True when the class's vtable has been set up.
    pub open spec fn initialized(&self, c: Class) -> bool {
        &&& self.valid(c)
        &&& self.slots@[c.id as int] is Some
    }

    /// The vtable of an initialized class.
    pub open spec fn vtable(&self, c: Class) -> Vtable
        recommends
            self.initialized(c),
    {
        self.slots@[c.id as int]->0
    }

    /// True when the second registry agrees with this one on every slot
    /// except `c`.
    pub open spec fn unchanged_but(&self, r2: ClassRegistry, c: Class) -> bool {
        &&& r2.slots@.len() == self.slots@.len()
        &&& forall|i: int| 0 <= i < self.slots@.len() && i != c.id
            ==> r2.slots@[i] == #[trigger] self.slots@[i]
    }
}

/// The fault a class operation reports when its handle or its
/// initialization state is wrong: every registration, creation and
/// dispatch call checks the class before touching anything.
pub open spec fn class_gate_fault(reg: ClassRegistry, c: Class, f: Fault) -> bool {
    &&& (f is BadClass <==> !reg.valid(c))
    &&& (f is ClassUninit <==> reg.valid(c) && !reg.initialized(c))
    &&& (f is BadClass || f is ClassUninit)
}

impl Class {
    /// Allocates a registry slot for a class that is not yet set up. The
    /// handle can be stored anywhere, but every use before [`Class::new`]
    /// fails fast.
    pub fn uninit(reg: &mut ClassRegistry) -> (c: Class)
        ensures
            c.id == old(reg).slots@.len(),
            final(reg).slots@ == old(reg).slots@.push(None),
            !final(reg).initialized(c),
            final(reg).valid(c),
    {
        let c = Class { id: reg.slots.len() };
        reg.slots.push(None);
        c
    }

    /// Sets up the class's vtable, exactly once: interns the class name
    /// and installs the documented default behaviour in all eight hook
    /// slots, with empty method tables. Setting up twice is a programmer
    /// error and fails fast, as does any registration before this call.
    pub fn new(&self, reg: &mut ClassRegistry, ctx: &mut ModuleCtx, name: &str) -> (r: Result<
        (),
        Fault,
    >)
        requires
            old(ctx).wf(),
        ensures
            final(ctx).wf(),
            old(ctx).bound() <==> final(ctx).bound(),
            match r {
                Ok(()) => {
                    &&& old(ctx).bound()
                    &&& old(reg).valid(*self)
                    &&& !old(reg).initialized(*self)
                    &&& final(ctx).host().interner@ == intern_table(
                        old(ctx).host().interner@,
                        name.spec_bytes(),
                    )
                    &&& final(ctx).host().scopes == old(ctx).host().scopes
                    &&& old(reg).unchanged_but(*final(reg), *self)
                    &&& final(reg).initialized(*self)
                    &&& {
                        let vt = final(reg).vtable(*self);
                        &&& vt.name.tok == intern_tok(old(ctx).host().interner@, name.spec_bytes())
                        &&& vt.name.bytes@ == name.spec_bytes()
                        &&& vt.statics@.len() == 0
                        &&& vt.methods@.len() == 0
                        &&& vt.getter is Default
                        &&& vt.setter is Default
                        &&& vt.index_get is Default
                        &&& vt.index_set is Default
                        &&& vt.next is Default
                        &&& vt.to_str is Default
                        &&& vt.onclone is Default
                        &&& vt.ondrop is Default
                    }
                },
                Err(f) => {
                    &&& *final(reg) == *old(reg)
                    &&& *final(ctx) == *old(ctx)
                    &&& (f is Unbound <==> !old(ctx).bound())
                    &&& (old(ctx).bound() ==> {
                        &&& (f is BadClass <==> !old(reg).valid(*self))
                        &&& (f is ClassAlreadyInit <==> old(reg).initialized(*self))
                        &&& (f is BadClass || f is ClassAlreadyInit)
                    })
                },
            },
    {
        if self.id >= reg.slots.len() {
            match &ctx.state {
                crate::table::Binding::Unbound => {
                    return Err(Fault::Unbound);
                }
                crate::table::Binding::Bound(_) => {
                    return Err(Fault::BadClass);
                }
            }
        }
        match &reg.slots[self.id] {
            Some(_) => match &ctx.state {
                crate::table::Binding::Unbound => Err(Fault::Unbound),
                crate::table::Binding::Bound(_) => Err(Fault::ClassAlreadyInit),
            },
            None => {
                let name_id = ctx.intern(name.as_bytes())?;
                reg.slots[self.id] = Some(Vtable {
                    name: name_id,
                    statics: Vec::new(),
                    methods: Vec::new(),
                    getter: Hook::Default,
                    setter: Hook::Default,
                    index_get: Hook::Default,
                    index_set: Hook::Default,
                    next: Hook::Default,
                    to_str: Hook::Default,
                    onclone: Hook::Default,
                    ondrop: Hook::Default,
                });
                Ok(())
            }
        }
    }

    /// Creates an instance of the class: two raw machine words tagged
    /// with the owning vtable. The words may carry any bit pattern the
    /// module chooses.
    pub fn create_raw(&self, reg: &ClassRegistry, v: usize, w: usize) -> (r: Result<Instance, Fault>)
        ensures
            match r {
                Ok(inst) => {
                    &&& reg.initialized(*self)
                    &&& inst == (Instance { v, w, cls: *self })
                },
                Err(f) => class_gate_fault(*reg, *self, f),
            },
    {
        if self.id >= reg.slots.len() {
            return Err(Fault::BadClass);
        }
        match &reg.slots[self.id] {
            Some(_) => Ok(Instance { v, w, cls: *self }),
            None => Err(Fault::ClassUninit),
        }
    }

    /// Creates an instance and wraps it as a runtime value.
    pub fn create(&self, reg: &ClassRegistry, v: usize, w: usize) -> (r: Result<Litr, Fault>)
        ensures
            match r {
                Ok(val) => {
                    &&& reg.initialized(*self)
                    &&& val == Litr::Ninst(Instance { v, w, cls: *self })
                },
                Err(f) => class_gate_fault(*reg, *self, f),
            },
    {
        match self.create_raw(reg, v, w) {
            Ok(inst) => Ok(Litr::Ninst(inst)),
            Err(f) => Err(f),
        }
    }

    /// Appends an instance method to the class's method table. The table
    /// is append-only; a duplicate name stays in the table but is
    /// unreachable by name-based lookup.
    pub fn method(&self, reg: &mut ClassRegistry, ctx: &mut ModuleCtx, name: &str, f: NativeMethod)
        -> (r: Result<(), Fault>)
        requires
            old(ctx).wf(),
        ensures
            final(ctx).wf(),
            old(ctx).bound() <==> final(ctx).bound(),
            match r {
                Ok(()) => {
                    &&& old(ctx).bound()
                    &&& old(reg).initialized(*self)
                    &&& final(ctx).host().interner@ == intern_table(
                        old(ctx).host().interner@,
                        name.spec_bytes(),
                    )
                    &&& final(ctx).host().scopes == old(ctx).host().scopes
                    &&& old(reg).unchanged_but(*final(reg), *self)
                    &&& final(reg).initialized(*self)
                    &&& entry_appended(
                        old(reg).vtable(*self).methods@,
                        final(reg).vtable(*self).methods@,
                        intern_tok(old(ctx).host().interner@, name.spec_bytes()) as usize,
                        name.spec_bytes(),
                        f,
                    )
                    &&& vtable_same_but_methods(old(reg).vtable(*self), final(reg).vtable(*self))
                },
                Err(f) => {
                    &&& *final(reg) == *old(reg)
                    &&& *final(ctx) == *old(ctx)
                    &&& (f is Unbound <==> !old(ctx).bound())
                    &&& (old(ctx).bound() ==> class_gate_fault(*old(reg), *self, f))
                },
            },
    {
        if self.id >= reg.slots.len() {
            match &ctx.state {
                crate::table::Binding::Unbound => {
                    return Err(Fault::Unbound);
                }
                crate::table::Binding::Bound(_) => {
                    return Err(Fault::BadClass);
                }
            }
        }
        match &reg.slots[self.id] {
            None => match &ctx.state {
                crate::table::Binding::Unbound => Err(Fault::Unbound),
                crate::table::Binding::Bound(_) => Err(Fault::ClassUninit),
            },
            Some(_) => {
                let name_id = ctx.intern(name.as_bytes())?;
                match &mut reg.slots[self.id] {
                    Some(vt) => {
                        vt.methods.push((name_id, f));
                        Ok(())
                    }
                    None => vstd::pervasive::unreached(),
                }
            }
        }
    }

    /// Appends a static method to the class's static table, first
    /// registration winning on duplicate names.
    pub fn static_method(&self, reg: &mut ClassRegistry, ctx: &mut ModuleCtx, name: &str, f: NativeFn)
        -> (r: Result<(), Fault>)
        requires
            old(ctx).wf(),
        ensures
            final(ctx).wf(),
            old(ctx).bound() <==> final(ctx).bound(),
            match r {
                Ok(()) => {
                    &&& old(ctx).bound()
                    &&& old(reg).initialized(*self)
                    &&& final(ctx).host().interner@ == intern_table(
                        old(ctx).host().interner@,
                        name.spec_bytes(),
                    )
                    &&& final(ctx).host().scopes == old(ctx).host().scopes
                    &&& old(reg).unchanged_but(*final(reg), *self)
                    &&& final(reg).initialized(*self)
                    &&& entry_appended(
                        old(reg).vtable(*self).statics@,
                        final(reg).vtable(*self).statics@,
                        intern_tok(old(ctx).host().interner@, name.spec_bytes()) as usize,
                        name.spec_bytes(),
                        f,
                    )
                    &&& vtable_same_but_statics(old(reg).vtable(*self), final(reg).vtable(*self))
                },
                Err(f) => {
                    &&& *final(reg) == *old(reg)
                    &&& *final(ctx) == *old(ctx)
                    &&& (f is Unbound <==> !old(ctx).bound())
                    &&& (old(ctx).bound() ==> class_gate_fault(*old(reg), *self, f))
                },
            },
    {
        if self.id >= reg.slots.len() {
            match &ctx.state {
                crate::table::Binding::Unbound => {
                    return Err(Fault::Unbound);
                }
                crate::table::Binding::Bound(_) => {
                    return Err(Fault::BadClass);
                }
            }
        }
        match &reg.slots[self.id] {
            None => match &ctx.state {
                crate::table::Binding::Unbound => Err(Fault::Unbound),
                crate::table::Binding::Bound(_) => Err(Fault::ClassUninit),
            },
            Some(_) => {
                let name_id = ctx.intern(name.as_bytes())?;
                match &mut reg.slots[self.id] {
                    Some(vt) => {
                        vt.statics.push((name_id, f));
                        Ok(())
                    }
                    None => vstd::pervasive::unreached(),
                }
            }
        }
    }

    /// Overrides the getter hook, which handles the dot-access read
    /// operator.
    pub fn getter(&self, reg: &mut ClassRegistry, f: HookFn) -> (r: Result<(), Fault>)
        ensures
            hook_override_shape(old(reg), final(reg), *self, r),
            r is Ok ==> final(reg).vtable(*self) == (Vtable {
                getter: Hook::Custom(f),
                ..old(reg).vtable(*self)
            }),
    {
        if self.id >= reg.slots.len() {
            return Err(Fault::BadClass);
        }
        match &reg.slots[self.id] {
            None => Err(Fault::ClassUninit),
            Some(_) => match &mut reg.slots[self.id] {
                Some(vt) => {
                    vt.getter = Hook::Custom(f);
                    Ok(())
                }
                None => vstd::pervasive::unreached(),
            },
        }
    }

    /// Overrides the setter hook, which handles dot-access assignment.
    pub fn setter(&self, reg: &mut ClassRegistry, f: HookFn) -> (r: Result<(), Fault>)
        ensures
            hook_override_shape(old(reg), final(reg), *self, r),
            r is Ok ==> final(reg).vtable(*self) == (Vtable {
                setter: Hook::Custom(f),
                ..old(reg).vtable(*self)
            }),
    {
        if self.id >= reg.slots.len() {
            return Err(Fault::BadClass);
        }
        match &reg.slots[self.id] {
            None => Err(Fault::ClassUninit),
            Some(_) => match &mut reg.slots[self.id] {
                Some(vt) => {
                    vt.setter = Hook::Custom(f);
                    Ok(())
                }
                None => vstd::pervasive::unreached(),
            },
        }
    }

    /// Overrides the index-get hook, which handles subscript reads.
    pub fn index_get(&self, reg: &mut ClassRegistry, f: HookFn) -> (r: Result<(), Fault>)
        ensures
            hook_override_shape(old(reg), final(reg), *self, r),
            r is Ok ==> final(reg).vtable(*self) == (Vtable {
                index_get: Hook::Custom(f),
                ..old(reg).vtable(*self)
            }),
    {
        if self.id >= reg.slots.len() {
            return Err(Fault::BadClass);
        }
        match &reg.slots[self.id] {
            None => Err(Fault::ClassUninit),
            Some(_) => match &mut reg.slots[self.id] {
                Some(vt) => {
                    vt.index_get = Hook::Custom(f);
                    Ok(())
                }
                None => vstd::pervasive::unreached(),
            },
        }
    }

    /// Overrides the index-set hook, which handles subscript writes.
    pub fn index_set(&self, reg: &mut ClassRegistry, f: HookFn) -> (r: Result<(), Fault>)
        ensures
            hook_override_shape(old(reg), final(reg), *self, r),
            r is Ok ==> final(reg).vtable(*self) == (Vtable {
                index_set: Hook::Custom(f),
                ..old(reg).vtable(*self)
            }),
    {
        if self.id >= reg.slots.len() {
            return Err(Fault::BadClass);
        }
        match &reg.slots[self.id] {
            None => Err(Fault::ClassUninit),
            Some(_) => match &mut reg.slots[self.id] {
                Some(vt) => {
                    vt.index_set = Hook::Custom(f);
                    Ok(())
                }
                None => vstd::pervasive::unreached(),
            },
        }
    }

    /// Overrides the iterator hook, which yields successive values and
    /// the end-of-iteration sentinel on exhaustion.
    pub fn next(&self, reg: &mut ClassRegistry, f: HookFn) -> (r: Result<(), Fault>)
        ensures
            hook_override_shape(old(reg), final(reg), *self, r),
            r is Ok ==> final(reg).vtable(*self) == (Vtable {
                next: Hook::Custom(f),
                ..old(reg).vtable(*self)
            }),
    {
        if self.id >= reg.slots.len() {
            return Err(Fault::BadClass);
        }
        match &reg.slots[self.id] {
            None => Err(Fault::ClassUninit),
            Some(_) => match &mut reg.slots[self.id] {
                Some(vt) => {
                    vt.next = Hook::Custom(f);
                    Ok(())
                }
                None => vstd::pervasive::unreached(),
            },
        }
    }

    /// Overrides the copy hook, which runs on every value copy of an
    /// instance. A class that stores an owning resource in a slot word
    /// must override this, or the default bit-for-bit copy leads to a
    /// double release.
    pub fn onclone(&self, reg: &mut ClassRegistry, f: HookFn) -> (r: Result<(), Fault>)
        ensures
            hook_override_shape(old(reg), final(reg), *self, r),
            r is Ok ==> final(reg).vtable(*self) == (Vtable {
                onclone: Hook::Custom(f),
                ..old(reg).vtable(*self)
            }),
    {
        if self.id >= reg.slots.len() {
            return Err(Fault::BadClass);
        }
        match &reg.slots[self.id] {
            None => Err(Fault::ClassUninit),
            Some(_) => match &mut reg.slots[self.id] {
                Some(vt) => {
                    vt.onclone = Hook::Custom(f);
                    Ok(())
                }
                None => vstd::pervasive::unreached(),
            },
        }
    }

    /// Overrides the destruction hook, which must perform any release
    /// work the default bit-copy semantics cannot express.
    pub fn ondrop(&self, reg: &mut ClassRegistry, f: HookFn) -> (r: Result<(), Fault>)
        ensures
            hook_override_shape(old(reg), final(reg), *self, r),
            r is Ok ==> final(reg).vtable(*self) == (Vtable {
                ondrop: Hook::Custom(f),
                ..old(reg).vtable(*self)
            }),
    {
        if self.id >= reg.slots.len() {
            return Err(Fault::BadClass);
        }
        match &reg.slots[self.id] {
            None => Err(Fault::ClassUninit),
            Some(_) => match &mut reg.slots[self.id] {
                Some(vt) => {
                    vt.ondrop = Hook::Custom(f);
                    Ok(())
                }
                None => vstd::pervasive::unreached(),
            },
        }
    }

    /// Overrides the string-conversion hook.
    pub fn to_str(&self, reg: &mut ClassRegistry, f: HookFn) -> (r: Result<(), Fault>)
        ensures
            hook_override_shape(old(reg), final(reg), *self, r),
            r is Ok ==> final(reg).vtable(*self) == (Vtable {
                to_str: Hook::Custom(f),
                ..old(reg).vtable(*self)
            }),
    {
        if self.id >= reg.slots.len() {
            return Err(Fault::BadClass);
        }
        match &reg.slots[self.id] {
            None => Err(Fault::ClassUninit),
            Some(_) => match &mut reg.slots[self.id] {
                Some(vt) => {
                    vt.to_str = Hook::Custom(f);
                    Ok(())
                }
                None => vstd::pervasive::unreached(),
            },
        }
    }

    /// Name-based lookup of an instance method: the first-registered
    /// method of that name.
    pub fn find_method(&self, reg: &ClassRegistry, id: &Ident) -> (r: Result<
        Option<NativeMethod>,
        Fault,
    >)
        ensures
            match r {
                Ok(opt) => {
                    &&& reg.initialized(*self)
                    &&& opt == first_entry(reg.vtable(*self).methods@, id.tok)
                },
                Err(f) => class_gate_fault(*reg, *self, f),
            },
    {
        if self.id >= reg.slots.len() {
            return Err(Fault::BadClass);
        }
        match &reg.slots[self.id] {
            None => Err(Fault::ClassUninit),
            Some(vt) => Ok(scan_entries_method(&vt.methods, id.tok)),
        }
    }

    /// Name-based lookup of a static method: the first-registered one of
    /// that name. A second registration under the same name occupies a
    /// table slot but cannot be found.
    pub fn find_static(&self, reg: &ClassRegistry, id: &Ident) -> (r: Result<
        Option<NativeFn>,
        Fault,
    >)
        ensures
            match r {
                Ok(opt) => {
                    &&& reg.initialized(*self)
                    &&& opt == first_entry(reg.vtable(*self).statics@, id.tok)
                },
                Err(f) => class_gate_fault(*reg, *self, f),
            },
    {
        if self.id >= reg.slots.len() {
            return Err(Fault::BadClass);
        }
        match &reg.slots[self.id] {
            None => Err(Fault::ClassUninit),
            Some(vt) => Ok(scan_entries_static(&vt.statics, id.tok)),
        }
    }
}

/// Scans a static table for the first entry of a name token.
fn scan_entries_static(entries: &Vec<(Ident, NativeFn)>, tok: usize) -> (r: Option<NativeFn>)
    ensures
        r == first_entry(entries@, tok),
{
    let n = entries.len();
    let mut i: usize = 0;
    while i < n
        invariant
            n == entries@.len(),
            0 <= i <= n,
            first_entry(entries@, tok) == first_entry_from(entries@, tok, i as int),
        decreases n - i,
    {
        if entries[i].0.tok == tok {
            return Some(entries[i].1);
        }
        i += 1;
    }
    None
}

/// Scans a method table for the first entry of a name token.
fn scan_entries_method(entries: &Vec<(Ident, NativeMethod)>, tok: usize) -> (r: Option<NativeMethod>)
    ensures
        r == first_entry(entries@, tok),
{
    let n = entries.len();
    let mut i: usize = 0;
    while i < n
        invariant
            n == entries@.len(),
            0 <= i <= n,
            first_entry(entries@, tok) == first_entry_from(entries@, tok, i as int),
        decreases n - i,
    {
        if entries[i].0.tok == tok {
            return Some(entries[i].1);
        }
        i += 1;
    }
    None
}

/// The common shape of a hook override: on success the class was
/// initialized and only its own slot changed; on failure nothing changed
/// and the fault names what was wrong with the class.
pub open spec fn hook_override_shape(
    r1: &ClassRegistry,
    r2: &ClassRegistry,
    c: Class,
    r: Result<(), Fault>,
) -> bool {
    match r {
        Ok(()) => {
            &&& r1.initialized(c)
            &&& r1.unchanged_but(*r2, c)
            &&& r2.initialized(c)
        },
        Err(f) => {
            &&& *r2 == *r1
            &&& class_gate_fault(*r1, c, f)
        },
    }
}

/// The outcome of routing one structural operation through a vtable:
/// either the slot's default behaviour already completed with this
/// result, or the module hook override the host must now invoke.
#[derive(Debug)]
pub enum Flow<T> {
    /// The default behaviour completed; its result.
    Done(T),
    /// The host must invoke this module hook to complete the operation.
    Invoke(HookFn),
}

/// Fetches the vtable an instance's operations are routed through.
fn vtable_ref<'a>(reg: &'a ClassRegistry, c: Class) -> (r: Result<&'a Vtable, Fault>)
    ensures
        match r {
            Ok(vt) => {
                &&& reg.initialized(c)
                &&& *vt == reg.vtable(c)
            },
            Err(f) => class_gate_fault(*reg, c, f),
        },
{
    if c.id >= reg.slots.len() {
        return Err(Fault::BadClass);
    }
    match &reg.slots[c.id] {
        None => Err(Fault::ClassUninit),
        Some(vt) => Ok(vt),
    }
}

/// Routes the dot-access read operator: the default getter yields the
/// absent value whatever the key; an override must be invoked.
pub fn dispatch_getter(reg: &ClassRegistry, inst: &Instance) -> (r: Result<Flow<Litr>, Fault>)
    ensures
        match r {
            Ok(fl) => {
                &&& reg.initialized(inst.cls)
                &&& match reg.vtable(inst.cls).getter {
                    Hook::Default => fl == Flow::Done(Litr::Uninit),
                    Hook::Custom(h) => fl == Flow::<Litr>::Invoke(h),
                }
            },
            Err(f) => class_gate_fault(*reg, inst.cls, f),
        },
{
    match vtable_ref(reg, inst.cls)?.getter {
        Hook::Default => Ok(Flow::Done(Litr::Uninit)),
        Hook::Custom(h) => Ok(Flow::Invoke(h)),
    }
}

/// Routes dot-access assignment: the default setter ignores the write;
/// an override must be invoked.
pub fn dispatch_setter(reg: &ClassRegistry, inst: &Instance) -> (r: Result<Flow<()>, Fault>)
    ensures
        match r {
            Ok(fl) => {
                &&& reg.initialized(inst.cls)
                &&& match reg.vtable(inst.cls).setter {
                    Hook::Default => fl == Flow::Done(()),
                    Hook::Custom(h) => fl == Flow::<()>::Invoke(h),
                }
            },
            Err(f) => class_gate_fault(*reg, inst.cls, f),
        },
{
    match vtable_ref(reg, inst.cls)?.setter {
        Hook::Default => Ok(Flow::Done(())),
        Hook::Custom(h) => Ok(Flow::Invoke(h)),
    }
}

/// Routes subscript reads: the default yields the absent value.
pub fn dispatch_index_get(reg: &ClassRegistry, inst: &Instance) -> (r: Result<Flow<Litr>, Fault>)
    ensures
        match r {
            Ok(fl) => {
                &&& reg.initialized(inst.cls)
                &&& match reg.vtable(inst.cls).index_get {
                    Hook::Default => fl == Flow::Done(Litr::Uninit),
                    Hook::Custom(h) => fl == Flow::<Litr>::Invoke(h),
                }
            },
            Err(f) => class_gate_fault(*reg, inst.cls, f),
        },
{
    match vtable_ref(reg, inst.cls)?.index_get {
        Hook::Default => Ok(Flow::Done(Litr::Uninit)),
        Hook::Custom(h) => Ok(Flow::Invoke(h)),
    }
}

/// Routes subscript writes: the default ignores the write.
pub fn dispatch_index_set(reg: &ClassRegistry, inst: &Instance) -> (r: Result<Flow<()>, Fault>)
    ensures
        match r {
            Ok(fl) => {
                &&& reg.initialized(inst.cls)
                &&& match reg.vtable(inst.cls).index_set {
                    Hook::Default => fl == Flow::Done(()),
                    Hook::Custom(h) => fl == Flow::<()>::Invoke(h),
                }
            },
            Err(f) => class_gate_fault(*reg, inst.cls, f),
        },
{
    match vtable_ref(reg, inst.cls)?.index_set {
        Hook::Default => Ok(Flow::Done(())),
        Hook::Custom(h) => Ok(Flow::Invoke(h)),
    }
}

/// Routes one step of the iteration protocol. The default hook is
/// already exhausted: it yields the end-of-iteration sentinel — a value,
/// not an error — on every call. All iterator state of an override lives
/// in the instance's two slot words.
pub fn dispatch_next(reg: &ClassRegistry, inst: &Instance) -> (r: Result<Flow<Litr>, Fault>)
    ensures
        match r {
            Ok(fl) => {
                &&& reg.initialized(inst.cls)
                &&& match reg.vtable(inst.cls).next {
                    Hook::Default => fl == Flow::Done(Litr::Sym(Symbol::IterEnd)),
                    Hook::Custom(h) => fl == Flow::<Litr>::Invoke(h),
                }
            },
            Err(f) => class_gate_fault(*reg, inst.cls, f),
        },
{
    match vtable_ref(reg, inst.cls)?.next {
        Hook::Default => Ok(Flow::Done(Litr::Sym(Symbol::IterEnd))),
        Hook::Custom(h) => Ok(Flow::Invoke(h)),
    }
}

/// Routes a value copy of an instance. With no override, the copy is a
/// bit-for-bit duplicate of the two slot words under the same class —
/// correct only for classes that store no owning resource there. With an
/// override, no implicit copy happens at all: the hook's return value is
/// used verbatim.
pub fn dispatch_clone(reg: &ClassRegistry, inst: &Instance) -> (r: Result<Flow<Instance>, Fault>)
    ensures
        match r {
            Ok(fl) => {
                &&& reg.initialized(inst.cls)
                &&& match reg.vtable(inst.cls).onclone {
                    Hook::Default => fl == Flow::Done(Instance {
                        v: inst.v,
                        w: inst.w,
                        cls: inst.cls,
                    }),
                    Hook::Custom(h) => fl == Flow::<Instance>::Invoke(h),
                }
            },
            Err(f) => class_gate_fault(*reg, inst.cls, f),
        },
{
    match vtable_ref(reg, inst.cls)?.onclone {
        Hook::Default => Ok(Flow::Done(Instance { v: inst.v, w: inst.w, cls: inst.cls })),
        Hook::Custom(h) => Ok(Flow::Invoke(h)),
    }
}

/// Routes an instance's destruction. The default performs no release
/// work; a class owning resources through its slot words must have
/// installed an override.
pub fn dispatch_drop(reg: &ClassRegistry, inst: &Instance) -> (r: Result<Flow<()>, Fault>)
    ensures
        match r {
            Ok(fl) => {
                &&& reg.initialized(inst.cls)
                &&& match reg.vtable(inst.cls).ondrop {
                    Hook::Default => fl == Flow::Done(()),
                    Hook::Custom(h) => fl == Flow::<()>::Invoke(h),
                }
            },
            Err(f) => class_gate_fault(*reg, inst.cls, f),
        },
{
    match vtable_ref(reg, inst.cls)?.ondrop {
        Hook::Default => Ok(Flow::Done(())),
        Hook::Custom(h) => Ok(Flow::Invoke(h)),
    }
}

/// Routes the host's string conversion. The default renders the class
/// name followed by a fixed marker.
pub fn dispatch_to_str(reg: &ClassRegistry, inst: &Instance) -> (r: Result<Flow<String>, Fault>)
    ensures
        match r {
            Ok(fl) => {
                &&& reg.initialized(inst.cls)
                &&& match reg.vtable(inst.cls).to_str {
                    Hook::Default => fl matches Flow::Done(s)
                        && s@ == crate::ident::lossy_decode(reg.vtable(inst.cls).name.bytes@)
                            + " { Native }"@
                        && (vstd::utf8::valid_utf8(reg.vtable(inst.cls).name.bytes@)
                        ==> s@ == vstd::utf8::decode_utf8(reg.vtable(inst.cls).name.bytes@)
                            + " { Native }"@),
                    Hook::Custom(h) => fl == Flow::<String>::Invoke(h),
                }
            },
            Err(f) => class_gate_fault(*reg, inst.cls, f),
        },
{
    let vt = vtable_ref(reg, inst.cls)?;
    match vt.to_str {
        Hook::Default => {
            let mut s = vt.name.str();
            s.append(" { Native }");
            Ok(Flow::Done(s))
        }
        Hook::Custom(h) => Ok(Flow::Invoke(h)),
    }
}

/// True when two vtables agree on everything except the method table.
pub open spec fn vtable_same_but_methods(v1: Vtable, v2: Vtable) -> bool {
    &&& v2.name == v1.name
    &&& v2.statics == v1.statics
    &&& v2.getter == v1.getter
    &&& v2.setter == v1.setter
    &&& v2.index_get == v1.index_get
    &&& v2.index_set == v1.index_set
    &&& v2.next == v1.next
    &&& v2.to_str == v1.to_str
    &&& v2.onclone == v1.onclone
    &&& v2.ondrop == v1.ondrop
}

/// True when two vtables agree on everything except the static table.
pub open spec fn vtable_same_but_statics(v1: Vtable, v2: Vtable) -> bool {
    &&& v2.name == v1.name
    &&& v2.methods == v1.methods
    &&& v2.getter == v1.getter
    &&& v2.setter == v1.setter
    &&& v2.index_get == v1.index_get
    &&& v2.index_set == v1.index_set
    &&& v2.next == v1.next
    &&& v2.to_str == v1.to_str
    &&& v2.onclone == v1.onclone
    &&& v2.ondrop == v1.ondrop
}

} // verus!
