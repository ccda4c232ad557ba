//! The tagged value representation shared across the boundary.
//!
//! Every runtime value that crosses between host and module is a [`Litr`].
//! Values are deep-copyable by default; the one exception is a native
//! instance, whose copy is controlled by its class vtable and therefore
//! routed through dispatch rather than through [`Litr`] itself.

use vstd::prelude::*;
use crate::fault::Fault;
use crate::funcs::{Function, LocalFunc};
use crate::ident::Ident;
use crate::instance::Instance;
use crate::scope::{
    eq_mod_outlive, lemma_eq_mod_outlive_trans, lemma_outlive_adjusted_is_eq_mod_outlive,
    outlive_monotone, Host,
};
use crate::table::ModuleCtx;

verus! {

/// A host syntax symbol. The distinguished [`Symbol::IterEnd`] sentinel
/// signals iterator exhaustion; exhaustion is a value, not an error.
#[derive(Debug, Clone, Copy, PartialEq, Eq, Structural)]
pub enum Symbol {
    /// The end-of-iteration sentinel.
    IterEnd,
}

/// One field of an object value.
#[derive(Debug, PartialEq)]
pub struct ObjEntry {
    /// The interned field name.
    pub key: Ident,
    /// The field value.
    pub val: Litr,
}

/// The tagged union carrying every runtime value across the boundary.
#[derive(Debug, PartialEq)]
pub enum Litr {
    /// The absent value.
    Uninit,
    /// A signed integer.
    Int(i64),
    /// An unsigned integer.
    Uint(usize),
    /// A floating-point number, carried as its raw bit pattern. The
    /// boundary never interprets the bits; only the host's numerics do.
    Float(u64),
    /// A boolean.
    Bool(bool),
    /// A callable value.
    Func(Function),
    /// A text string.
    Str(String),
    /// A byte buffer.
    Buf(Vec<u8>),
    /// An ordered sequence of values.
    List(Vec<Litr>),
    /// A mapping of interned names to values; keys are unique and their
    /// order carries no meaning.
    Obj(Vec<ObjEntry>),
    /// An instance of a host-defined (non-native) class, opaque to
    /// modules.
    Inst([usize; 3]),
    /// An instance of a module-defined native class.
    Ninst(Instance),
    /// A syntax symbol.
    Sym(Symbol),
}

/// Deep content equality of two values: structural equality everywhere,
/// with strings, buffers, lists and objects compared by their contents
/// rather than by allocation. This is the sense in which a copy equals its
/// original.
pub open spec fn litr_eq(a: Litr, b: Litr) -> bool
    decreases a,
{
    match a {
        Litr::Uninit => b is Uninit,
        Litr::Int(x) => b matches Litr::Int(y) && x == y,
        Litr::Uint(x) => b matches Litr::Uint(y) && x == y,
        Litr::Float(x) => b matches Litr::Float(y) && x == y,
        Litr::Bool(x) => b matches Litr::Bool(y) && x == y,
        Litr::Func(f) => b matches Litr::Func(g) && f == g,
        Litr::Str(x) => b matches Litr::Str(y) && x@ == y@,
        Litr::Buf(x) => b matches Litr::Buf(y) && x@ == y@,
        Litr::List(x) => b matches Litr::List(y) && x@.len() == y@.len()
            && (forall|i: int| 0 <= i < x@.len() ==> litr_eq(#[trigger] x@[i], y@[i])),
        Litr::Obj(x) => b matches Litr::Obj(y) && x@.len() == y@.len()
            && (forall|i: int| 0 <= i < x@.len() ==> obj_entry_eq(#[trigger] x@[i], y@[i])),
        Litr::Inst(x) => b matches Litr::Inst(y) && x == y,
        Litr::Ninst(x) => b matches Litr::Ninst(y) && x == y,
        Litr::Sym(x) => b matches Litr::Sym(y) && x == y,
    }
}

/// Deep content equality of two object fields: same name token, same
/// name bytes, deep-equal values.
pub open spec fn obj_entry_eq(a: ObjEntry, b: ObjEntry) -> bool
    decreases a,
{
    &&& a.key.tok == b.key.tok
    &&& a.key.bytes@ == b.key.bytes@
    &&& litr_eq(a.val, b.val)
}

/// The field of an object bound to a name token, if any. Keys are unique
/// by construction of interned names, so the first match is the binding.
pub open spec fn obj_lookup_from(entries: Seq<ObjEntry>, tok: usize, i: int) -> Option<Litr>
    decreases entries.len() - i,
{
    if i < 0 || i >= entries.len() {
        None
    } else if entries[i].key.tok == tok {
        Some(entries[i].val)
    } else {
        obj_lookup_from(entries, tok, i + 1)
    }
}

/// Object-field access: fields are found by token identity, never by
/// re-comparing name bytes.
pub open spec fn obj_lookup(entries: Seq<ObjEntry>, tok: usize) -> Option<Litr> {
    obj_lookup_from(entries, tok, 0)
}

/// Reads the field of an object value bound to an interned name.
pub fn obj_get<'a>(entries: &'a Vec<ObjEntry>, key: &Ident) -> (r: Option<&'a Litr>)
    ensures
        match r {
            Some(v) => obj_lookup(entries@, key.tok) == Some(*v),
            None => obj_lookup(entries@, key.tok) is None,
        },
{
    let n = entries.len();
    let mut i: usize = 0;
    while i < n
        invariant
            n == entries@.len(),
            0 <= i <= n,
            obj_lookup(entries@, key.tok) == obj_lookup_from(entries@, key.tok, i as int),
        decreases n - i,
    {
        if entries[i].key.tok == key.tok {
            return Some(&entries[i].val);
        }
        i += 1;
    }
    None
}

/// The invariant of an object's field list: field names are unique by
/// token — interning makes equal names equal tokens, so an object never
/// holds two bindings of one name. Under it, the first match of a lookup
/// is the one binding of that name.
pub open spec fn obj_keys_unique(entries: Seq<ObjEntry>) -> bool {
    forall|i: int, j: int| 0 <= i < j < entries.len()
        ==> (#[trigger] entries[i]).key.tok != (#[trigger] entries[j]).key.tok
}

/// Well-formedness of a value: every object anywhere inside it has
/// unique field names.
pub open spec fn litr_wf(v: Litr) -> bool
    decreases v,
{
    match v {
        Litr::List(x) => forall|i: int| 0 <= i < x@.len() ==> litr_wf(#[trigger] x@[i]),
        Litr::Obj(x) => obj_keys_unique(x@) && (forall|i: int|
            0 <= i < x@.len() ==> litr_wf((#[trigger] x@[i]).val)),
        _ => true,
    }
}

/// Under unique keys, any entry carrying the token sought is the one a
/// lookup finds: the first match is the binding.
pub proof fn lemma_obj_lookup_unique(entries: Seq<ObjEntry>, tok: usize, j: int)
    requires
        obj_keys_unique(entries),
        0 <= j < entries.len(),
        entries[j].key.tok == tok,
    ensures
        obj_lookup(entries, tok) == Some(entries[j].val),
{
    lemma_obj_lookup_unique_from(entries, tok, j, 0);
}

/// Helper for [`lemma_obj_lookup_unique`], generalized over the start
/// position.
proof fn lemma_obj_lookup_unique_from(entries: Seq<ObjEntry>, tok: usize, j: int, i: int)
    requires
        obj_keys_unique(entries),
        0 <= i <= j < entries.len(),
        entries[j].key.tok == tok,
    ensures
        obj_lookup_from(entries, tok, i) == Some(entries[j].val),
    decreases j - i,
{
    if entries[i].key.tok == tok {
        if i != j {
            assert(entries[i].key.tok != entries[j].key.tok);
        }
    } else {
        lemma_obj_lookup_unique_from(entries, tok, j, i + 1);
    }
}

/// A deep copy of a well-formed value is well-formed: content equality
/// keeps field names and their tokens, so key uniqueness carries over.
pub proof fn lemma_litr_eq_preserves_wf(a: Litr, b: Litr)
    requires
        litr_eq(a, b),
        litr_wf(a),
    ensures
        litr_wf(b),
    decreases a,
{
    match a {
        Litr::List(x) => {
            if let Litr::List(y) = b {
                assert forall|i: int| 0 <= i < y@.len() implies litr_wf(#[trigger] y@[i]) by {
                    assert(litr_eq(x@[i], y@[i]));
                    assert(litr_wf(x@[i]));
                    lemma_litr_eq_preserves_wf(x@[i], y@[i]);
                }
            }
        }
        Litr::Obj(x) => {
            if let Litr::Obj(y) = b {
                assert forall|i: int, j: int| 0 <= i < j < y@.len() implies (
                #[trigger] y@[i]).key.tok != (#[trigger] y@[j]).key.tok by {
                    assert(obj_entry_eq(x@[i], y@[i]));
                    assert(obj_entry_eq(x@[j], y@[j]));
                    assert(x@[i].key.tok != x@[j].key.tok);
                }
                assert forall|i: int| 0 <= i < y@.len() implies litr_wf((#[trigger] y@[i]).val) by {
                    assert(obj_entry_eq(x@[i], y@[i]));
                    assert(litr_wf(x@[i].val));
                    lemma_litr_eq_preserves_wf(x@[i].val, y@[i].val);
                }
            }
        }
        _ => {}
    }
}

/// Deep content equality is reflexive.
pub proof fn lemma_litr_eq_reflexive(a: Litr)
    ensures
        litr_eq(a, a),
    decreases a,
{
    match a {
        Litr::List(x) => {
            assert forall|i: int| 0 <= i < x@.len() implies litr_eq(#[trigger] x@[i], x@[i]) by {
                lemma_litr_eq_reflexive(x@[i]);
            }
        }
        Litr::Obj(x) => {
            assert forall|i: int| 0 <= i < x@.len() implies obj_entry_eq(#[trigger] x@[i], x@[i]) by {
                lemma_litr_eq_reflexive(x@[i].val);
            }
        }
        _ => {}
    }
}

/// True when no host closure occurs anywhere inside the value. Copying
/// such a value touches no outlive counter.
pub open spec fn closure_free(v: Litr) -> bool
    decreases v,
{
    match v {
        Litr::Func(f) => !(f is Local),
        Litr::List(x) => forall|i: int| 0 <= i < x@.len() ==> closure_free(#[trigger] x@[i]),
        Litr::Obj(x) => forall|i: int| 0 <= i < x@.len() ==> closure_free((#[trigger] x@[i]).val),
        _ => true,
    }
}

/// True when every host closure inside the value captures a scope the
/// host still has. Copying can only fail on a closure whose scope is gone
/// or whose counter is out of room, so this is half of [`copy_ready`].
pub open spec fn closures_live(v: Litr, h: Host) -> bool
    decreases v,
{
    match v {
        Litr::Func(f) => f matches Function::Local(lf) ==> lf.scope.id < h.scopes@.len(),
        Litr::List(x) => forall|i: int| 0 <= i < x@.len() ==> closures_live(#[trigger] x@[i], h),
        Litr::Obj(x) => forall|i: int|
            0 <= i < x@.len() ==> closures_live((#[trigger] x@[i]).val, h),
        _ => true,
    }
}

/// How many host-closure handles inside the value capture scope `sid`:
/// exactly the number of outlive units a deep copy of the value adds to
/// that scope.
pub open spec fn closure_units(v: Litr, sid: int) -> nat
    decreases v, 0int,
{
    match v {
        Litr::Func(f) => match f {
            Function::Local(lf) => if lf.scope.id == sid {
                1nat
            } else {
                0nat
            },
            _ => 0nat,
        },
        Litr::List(x) => list_units_from(x@, sid, 0),
        Litr::Obj(x) => obj_units_from(x@, sid, 0),
        _ => 0nat,
    }
}

/// The closure units of the elements of `s` from position `i` on.
pub open spec fn list_units_from(s: Seq<Litr>, sid: int, i: int) -> nat
    decreases s, s.len() - i,
{
    if i < 0 || i >= s.len() {
        0nat
    } else {
        closure_units(s[i], sid) + list_units_from(s, sid, i + 1)
    }
}

/// The closure units of the field values of `s` from position `i` on.
pub open spec fn obj_units_from(s: Seq<ObjEntry>, sid: int, i: int) -> nat
    decreases s, s.len() - i,
{
    if i < 0 || i >= s.len() {
        0nat
    } else {
        closure_units(s[i].val, sid) + obj_units_from(s, sid, i + 1)
    }
}

/// Whether the closures inside a value capture live scopes depends only
/// on how many scopes the host has.
pub proof fn lemma_closures_live_same_len(v: Litr, h1: Host, h2: Host)
    requires
        h1.scopes@.len() == h2.scopes@.len(),
    ensures
        closures_live(v, h1) <==> closures_live(v, h2),
    decreases v,
{
    match v {
        Litr::List(x) => {
            assert forall|i: int| 0 <= i < x@.len() implies (closures_live(#[trigger] x@[i], h1)
                <==> closures_live(x@[i], h2)) by {
                lemma_closures_live_same_len(x@[i], h1, h2);
            }
        }
        Litr::Obj(x) => {
            assert forall|i: int| 0 <= i < x@.len() implies (closures_live(
                (#[trigger] x@[i]).val,
                h1,
            ) <==> closures_live(x@[i].val, h2)) by {
                lemma_closures_live_same_len(x@[i].val, h1, h2);
            }
        }
        _ => {}
    }
}

/// True when a deep copy of the value is owed to succeed against the
/// given host: every closure inside captures a live scope, and every
/// scope's outlive counter has room for all the units this one copy adds
/// to it.
pub open spec fn copy_ready(v: Litr, h: Host) -> bool {
    &&& closures_live(v, h)
    &&& forall|sid: int| 0 <= sid < h.scopes@.len()
        ==> (#[trigger] h.scopes@[sid]).outlive + closure_units(v, sid) <= u64::MAX
}

impl Litr {
    /// The default deep copy of a value: every variant is duplicated by
    /// content. A native instance is copied bit-for-bit here — routing a
    /// copy through its class's clone hook is the dispatch layer's duty,
    /// not the value model's. A host closure inside the value is copied by
    /// handle, and the outlive counter of its scope is incremented so that
    /// the copy's later destruction stays balanced: on success each
    /// scope's counter grows by exactly the number of closure handles
    /// inside the value that capture it. The counters are the one reason
    /// the copy can fail (before bootstrap, or on a dead scope, or on a
    /// counter out of room); a [`copy_ready`] value is owed success, and
    /// a closure-free value never fails and leaves the module state
    /// untouched.
    #[verifier::loop_isolation(false)]
    pub fn deep_copy(&self, ctx: &mut ModuleCtx) -> (r: Result<Litr, Fault>)
        requires
            old(ctx).wf(),
        ensures
            final(ctx).wf(),
            old(ctx).bound() <==> final(ctx).bound(),
            !old(ctx).bound() ==> *final(ctx) == *old(ctx),
            old(ctx).bound() ==> {
                &&& eq_mod_outlive(old(ctx).host(), final(ctx).host())
                &&& outlive_monotone(old(ctx).host(), final(ctx).host())
            },
            closure_free(*self) ==> *final(ctx) == *old(ctx),
            (old(ctx).bound() && copy_ready(*self, old(ctx).host())) ==> r is Ok,
            match r {
                Ok(c) => {
                    &&& litr_eq(c, *self)
                    &&& (old(ctx).bound() ==> forall|sid: int|
                        0 <= sid < old(ctx).host().scopes@.len()
                            ==> (#[trigger] final(ctx).host().scopes@[sid]).outlive
                                == old(ctx).host().scopes@[sid].outlive
                                + closure_units(*self, sid))
                },
                Err(f) => {
                    &&& !closure_free(*self)
                    &&& (f is Unbound <==> !old(ctx).bound())
                    &&& (f is Unbound || f is BadScope || f is OutliveOverflow)
                },
            },
        decreases *self,
    {
        match self {
            Litr::Uninit => Ok(Litr::Uninit),
            Litr::Int(x) => Ok(Litr::Int(*x)),
            Litr::Uint(x) => Ok(Litr::Uint(*x)),
            Litr::Float(x) => Ok(Litr::Float(*x)),
            Litr::Bool(x) => Ok(Litr::Bool(*x)),
            Litr::Str(s) => Ok(Litr::Str(s.clone())),
            Litr::Buf(b) => Ok(Litr::Buf(crate::ident::clone_bytes(b))),
            Litr::Inst(x) => Ok(Litr::Inst(*x)),
            Litr::Ninst(x) => Ok(Litr::Ninst(*x)),
            Litr::Sym(x) => Ok(Litr::Sym(*x)),
            Litr::Func(f) => match f {
                Function::Native(nf) => Ok(Litr::Func(Function::Native(*nf))),
                Function::Extern(e) => Ok(Litr::Func(Function::Extern(*e))),
                Function::Local(lf) => {
                    match ctx.outlive_inc(lf.scope) {
                        Ok(()) => {
                            proof {
                                lemma_outlive_adjusted_is_eq_mod_outlive(
                                    old(ctx).host(),
                                    ctx.host(),
                                    lf.scope.id as int,
                                    1,
                                );
                                assert forall|sid: int|
                                    0 <= sid < old(ctx).host().scopes@.len() implies (
                                #[trigger] ctx.host().scopes@[sid]).outlive == old(
                                    ctx,
                                ).host().scopes@[sid].outlive + closure_units(*self, sid) by {
                                    if sid != lf.scope.id {
                                        assert(ctx.host().scopes@[sid] == old(
                                            ctx,
                                        ).host().scopes@[sid]);
                                    }
                                }
                            }
                            Ok(Litr::Func(Function::Local(LocalFunc {
                                ptr: lf.ptr,
                                scope: lf.scope,
                            })))
                        }
                        Err(e) => {
                            proof {
                                if old(ctx).bound() && copy_ready(*self, old(ctx).host()) {
                                    assert(lf.scope.id < old(ctx).host().scopes@.len());
                                    assert(closure_units(*self, lf.scope.id as int) == 1);
                                    assert(old(ctx).host().scopes@[lf.scope.id as int].outlive
                                        < u64::MAX);
                                    assert(false);
                                }
                            }
                            Err(e)
                        }
                    }
                }
            },
            Litr::List(v) => {
                let mut out: Vec<Litr> = Vec::new();
                let n = v.len();
                let mut i: usize = 0;
                while i < n
                    invariant
                        ctx.wf(),
                        n == v@.len(),
                        0 <= i <= n,
                        out@.len() == i,
                        forall|k: int| 0 <= k < i ==> litr_eq(#[trigger] out@[k], v@[k]),
                        *self == Litr::List(*v),
                        old(ctx).bound() <==> ctx.bound(),
                        !old(ctx).bound() ==> *ctx == *old(ctx),
                        old(ctx).bound() ==> {
                            &&& eq_mod_outlive(old(ctx).host(), ctx.host())
                            &&& outlive_monotone(old(ctx).host(), ctx.host())
                        },
                        old(ctx).bound() ==> forall|sid: int|
                            0 <= sid < old(ctx).host().scopes@.len()
                                ==> (#[trigger] ctx.host().scopes@[sid]).outlive
                                    + list_units_from(v@, sid, i as int)
                                    == old(ctx).host().scopes@[sid].outlive
                                    + list_units_from(v@, sid, 0),
                        (forall|k: int| 0 <= k < i ==> closure_free(#[trigger] v@[k]))
                            ==> *ctx == *old(ctx),
                    decreases n - i,
                {
                    let ghost prev = *ctx;
                    match v[i].deep_copy(ctx) {
                        Ok(c) => {
                            proof {
                                if old(ctx).bound() {
                                    lemma_eq_mod_outlive_trans(
                                        old(ctx).host(),
                                        prev.host(),
                                        ctx.host(),
                                    );
                                    assert forall|sid: int|
                                        0 <= sid < old(ctx).host().scopes@.len() implies (
                                    #[trigger] ctx.host().scopes@[sid]).outlive
                                        + list_units_from(v@, sid, i + 1) == old(
                                        ctx,
                                    ).host().scopes@[sid].outlive + list_units_from(v@, sid, 0) by {
                                        assert(list_units_from(v@, sid, i as int)
                                            == closure_units(v@[i as int], sid)
                                            + list_units_from(v@, sid, i + 1));
                                    }
                                }
                            }
                            out.push(c);
                        }
                        Err(e) => {
                            proof {
                                if old(ctx).bound() {
                                    lemma_eq_mod_outlive_trans(
                                        old(ctx).host(),
                                        prev.host(),
                                        ctx.host(),
                                    );
                                    if copy_ready(*self, old(ctx).host()) {
                                        lemma_closures_live_same_len(
                                            v@[i as int],
                                            old(ctx).host(),
                                            prev.host(),
                                        );
                                        assert(closures_live(v@[i as int], old(ctx).host()));
                                        assert forall|sid: int|
                                            0 <= sid < prev.host().scopes@.len() implies (
                                        #[trigger] prev.host().scopes@[sid]).outlive
                                            + closure_units(v@[i as int], sid) <= u64::MAX by {
                                            assert(list_units_from(v@, sid, i as int)
                                                == closure_units(v@[i as int], sid)
                                                + list_units_from(v@, sid, i + 1));
                                            assert(old(ctx).host().scopes@[sid].outlive
                                                + closure_units(Litr::List(*v), sid) <= u64::MAX);
                                        }
                                        assert(copy_ready(v@[i as int], prev.host()));
                                        assert(false);
                                    }
                                }
                                assert(!closure_free(v@[i as int]));
                                assert(!closure_free(Litr::List(*v))) by {
                                    if closure_free(Litr::List(*v)) {
                                        assert(closure_free(v@[i as int]));
                                    }
                                }
                            }
                            return Err(e);
                        }
                    }
                    i += 1;
                }
                proof {
                    if old(ctx).bound() {
                        assert forall|sid: int| 0 <= sid < old(ctx).host().scopes@.len() implies (
                        #[trigger] ctx.host().scopes@[sid]).outlive == old(
                            ctx,
                        ).host().scopes@[sid].outlive + closure_units(*self, sid) by {
                            assert(list_units_from(v@, sid, n as int) == 0);
                        }
                    }
                }
                Ok(Litr::List(out))
            }
            Litr::Obj(entries) => {
                let mut out: Vec<ObjEntry> = Vec::new();
                let n = entries.len();
                let mut i: usize = 0;
                while i < n
                    invariant
                        ctx.wf(),
                        n == entries@.len(),
                        0 <= i <= n,
                        out@.len() == i,
                        forall|k: int| 0 <= k < i ==> obj_entry_eq(#[trigger] out@[k], entries@[k]),
                        *self == Litr::Obj(*entries),
                        old(ctx).bound() <==> ctx.bound(),
                        !old(ctx).bound() ==> *ctx == *old(ctx),
                        old(ctx).bound() ==> {
                            &&& eq_mod_outlive(old(ctx).host(), ctx.host())
                            &&& outlive_monotone(old(ctx).host(), ctx.host())
                        },
                        old(ctx).bound() ==> forall|sid: int|
                            0 <= sid < old(ctx).host().scopes@.len()
                                ==> (#[trigger] ctx.host().scopes@[sid]).outlive
                                    + obj_units_from(entries@, sid, i as int)
                                    == old(ctx).host().scopes@[sid].outlive
                                    + obj_units_from(entries@, sid, 0),
                        (forall|k: int| 0 <= k < i ==> closure_free((#[trigger] entries@[k]).val))
                            ==> *ctx == *old(ctx),
                    decreases n - i,
                {
                    let ghost prev = *ctx;
                    match entries[i].val.deep_copy(ctx) {
                        Ok(c) => {
                            proof {
                                if old(ctx).bound() {
                                    lemma_eq_mod_outlive_trans(
                                        old(ctx).host(),
                                        prev.host(),
                                        ctx.host(),
                                    );
                                    assert forall|sid: int|
                                        0 <= sid < old(ctx).host().scopes@.len() implies (
                                    #[trigger] ctx.host().scopes@[sid]).outlive
                                        + obj_units_from(entries@, sid, i + 1) == old(
                                        ctx,
                                    ).host().scopes@[sid].outlive + obj_units_from(
                                        entries@,
                                        sid,
                                        0,
                                    ) by {
                                        assert(obj_units_from(entries@, sid, i as int)
                                            == closure_units(entries@[i as int].val, sid)
                                            + obj_units_from(entries@, sid, i + 1));
                                    }
                                }
                            }
                            out.push(ObjEntry { key: entries[i].key.dup(), val: c });
                        }
                        Err(e) => {
                            proof {
                                if old(ctx).bound() {
                                    lemma_eq_mod_outlive_trans(
                                        old(ctx).host(),
                                        prev.host(),
                                        ctx.host(),
                                    );
                                    if copy_ready(*self, old(ctx).host()) {
                                        lemma_closures_live_same_len(
                                            entries@[i as int].val,
                                            old(ctx).host(),
                                            prev.host(),
                                        );
                                        assert(closures_live(
                                            entries@[i as int].val,
                                            old(ctx).host(),
                                        ));
                                        assert forall|sid: int|
                                            0 <= sid < prev.host().scopes@.len() implies (
                                        #[trigger] prev.host().scopes@[sid]).outlive
                                            + closure_units(entries@[i as int].val, sid)
                                            <= u64::MAX by {
                                            assert(obj_units_from(entries@, sid, i as int)
                                                == closure_units(entries@[i as int].val, sid)
                                                + obj_units_from(entries@, sid, i + 1));
                                            assert(old(ctx).host().scopes@[sid].outlive
                                                + closure_units(Litr::Obj(*entries), sid)
                                                <= u64::MAX);
                                        }
                                        assert(copy_ready(entries@[i as int].val, prev.host()));
                                        assert(false);
                                    }
                                }
                                assert(!closure_free(entries@[i as int].val));
                                assert(!closure_free(Litr::Obj(*entries))) by {
                                    if closure_free(Litr::Obj(*entries)) {
                                        assert(closure_free((entries@[i as int]).val));
                                    }
                                }
                            }
                            return Err(e);
                        }
                    }
                    i += 1;
                }
                proof {
                    if old(ctx).bound() {
                        assert forall|sid: int| 0 <= sid < old(ctx).host().scopes@.len() implies (
                        #[trigger] ctx.host().scopes@[sid]).outlive == old(
                            ctx,
                        ).host().scopes@[sid].outlive + closure_units(*self, sid) by {
                            assert(obj_units_from(entries@, sid, n as int) == 0);
                        }
                    }
                }
                Ok(Litr::Obj(out))
            }
        }
    }
}

/// The host syntax-symbol namespace.
#[derive(Debug)]
pub struct Sym;

impl Sym {
    /// True when a value is a syntax symbol.
    pub fn is_sym(v: &Litr) -> (r: bool)
        ensures
            r <==> *v is Sym,
    {
        match v {
            Litr::Sym(_) => true,
            _ => false,
        }
    }

    /// The end-of-iteration sentinel as a value.
    pub fn iter_end() -> (r: Litr)
        ensures
            r == Litr::Sym(Symbol::IterEnd),
    {
        Litr::Sym(Symbol::IterEnd)
    }
}

} // verus!
