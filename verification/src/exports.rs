//! The module export surface.
//!
//! The host hands the bootstrap call two empty growable containers; the
//! module appends its name-tagged exported functions and its fully
//! configured classes. When bootstrap returns, the host takes the
//! containers as the module's permanent, thereafter-immutable export
//! surface. A class must be fully set up before it is exported.

use vstd::prelude::*;
use crate::class::{entry_appended, Class, ClassRegistry};
use crate::fault::Fault;
use crate::funcs::NativeFn;
use crate::ident::{intern_table, intern_tok, Ident};
use crate::table::ModuleCtx;
use vstd::string::StringSliceAdditionalSpecFns;

verus! {

/// The writable export containers passed into the bootstrap call.
#[derive(Debug)]
pub struct NativeModule {
    /// The exported free functions, tagged with their interned names.
    pub funcs: Vec<(Ident, NativeFn)>,
    /// The exported classes.
    pub classes: Vec<Class>,
}

impl NativeModule {
    /// The empty containers the host supplies to bootstrap.
    pub fn new() -> (r: NativeModule)
        ensures
            r.funcs@.len() == 0,
            r.classes@.len() == 0,
    {
        NativeModule { funcs: Vec::new(), classes: Vec::new() }
    }

    /// Exports a function under a name: interns the name and appends the
    /// tagged entry.
    pub fn export_fn(&mut self, ctx: &mut ModuleCtx, name: &str, f: NativeFn) -> (r: Result<
        (),
        Fault,
    >)
        requires
            old(ctx).wf(),
        ensures
            final(ctx).wf(),
            old(ctx).bound() <==> final(ctx).bound(),
            final(self).classes == old(self).classes,
            match r {
                Ok(()) => {
                    &&& old(ctx).bound()
                    &&& final(ctx).host().interner@ == intern_table(
                        old(ctx).host().interner@,
                        name.spec_bytes(),
                    )
                    &&& final(ctx).host().scopes == old(ctx).host().scopes
                    &&& entry_appended(
                        old(self).funcs@,
                        final(self).funcs@,
                        intern_tok(old(ctx).host().interner@, name.spec_bytes()) as usize,
                        name.spec_bytes(),
                        f,
                    )
                },
                Err(e) => {
                    &&& e is Unbound
                    &&& !old(ctx).bound()
                    &&& *final(self) == *old(self)
                    &&& *final(ctx) == *old(ctx)
                },
            },
    {
        let id = ctx.intern(name.as_bytes())?;
        self.funcs.push((id, f));
        Ok(())
    }

    /// Exports a class. Only a class whose vtable is set up can be
    /// exported; methods may still be appended to it afterwards, until
    /// the host freezes the surface when bootstrap returns.
    pub fn export_cls(&mut self, reg: &ClassRegistry, cls: Class) -> (r: Result<(), Fault>)
        ensures
            final(self).funcs == old(self).funcs,
            match r {
                Ok(()) => {
                    &&& reg.initialized(cls)
                    &&& final(self).classes@ == old(self).classes@.push(cls)
                },
                Err(f) => {
                    &&& *final(self) == *old(self)
                    &&& crate::class::class_gate_fault(*reg, cls, f)
                },
            },
    {
        if cls.id >= reg.slots.len() {
            return Err(Fault::BadClass);
        }
        match &reg.slots[cls.id] {
            None => Err(Fault::ClassUninit),
            Some(_) => {
                self.classes.push(cls);
                Ok(())
            }
        }
    }
}

} // verus!
