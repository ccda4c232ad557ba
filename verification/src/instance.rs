//! Native instances and the storage their two opaque slots point into.
//!
//! An instance is exactly two machine words plus a non-owning class
//! handle. The module may store any bit pattern in the words; when a word
//! stands for an owned resource, it is an index into the module's
//! [`ResourceArena`], handed out by [`to_ptr`], and must be released
//! exactly once through [`Instance::dropv`] or [`Instance::dropw`].

use vstd::prelude::*;
use crate::class::{Class, ClassRegistry, Hook};
use crate::fault::Fault;

verus! {

/// A native type instance: two opaque machine-word slots and the handle of
/// the owning class. The host never interprets `v` and `w`; every
/// structural operation is routed through the class vtable.
#[derive(Debug, PartialEq, Eq, Clone, Copy, Structural)]
pub struct Instance {
    /// The first opaque slot.
    pub v: usize,
    /// The second opaque slot.
    pub w: usize,
    /// The owning class.
    pub cls: Class,
}

/// The module-owned storage that instance slot words may point into: one
/// cell per live resource. A slot word of 0 is the null word; a nonzero
/// word `p` stands for cell `p - 1`. A released cell stays unoccupied, so
/// a second release through the same word is detected instead of
/// corrupting memory.
#[derive(Debug)]
pub struct ResourceArena<T> {
    pub cells: Vec<Option<T>>,
}

impl<T> ResourceArena<T> {
    /// An arena with no live resources.
    pub fn new() -> (r: ResourceArena<T>)
        ensures
            r.cells@.len() == 0,
    {
        ResourceArena { cells: Vec::new() }
    }

    /// True when the slot word `p` names a live cell of this arena.
    pub open spec fn live(&self, p: usize) -> bool {
        &&& 1 <= p <= self.cells@.len()
        &&& self.cells@[p - 1] is Some
    }

    /// The resource a live slot word stands for.
    pub open spec fn stored(&self, p: usize) -> T
        recommends
            self.live(p),
    {
        self.cells@[p - 1]->0
    }
}

impl Instance {
    /// Reads the resource the first slot word points at.
    pub fn read<'a, T>(&self, arena: &'a ResourceArena<T>) -> (r: Result<&'a T, Fault>)
        ensures
            match r {
                Ok(x) => {
                    &&& arena.live(self.v)
                    &&& *x == arena.stored(self.v)
                },
                Err(f) => {
                    &&& f is BadResource
                    &&& !arena.live(self.v)
                },
            },
    {
        read_cell(arena, self.v)
    }

    /// Reads the resource the second slot word points at.
    pub fn readw<'a, T>(&self, arena: &'a ResourceArena<T>) -> (r: Result<&'a T, Fault>)
        ensures
            match r {
                Ok(x) => {
                    &&& arena.live(self.w)
                    &&& *x == arena.stored(self.w)
                },
                Err(f) => {
                    &&& f is BadResource
                    &&& !arena.live(self.w)
                },
            },
    {
        read_cell(arena, self.w)
    }

    /// Releases the resource behind a slot word. The defensive checks of
    /// the boundary live here: releasing through the null word fails fast
    /// — and reports whether the owning class still carries the default
    /// copy hook, the usual cause of a cleared slot — as does releasing a
    /// cell that is gone already, instead of corrupting memory.
    fn dealloc<T>(&self, reg: &ClassRegistry, arena: &mut ResourceArena<T>, p: usize) -> (r: Result<
        (),
        Fault,
    >)
        ensures
            match r {
                Ok(()) => {
                    &&& reg.initialized(self.cls)
                    &&& old(arena).live(p)
                    &&& final(arena).cells@ == old(arena).cells@.update(p - 1, None)
                },
                Err(f) => {
                    &&& *final(arena) == *old(arena)
                    &&& (f is BadClass || f is ClassUninit || f is NullRelease
                        || f is BadResource)
                    &&& (f is ClassUninit || f is BadClass <==> !reg.initialized(self.cls))
                    &&& (reg.initialized(self.cls) ==> {
                        &&& (f is NullRelease <==> p == 0)
                        &&& (f matches Fault::NullRelease { onclone_default }
                            ==> (onclone_default <==> reg.vtable(self.cls).onclone is Default))
                        &&& (f is BadResource <==> p != 0 && !old(arena).live(p))
                    })
                },
            },
    {
        if self.cls.id >= reg.slots.len() {
            return Err(Fault::BadClass);
        }
        let onclone_default = match &reg.slots[self.cls.id] {
            None => {
                return Err(Fault::ClassUninit);
            }
            Some(vt) => match vt.onclone {
                Hook::Default => true,
                Hook::Custom(_) => false,
            },
        };
        if p == 0 {
            return Err(Fault::NullRelease { onclone_default });
        }
        if p <= arena.cells.len() {
            match &arena.cells[p - 1] {
                Some(_) => {
                    arena.cells[p - 1] = None;
                    Ok(())
                }
                None => Err(Fault::BadResource),
            }
        } else {
            Err(Fault::BadResource)
        }
    }

    /// Releases the resource the first slot word owns and clears the
    /// word, so a second release is caught by the null check.
    pub fn dropv<T>(&mut self, reg: &ClassRegistry, arena: &mut ResourceArena<T>) -> (r: Result<
        (),
        Fault,
    >)
        ensures
            final(self).w == old(self).w,
            final(self).cls == old(self).cls,
            match r {
                Ok(()) => {
                    &&& reg.initialized(old(self).cls)
                    &&& old(arena).live(old(self).v)
                    &&& final(arena).cells@ == old(arena).cells@.update(old(self).v - 1, None)
                    &&& final(self).v == 0
                },
                Err(f) => {
                    &&& *final(self) == *old(self)
                    &&& *final(arena) == *old(arena)
                    &&& (f is BadClass || f is ClassUninit || f is NullRelease
                        || f is BadResource)
                    &&& (f is ClassUninit || f is BadClass <==> !reg.initialized(old(self).cls))
                    &&& (reg.initialized(old(self).cls) ==> {
                        &&& (f is NullRelease <==> old(self).v == 0)
                        &&& (f matches Fault::NullRelease { onclone_default }
                            ==> (onclone_default <==> reg.vtable(old(self).cls).onclone is Default))
                        &&& (f is BadResource <==> old(self).v != 0 && !old(arena).live(old(self).v))
                    })
                },
            },
    {
        let p = self.v;
        match self.dealloc(reg, arena, p) {
            Ok(()) => {
                self.v = 0;
                Ok(())
            }
            Err(f) => Err(f),
        }
    }

    /// Releases the resource the second slot word owns and clears the
    /// word.
    pub fn dropw<T>(&mut self, reg: &ClassRegistry, arena: &mut ResourceArena<T>) -> (r: Result<
        (),
        Fault,
    >)
        ensures
            final(self).v == old(self).v,
            final(self).cls == old(self).cls,
            match r {
                Ok(()) => {
                    &&& reg.initialized(old(self).cls)
                    &&& old(arena).live(old(self).w)
                    &&& final(arena).cells@ == old(arena).cells@.update(old(self).w - 1, None)
                    &&& final(self).w == 0
                },
                Err(f) => {
                    &&& *final(self) == *old(self)
                    &&& *final(arena) == *old(arena)
                    &&& (f is BadClass || f is ClassUninit || f is NullRelease
                        || f is BadResource)
                    &&& (f is ClassUninit || f is BadClass <==> !reg.initialized(old(self).cls))
                    &&& (reg.initialized(old(self).cls) ==> {
                        &&& (f is NullRelease <==> old(self).w == 0)
                        &&& (f matches Fault::NullRelease { onclone_default }
                            ==> (onclone_default <==> reg.vtable(old(self).cls).onclone is Default))
                        &&& (f is BadResource <==> old(self).w != 0 && !old(arena).live(old(self).w))
                    })
                },
            },
    {
        let p = self.w;
        match self.dealloc(reg, arena, p) {
            Ok(()) => {
                self.w = 0;
                Ok(())
            }
            Err(f) => Err(f),
        }
    }

    /// Releases the old resource behind the first slot word and stores a
    /// new one there. The slot must own a live resource before the call:
    /// the release-exactly-once discipline allows no silent overwrite.
    pub fn set<T>(&mut self, reg: &ClassRegistry, arena: &mut ResourceArena<T>, val: T) -> (r:
        Result<(), Fault>)
        requires
            old(arena).cells@.len() < usize::MAX,
        ensures
            final(self).w == old(self).w,
            final(self).cls == old(self).cls,
            match r {
                Ok(()) => {
                    &&& reg.initialized(old(self).cls)
                    &&& old(arena).live(old(self).v)
                    &&& final(arena).live(final(self).v)
                    &&& final(arena).stored(final(self).v) == val
                    &&& !final(arena).live(old(self).v)
                    &&& forall|q: usize| q != final(self).v && q != old(self).v
                        ==> (final(arena).live(q) <==> old(arena).live(q))
                    &&& forall|q: usize| q != final(self).v && q != old(self).v
                        && old(arena).live(q) ==> final(arena).stored(q) == old(arena).stored(q)
                },
                Err(f) => {
                    &&& *final(self) == *old(self)
                    &&& *final(arena) == *old(arena)
                    &&& (f is BadClass || f is ClassUninit || f is NullRelease
                        || f is BadResource)
                    &&& (f is ClassUninit || f is BadClass <==> !reg.initialized(old(self).cls))
                    &&& (reg.initialized(old(self).cls) ==> {
                        &&& (f is NullRelease <==> old(self).v == 0)
                        &&& (f is BadResource <==> old(self).v != 0 && !old(arena).live(old(self).v))
                    })
                },
            },
    {
        match self.dropv(reg, arena) {
            Ok(()) => {
                self.v = to_ptr(arena, val);
                Ok(())
            }
            Err(f) => Err(f),
        }
    }

    /// Releases the old resource behind the second slot word and stores a
    /// new one there.
    pub fn setw<T>(&mut self, reg: &ClassRegistry, arena: &mut ResourceArena<T>, val: T) -> (r:
        Result<(), Fault>)
        requires
            old(arena).cells@.len() < usize::MAX,
        ensures
            final(self).v == old(self).v,
            final(self).cls == old(self).cls,
            match r {
                Ok(()) => {
                    &&& reg.initialized(old(self).cls)
                    &&& old(arena).live(old(self).w)
                    &&& final(arena).live(final(self).w)
                    &&& final(arena).stored(final(self).w) == val
                    &&& !final(arena).live(old(self).w)
                    &&& forall|q: usize| q != final(self).w && q != old(self).w
                        ==> (final(arena).live(q) <==> old(arena).live(q))
                    &&& forall|q: usize| q != final(self).w && q != old(self).w
                        && old(arena).live(q) ==> final(arena).stored(q) == old(arena).stored(q)
                },
                Err(f) => {
                    &&& *final(self) == *old(self)
                    &&& *final(arena) == *old(arena)
                    &&& (f is BadClass || f is ClassUninit || f is NullRelease
                        || f is BadResource)
                    &&& (f is ClassUninit || f is BadClass <==> !reg.initialized(old(self).cls))
                    &&& (reg.initialized(old(self).cls) ==> {
                        &&& (f is NullRelease <==> old(self).w == 0)
                        &&& (f is BadResource <==> old(self).w != 0 && !old(arena).live(old(self).w))
                    })
                },
            },
    {
        match self.dropw(reg, arena) {
            Ok(()) => {
                self.w = to_ptr(arena, val);
                Ok(())
            }
            Err(f) => Err(f),
        }
    }
}

/// Reads the arena cell a slot word points at.
fn read_cell<'a, T>(arena: &'a ResourceArena<T>, p: usize) -> (r: Result<&'a T, Fault>)
    ensures
        match r {
            Ok(x) => {
                &&& arena.live(p)
                &&& *x == arena.stored(p)
            },
            Err(f) => {
                &&& f is BadResource
                &&& !arena.live(p)
            },
        },
{
    if 1 <= p && p <= arena.cells.len() {
        match &arena.cells[p - 1] {
            Some(x) => Ok(x),
            None => Err(Fault::BadResource),
        }
    } else {
        Err(Fault::BadResource)
    }
}

/// Boxes a value into the arena and returns the slot word standing for
/// it: the word is fresh, nonzero, and the only live word for the new
/// cell. This is the single way a value becomes instance-slot storage.
pub fn to_ptr<T>(arena: &mut ResourceArena<T>, val: T) -> (p: usize)
    requires
        old(arena).cells@.len() < usize::MAX,
    ensures
        p == old(arena).cells@.len() + 1,
        final(arena).cells@ == old(arena).cells@.push(Some(val)),
        final(arena).live(p),
        final(arena).stored(p) == val,
        forall|q: usize| q != p ==> (final(arena).live(q) <==> old(arena).live(q)),
        forall|q: usize| q != p && old(arena).live(q) ==> final(arena).stored(q) == old(arena).stored(q),
{
    let ghost before = arena.cells@;
    arena.cells.push(Some(val));
    let p = arena.cells.len();
    proof {
        assert(arena.cells@[p - 1] == Some(val));
        assert forall|q: usize| q != p implies (arena.live(q) <==> ResourceArena { cells: old(arena).cells }.live(q)) by {
            if 1 <= q <= before.len() {
                assert(arena.cells@[q - 1] == before[q - 1]);
            }
        }
    }
    p
}

} // verus!
