use key_native::class::{
    dispatch_clone, dispatch_drop, dispatch_getter, dispatch_index_get, dispatch_index_set,
    dispatch_next, dispatch_setter, dispatch_to_str, Class, ClassRegistry, Flow,
};
use key_native::exports::NativeModule;
use key_native::fault::Fault;
use key_native::funcs::{HookFn, NativeFn, NativeMethod};
use key_native::ident::Interner;
use key_native::instance::{to_ptr, Instance, ResourceArena};
use key_native::scope::Host;
use key_native::table::{intern, premain, FuncTable, ModuleCtx};
use key_native::value::{Litr, Sym, Symbol};

fn bound_ctx() -> ModuleCtx {
    let mut ctx = ModuleCtx::new();
    premain(&mut ctx, FuncTable { host: Host::new() }).unwrap();
    ctx
}

fn ready_class(reg: &mut ClassRegistry, ctx: &mut ModuleCtx, name: &str) -> Class {
    let cls = Class::uninit(reg);
    cls.new(reg, ctx, name).unwrap();
    cls
}

#[test]
fn use_before_init_fails_fast() {
    let mut reg = ClassRegistry::new();
    let mut ctx = bound_ctx();
    let cls = Class::uninit(&mut reg);
    assert!(matches!(cls.create_raw(&reg, 0, 0), Err(Fault::ClassUninit)));
    assert!(matches!(cls.create(&reg, 0, 0), Err(Fault::ClassUninit)));
    assert!(matches!(
        cls.method(&mut reg, &mut ctx, "m", NativeMethod { id: 1 }),
        Err(Fault::ClassUninit)
    ));
    assert!(matches!(
        cls.static_method(&mut reg, &mut ctx, "s", NativeFn { id: 1 }),
        Err(Fault::ClassUninit)
    ));
    assert!(matches!(cls.next(&mut reg, HookFn { id: 1 }), Err(Fault::ClassUninit)));
    let inst = Instance { v: 0, w: 0, cls };
    assert!(matches!(dispatch_next(&reg, &inst), Err(Fault::ClassUninit)));
}

#[test]
fn foreign_class_handle_is_refused() {
    let reg = ClassRegistry::new();
    let stray = Class { id: 3 };
    assert!(matches!(stray.create_raw(&reg, 0, 0), Err(Fault::BadClass)));
    let inst = Instance { v: 0, w: 0, cls: stray };
    assert!(matches!(dispatch_clone(&reg, &inst), Err(Fault::BadClass)));
}

#[test]
fn double_init_fails_fast() {
    let mut reg = ClassRegistry::new();
    let mut ctx = bound_ctx();
    let cls = ready_class(&mut reg, &mut ctx, "A");
    let again = cls.new(&mut reg, &mut ctx, "A");
    assert!(matches!(again, Err(Fault::ClassAlreadyInit)));
}

#[test]
fn first_registered_static_wins() {
    let mut reg = ClassRegistry::new();
    let mut ctx = bound_ctx();
    let cls = ready_class(&mut reg, &mut ctx, "A");
    cls.static_method(&mut reg, &mut ctx, "new", NativeFn { id: 1 }).unwrap();
    cls.static_method(&mut reg, &mut ctx, "new", NativeFn { id: 2 }).unwrap();
    let id = intern(&mut ctx, b"new").unwrap();
    let found = cls.find_static(&reg, &id).unwrap();
    assert_eq!(found, Some(NativeFn { id: 1 }));
    // the second registration occupies a slot but is unreachable by name
    match &reg.slots[cls.id] {
        Some(vt) => assert_eq!(vt.statics.len(), 2),
        None => panic!("class must be initialized"),
    }
}

#[test]
fn method_lookup_by_token() {
    let mut reg = ClassRegistry::new();
    let mut ctx = bound_ctx();
    let cls = ready_class(&mut reg, &mut ctx, "A");
    cls.method(&mut reg, &mut ctx, "step", NativeMethod { id: 4 }).unwrap();
    let id = intern(&mut ctx, b"step").unwrap();
    assert_eq!(cls.find_method(&reg, &id).unwrap(), Some(NativeMethod { id: 4 }));
    let other = intern(&mut ctx, b"other").unwrap();
    assert_eq!(cls.find_method(&reg, &other).unwrap(), None);
}

#[test]
fn default_clone_is_bit_identical() {
    let mut reg = ClassRegistry::new();
    let mut ctx = bound_ctx();
    let cls = ready_class(&mut reg, &mut ctx, "A");
    let inst = cls.create_raw(&reg, 17, 99).unwrap();
    match dispatch_clone(&reg, &inst).unwrap() {
        Flow::Done(copy) => {
            assert_eq!(copy.v, 17);
            assert_eq!(copy.w, 99);
            assert_eq!(copy.cls, cls);
        }
        Flow::Invoke(_) => panic!("default clone must not route to a hook"),
    }
}

#[test]
fn overridden_clone_is_invoked_verbatim() {
    let mut reg = ClassRegistry::new();
    let mut ctx = bound_ctx();
    let cls = ready_class(&mut reg, &mut ctx, "A");
    cls.onclone(&mut reg, HookFn { id: 31 }).unwrap();
    let inst = cls.create_raw(&reg, 17, 99).unwrap();
    match dispatch_clone(&reg, &inst).unwrap() {
        // no implicit copy: the directive carries only the hook to run,
        // and the host uses that hook's return value verbatim
        Flow::Invoke(h) => assert_eq!(h, HookFn { id: 31 }),
        Flow::Done(_) => panic!("override must be routed to the hook"),
    }
}

#[test]
fn default_hooks_of_the_other_operators() {
    let mut reg = ClassRegistry::new();
    let mut ctx = bound_ctx();
    let cls = ready_class(&mut reg, &mut ctx, "A");
    let inst = cls.create_raw(&reg, 0, 0).unwrap();
    assert!(matches!(dispatch_getter(&reg, &inst).unwrap(), Flow::Done(Litr::Uninit)));
    assert!(matches!(dispatch_setter(&reg, &inst).unwrap(), Flow::Done(())));
    assert!(matches!(dispatch_index_get(&reg, &inst).unwrap(), Flow::Done(Litr::Uninit)));
    assert!(matches!(dispatch_index_set(&reg, &inst).unwrap(), Flow::Done(())));
    assert!(matches!(dispatch_drop(&reg, &inst).unwrap(), Flow::Done(())));
    cls.getter(&mut reg, HookFn { id: 7 }).unwrap();
    match dispatch_getter(&reg, &inst).unwrap() {
        Flow::Invoke(h) => assert_eq!(h, HookFn { id: 7 }),
        Flow::Done(_) => panic!("override must be routed to the hook"),
    }
}

#[test]
fn default_to_str_names_the_class() {
    let mut reg = ClassRegistry::new();
    let mut ctx = bound_ctx();
    let cls = ready_class(&mut reg, &mut ctx, "Range");
    let inst = cls.create_raw(&reg, 0, 0).unwrap();
    match dispatch_to_str(&reg, &inst).unwrap() {
        Flow::Done(s) => assert_eq!(s, "Range { Native }"),
        Flow::Invoke(_) => panic!("default string conversion expected"),
    }
}

/// The test-side implementation of the Range class's iterator hook: all
/// its state lives in the instance's two slot words.
fn range_next_hook(inst: &mut Instance) -> Litr {
    if inst.v < inst.w {
        let out = Litr::Uint(inst.v);
        inst.v += 1;
        out
    } else {
        Sym::iter_end()
    }
}

#[test]
fn range_iteration_end_to_end() {
    let mut reg = ClassRegistry::new();
    let mut ctx = bound_ctx();
    let cls = ready_class(&mut reg, &mut ctx, "Range");
    cls.next(&mut reg, HookFn { id: 1 }).unwrap();
    let created = cls.create(&reg, 0, 3).unwrap();
    let mut inst = match created {
        Litr::Ninst(i) => i,
        other => panic!("expected a native instance, got {:?}", other),
    };
    let mut seen = Vec::new();
    for _ in 0..4 {
        match dispatch_next(&reg, &inst).unwrap() {
            Flow::Invoke(h) => {
                assert_eq!(h, HookFn { id: 1 });
                seen.push(range_next_hook(&mut inst));
            }
            Flow::Done(v) => seen.push(v),
        }
    }
    assert_eq!(
        seen,
        vec![
            Litr::Uint(0),
            Litr::Uint(1),
            Litr::Uint(2),
            Litr::Sym(Symbol::IterEnd),
        ]
    );
    // absent external mutation of the instance, the sentinel persists
    match dispatch_next(&reg, &inst).unwrap() {
        Flow::Invoke(_) => assert_eq!(range_next_hook(&mut inst), Litr::Sym(Symbol::IterEnd)),
        Flow::Done(v) => assert_eq!(v, Litr::Sym(Symbol::IterEnd)),
    }
}

#[test]
fn default_next_is_exhausted() {
    let mut reg = ClassRegistry::new();
    let mut ctx = bound_ctx();
    let cls = ready_class(&mut reg, &mut ctx, "A");
    let inst = cls.create_raw(&reg, 0, 3).unwrap();
    for _ in 0..3 {
        match dispatch_next(&reg, &inst).unwrap() {
            Flow::Done(v) => assert_eq!(v, Litr::Sym(Symbol::IterEnd)),
            Flow::Invoke(_) => panic!("default iterator must not route to a hook"),
        }
    }
}

#[test]
fn symbols_are_values() {
    let end = Sym::iter_end();
    assert!(Sym::is_sym(&end));
    assert!(!Sym::is_sym(&Litr::Uint(1)));
    assert_eq!(end, Litr::Sym(Symbol::IterEnd));
}

#[test]
fn arena_round_trip_and_release() {
    let mut reg = ClassRegistry::new();
    let mut ctx = bound_ctx();
    let cls = ready_class(&mut reg, &mut ctx, "Holder");
    let mut arena: ResourceArena<String> = ResourceArena::new();
    let p = to_ptr(&mut arena, String::from("payload"));
    let mut inst = cls.create_raw(&reg, p, 0).unwrap();
    assert_eq!(inst.read(&arena).unwrap(), "payload");
    inst.dropv(&reg, &mut arena).unwrap();
    assert_eq!(inst.v, 0);
    let again = inst.dropv(&reg, &mut arena);
    assert!(matches!(again, Err(Fault::NullRelease { onclone_default: true })));
}

#[test]
fn release_reports_overridden_clone_hook() {
    let mut reg = ClassRegistry::new();
    let mut ctx = bound_ctx();
    let cls = ready_class(&mut reg, &mut ctx, "Holder");
    cls.onclone(&mut reg, HookFn { id: 2 }).unwrap();
    let mut arena: ResourceArena<u64> = ResourceArena::new();
    let mut inst = cls.create_raw(&reg, 0, 0).unwrap();
    let r = inst.dropv(&reg, &mut arena);
    assert!(matches!(r, Err(Fault::NullRelease { onclone_default: false })));
}

#[test]
fn release_of_dead_resource_faults() {
    let mut reg = ClassRegistry::new();
    let mut ctx = bound_ctx();
    let cls = ready_class(&mut reg, &mut ctx, "Holder");
    let mut arena: ResourceArena<u64> = ResourceArena::new();
    let mut inst = cls.create_raw(&reg, 7, 0).unwrap();
    let r = inst.dropv(&reg, &mut arena);
    assert!(matches!(r, Err(Fault::BadResource)));
}

#[test]
fn set_releases_old_and_stores_new() {
    let mut reg = ClassRegistry::new();
    let mut ctx = bound_ctx();
    let cls = ready_class(&mut reg, &mut ctx, "Holder");
    let mut arena: ResourceArena<u64> = ResourceArena::new();
    let p = to_ptr(&mut arena, 10);
    let q = to_ptr(&mut arena, 20);
    let mut inst = cls.create_raw(&reg, p, q).unwrap();
    inst.set(&reg, &mut arena, 11).unwrap();
    assert_eq!(*inst.read(&arena).unwrap(), 11);
    inst.setw(&reg, &mut arena, 21).unwrap();
    assert_eq!(*inst.readw(&arena).unwrap(), 21);
    // the old cells are gone
    assert!(matches!(
        Instance { v: p, w: 0, cls }.read(&arena),
        Err(Fault::BadResource)
    ));
}

#[test]
fn export_surface_collects_exports() {
    let mut reg = ClassRegistry::new();
    let mut ctx = bound_ctx();
    let mut module = NativeModule::new();
    module.export_fn(&mut ctx, "go", NativeFn { id: 1 }).unwrap();
    module.export_fn(&mut ctx, "stop", NativeFn { id: 2 }).unwrap();
    assert_eq!(module.funcs.len(), 2);
    assert_eq!(module.funcs[0].0.slice(), b"go");
    assert_eq!(module.funcs[0].1, NativeFn { id: 1 });

    let cls = Class::uninit(&mut reg);
    assert!(matches!(module.export_cls(&reg, cls), Err(Fault::ClassUninit)));
    cls.new(&mut reg, &mut ctx, "A").unwrap();
    module.export_cls(&reg, cls).unwrap();
    assert_eq!(module.classes, vec![cls]);
}

#[test]
fn object_fields_resolve_by_token() {
    let mut it = Interner::new();
    let a = it.intern(b"a");
    let b = it.intern(b"b");
    let entries = vec![
        key_native::value::ObjEntry { key: a.dup(), val: Litr::Uint(1) },
        key_native::value::ObjEntry { key: b.dup(), val: Litr::Uint(2) },
    ];
    assert_eq!(key_native::value::obj_get(&entries, &a), Some(&Litr::Uint(1)));
    assert_eq!(key_native::value::obj_get(&entries, &b), Some(&Litr::Uint(2)));
    let c = it.intern(b"c");
    assert_eq!(key_native::value::obj_get(&entries, &c), None);
    // a token interned again is the same token and finds the same field
    let a2 = it.intern(b"a");
    assert_eq!(key_native::value::obj_get(&entries, &a2), Some(&Litr::Uint(1)));
}

#[test]
fn deep_copy_duplicates_contents() {
    let mut ctx = bound_ctx();
    let mut it = Interner::new();
    let key = it.intern(b"k");
    let v = Litr::Obj(vec![key_native::value::ObjEntry {
        key,
        val: Litr::List(vec![Litr::Str(String::from("a")), Litr::Buf(vec![1, 2, 3])]),
    }]);
    let copy = v.deep_copy(&mut ctx).unwrap();
    assert_eq!(copy, v);
}

#[test]
fn float_bits_cross_unchanged() {
    let mut ctx = bound_ctx();
    let bits = (1.5f64).to_bits();
    let v = Litr::Float(bits);
    let copy = v.deep_copy(&mut ctx).unwrap();
    match copy {
        Litr::Float(b) => assert_eq!(f64::from_bits(b), 1.5),
        other => panic!("expected a float value, got {:?}", other),
    }
}
