use key_native::fault::Fault;
use key_native::funcs::{Function, LocalFunc, NativeFn};
use key_native::invoke::Invocation;
use key_native::refs::LitrRef;
use key_native::scope::{Host, Scope, SlotRef};
use key_native::table::{outlive_dec, outlive_inc, premain, FuncTable, Binding, ModuleCtx};
use key_native::value::Litr;

fn bound_ctx_with_root() -> (ModuleCtx, Scope) {
    let mut host = Host::new();
    let root = host.alloc_scope(None, None);
    let mut ctx = ModuleCtx::new();
    premain(&mut ctx, FuncTable { host }).unwrap();
    (ctx, root)
}

fn host_of(ctx: &ModuleCtx) -> &Host {
    match &ctx.state {
        Binding::Bound(h) => h,
        Binding::Unbound => panic!("table is not bound"),
    }
}

#[test]
fn let_then_find_reads_back() {
    let (mut ctx, root) = bound_ctx_with_root();
    root.let_var(&mut ctx, "x", Litr::Uint(5)).unwrap();
    let found = root.find_var(&mut ctx, "x").unwrap().expect("x must resolve");
    assert_eq!(*found.read(&ctx).unwrap(), Litr::Uint(5));
}

#[test]
fn find_unresolved_is_none() {
    let (mut ctx, root) = bound_ctx_with_root();
    assert!(root.find_var(&mut ctx, "missing").unwrap().is_none());
}

#[test]
fn newer_binding_shadows_older() {
    let (mut ctx, root) = bound_ctx_with_root();
    root.let_var(&mut ctx, "x", Litr::Uint(1)).unwrap();
    root.let_var(&mut ctx, "x", Litr::Uint(2)).unwrap();
    let found = root.find_var(&mut ctx, "x").unwrap().unwrap();
    assert_eq!(*found.read(&ctx).unwrap(), Litr::Uint(2));
}

#[test]
fn lookup_walks_parent_chain() {
    let mut host = Host::new();
    let root = host.alloc_scope(None, None);
    let inner = host.alloc_scope(Some(root), None);
    let mut ctx = ModuleCtx::new();
    premain(&mut ctx, FuncTable { host }).unwrap();
    root.let_var(&mut ctx, "outer_only", Litr::Bool(true)).unwrap();
    let found = inner.find_var(&mut ctx, "outer_only").unwrap().unwrap();
    assert_eq!(*found.read(&ctx).unwrap(), Litr::Bool(true));
    assert_eq!(inner.get_parent(&ctx).unwrap(), Some(root));
    assert_eq!(root.get_parent(&ctx).unwrap(), None);
}

#[test]
fn inner_shadowing_beats_outer_binding() {
    let mut host = Host::new();
    let root = host.alloc_scope(None, None);
    let mid = host.alloc_scope(Some(root), None);
    let leaf = host.alloc_scope(Some(mid), None);
    let mut ctx = ModuleCtx::new();
    premain(&mut ctx, FuncTable { host }).unwrap();
    root.let_var(&mut ctx, "x", Litr::Uint(1)).unwrap();
    mid.let_var(&mut ctx, "x", Litr::Uint(2)).unwrap();
    let from_leaf = leaf.find_var(&mut ctx, "x").unwrap().unwrap();
    assert_eq!(*from_leaf.read(&ctx).unwrap(), Litr::Uint(2));
    let from_root = root.find_var(&mut ctx, "x").unwrap().unwrap();
    assert_eq!(*from_root.read(&ctx).unwrap(), Litr::Uint(1));
}

#[test]
fn deep_copy_with_dead_scope_faults() {
    let (mut ctx, root) = bound_ctx_with_root();
    let dead = Scope { id: root.id + 100 };
    let v = Litr::Func(Function::Local(LocalFunc { ptr: 1, scope: dead }));
    assert!(matches!(v.deep_copy(&mut ctx), Err(Fault::BadScope)));
}

#[test]
fn write_through_ref_mutates_slot() {
    let (mut ctx, root) = bound_ctx_with_root();
    root.let_var(&mut ctx, "x", Litr::Uint(1)).unwrap();
    let mut found = root.find_var(&mut ctx, "x").unwrap().unwrap();
    found.write(&mut ctx, Litr::Uint(9)).unwrap();
    let again = root.find_var(&mut ctx, "x").unwrap().unwrap();
    assert_eq!(*again.read(&ctx).unwrap(), Litr::Uint(9));
}

#[test]
fn const_var_locks_binding() {
    let (mut ctx, root) = bound_ctx_with_root();
    root.let_var(&mut ctx, "k", Litr::Int(-3)).unwrap();
    root.const_var(&mut ctx, "k").unwrap();
    let mut found = root.find_var(&mut ctx, "k").unwrap().unwrap();
    let r = found.write(&mut ctx, Litr::Int(0));
    assert!(matches!(r, Err(Fault::FrozenBinding)));
    assert_eq!(*found.read(&ctx).unwrap(), Litr::Int(-3));
}

#[test]
fn const_var_unresolved_faults() {
    let (mut ctx, root) = bound_ctx_with_root();
    let r = root.const_var(&mut ctx, "ghostly");
    assert!(matches!(r, Err(Fault::UnresolvedName)));
}

#[test]
fn own_clones_borrowed_and_keeps_slot() {
    let (mut ctx, root) = bound_ctx_with_root();
    root.let_var(&mut ctx, "s", Litr::Str(String::from("hi"))).unwrap();
    let found = root.find_var(&mut ctx, "s").unwrap().unwrap();
    let owned = found.own(&mut ctx).unwrap();
    assert_eq!(owned, Litr::Str(String::from("hi")));
    let again = root.find_var(&mut ctx, "s").unwrap().unwrap();
    assert_eq!(*again.read(&ctx).unwrap(), Litr::Str(String::from("hi")));
}

#[test]
fn own_moves_owned() {
    let mut ctx = ModuleCtx::new();
    let r = LitrRef::Own(Litr::Uint(7));
    assert_eq!(r.own(&mut ctx).unwrap(), Litr::Uint(7));
}

#[test]
fn get_self_location() {
    let mut host = Host::new();
    let with_self = host.alloc_scope(None, Some(Litr::Uint(1)));
    let without = host.alloc_scope(None, None);
    let mut ctx = ModuleCtx::new();
    premain(&mut ctx, FuncTable { host }).unwrap();
    let loc = with_self.get_self(&ctx).unwrap().expect("self slot expected");
    assert_eq!(*loc.read(&ctx).unwrap(), Litr::Uint(1));
    assert!(without.get_self(&ctx).unwrap().is_none());
}

#[test]
fn capabilities_before_bind_fault() {
    let mut ctx = ModuleCtx::new();
    let s = Scope { id: 0 };
    assert!(matches!(s.find_var(&mut ctx, "x"), Err(Fault::Unbound)));
    assert!(matches!(s.let_var(&mut ctx, "x", Litr::Uninit), Err(Fault::Unbound)));
    assert!(matches!(s.const_var(&mut ctx, "x"), Err(Fault::Unbound)));
    assert!(matches!(s.get_self(&ctx), Err(Fault::Unbound)));
    assert!(matches!(s.get_parent(&ctx), Err(Fault::Unbound)));
    assert!(matches!(outlive_inc(&mut ctx, s), Err(Fault::Unbound)));
    assert!(matches!(outlive_dec(&mut ctx, s), Err(Fault::Unbound)));
    let lf = LocalFunc { ptr: 1, scope: s };
    assert!(matches!(lf.call(&ctx, Vec::new()), Err(Fault::Unbound)));
    assert!(matches!(lf.duplicate(&mut ctx), Err(Fault::Unbound)));
    let r = LitrRef::Ref(SlotRef::Var { scope: s, index: 0 });
    assert!(matches!(r.read(&ctx), Err(Fault::Unbound)));
}

#[test]
fn outlive_copy_destroy_balances() {
    let (mut ctx, root) = bound_ctx_with_root();
    // The host hands the module one handle and accounts one unit for it.
    outlive_inc(&mut ctx, root).unwrap();
    let original = LocalFunc { ptr: 42, scope: root };
    assert_eq!(host_of(&ctx).teardown_eligible(root).unwrap(), false);

    let copy_a = original.duplicate(&mut ctx).unwrap();
    let copy_b = copy_a.duplicate(&mut ctx).unwrap();
    assert_eq!(copy_b.ptr, 42);
    assert_eq!(copy_b.scope, root);
    assert_eq!(host_of(&ctx).teardown_eligible(root).unwrap(), false);

    copy_a.dispose(&mut ctx).unwrap();
    copy_b.dispose(&mut ctx).unwrap();
    assert_eq!(host_of(&ctx).teardown_eligible(root).unwrap(), false);
    original.dispose(&mut ctx).unwrap();
    assert_eq!(host_of(&ctx).teardown_eligible(root).unwrap(), true);
}

#[test]
fn outlive_underflow_is_refused() {
    let (mut ctx, root) = bound_ctx_with_root();
    let r = outlive_dec(&mut ctx, root);
    assert!(matches!(r, Err(Fault::OutliveUnderflow)));
}

#[test]
fn own_copies_closure_values_and_counts() {
    let (mut ctx, root) = bound_ctx_with_root();
    outlive_inc(&mut ctx, root).unwrap();
    root.let_var(
        &mut ctx,
        "f",
        Litr::Func(Function::Local(LocalFunc { ptr: 4, scope: root })),
    )
    .unwrap();
    let r = root.find_var(&mut ctx, "f").unwrap().unwrap();
    let owned = r.own(&mut ctx).unwrap();
    assert_eq!(owned, Litr::Func(Function::Local(LocalFunc { ptr: 4, scope: root })));
    // one unit for the original handle, one for the handle inside the copy
    assert_eq!(host_of(&ctx).scopes[root.id].outlive, 2);
    let again = root.find_var(&mut ctx, "f").unwrap().unwrap();
    assert!(matches!(again.read(&ctx).unwrap(), Litr::Func(Function::Local(_))));
}

#[test]
fn duplicate_with_dead_scope_faults() {
    let (mut ctx, root) = bound_ctx_with_root();
    let dead = LocalFunc { ptr: 1, scope: Scope { id: root.id + 9 } };
    assert!(matches!(dead.duplicate(&mut ctx), Err(Fault::BadScope)));
}

#[test]
fn deep_copy_of_closure_value_increments_outlive() {
    let (mut ctx, root) = bound_ctx_with_root();
    outlive_inc(&mut ctx, root).unwrap();
    let v = Litr::List(vec![
        Litr::Uint(1),
        Litr::Func(Function::Local(LocalFunc { ptr: 9, scope: root })),
    ]);
    let copy = v.deep_copy(&mut ctx).unwrap();
    assert_eq!(copy, v);
    // one unit for the original handle, one for the copy inside `copy`
    assert_eq!(host_of(&ctx).scopes[root.id].outlive, 2);
}

#[test]
fn function_call_routes_extern_and_native() {
    let (mut ctx, root) = bound_ctx_with_root();
    let ext = Function::Extern(key_native::funcs::ExternFunc { raw: [0, 0, 0, 0] });
    match ext.call(&mut ctx, Vec::new(), root).unwrap() {
        Invocation::Done(v) => assert_eq!(v, Litr::Uninit),
        other => panic!("unexpected invocation {:?}", other),
    }
    let nat = Function::Native(NativeFn { id: 3 });
    let args = vec![LitrRef::Own(Litr::Uint(8))];
    match nat.call(&mut ctx, args, root).unwrap() {
        Invocation::CallNative { func, args, scope } => {
            assert_eq!(func, NativeFn { id: 3 });
            assert_eq!(args.len(), 1);
            assert_eq!(scope, root);
        }
        other => panic!("unexpected invocation {:?}", other),
    }
}

#[test]
fn function_call_owns_args_for_closures() {
    let mut host = Host::new();
    let root = host.alloc_scope(None, Some(Litr::Uint(0)));
    let mut ctx = ModuleCtx::new();
    premain(&mut ctx, FuncTable { host }).unwrap();
    root.let_var(&mut ctx, "arg", Litr::Str(String::from("payload"))).unwrap();
    let arg_ref = root.find_var(&mut ctx, "arg").unwrap().unwrap();
    let f = Function::Local(LocalFunc { ptr: 11, scope: root });
    match f.call(&mut ctx, vec![arg_ref, LitrRef::Own(Litr::Bool(true))], root).unwrap() {
        Invocation::CallClosureAt { func, at, kself, args } => {
            assert_eq!(func, 11);
            assert_eq!(at, root);
            assert_eq!(kself, Some(SlotRef::SelfSlot { scope: root }));
            assert_eq!(
                args,
                vec![Litr::Str(String::from("payload")), Litr::Bool(true)]
            );
        }
        other => panic!("unexpected invocation {:?}", other),
    }
    // the aliased slot still holds its value
    let again = root.find_var(&mut ctx, "arg").unwrap().unwrap();
    assert_eq!(*again.read(&ctx).unwrap(), Litr::Str(String::from("payload")));
}

#[test]
fn native_calls_work_before_binding_but_closures_do_not() {
    let mut ctx = ModuleCtx::new();
    let s = Scope { id: 0 };
    let nat = Function::Native(NativeFn { id: 1 });
    assert!(matches!(
        nat.call(&mut ctx, Vec::new(), s),
        Ok(Invocation::CallNative { .. })
    ));
    let local = Function::Local(LocalFunc { ptr: 1, scope: s });
    assert!(matches!(local.call(&mut ctx, Vec::new(), s), Err(Fault::Unbound)));
}

#[test]
fn closure_call_directives() {
    let (ctx, root) = bound_ctx_with_root();
    let lf = LocalFunc { ptr: 5, scope: root };
    match lf.call(&ctx, vec![Litr::Uint(1)]).unwrap() {
        Invocation::CallClosure { func, scope, args } => {
            assert_eq!(func, 5);
            assert_eq!(scope, root);
            assert_eq!(args, vec![Litr::Uint(1)]);
        }
        other => panic!("unexpected invocation {:?}", other),
    }
    match lf.call_at(&ctx, root, None, Vec::new()).unwrap() {
        Invocation::CallClosureAt { func, at, kself, args } => {
            assert_eq!(func, 5);
            assert_eq!(at, root);
            assert_eq!(kself, None);
            assert!(args.is_empty());
        }
        other => panic!("unexpected invocation {:?}", other),
    }
}
