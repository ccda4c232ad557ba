use key_native::fault::Fault;
use key_native::ident::Interner;
use key_native::scope::Host;
use key_native::table::{intern, premain, FuncTable, ModuleCtx};

fn bound_ctx() -> ModuleCtx {
    let host = Host::new();
    let mut ctx = ModuleCtx::new();
    premain(&mut ctx, FuncTable { host }).unwrap();
    ctx
}

#[test]
fn intern_is_idempotent() {
    let mut ctx = bound_ctx();
    let a = intern(&mut ctx, b"name").unwrap();
    let b = intern(&mut ctx, b"name").unwrap();
    assert_eq!(a.tok, b.tok);
    assert_eq!(a.bytes, b.bytes);
}

#[test]
fn intern_distinguishes_content() {
    let mut ctx = bound_ctx();
    let a = intern(&mut ctx, b"alpha").unwrap();
    let b = intern(&mut ctx, b"beta").unwrap();
    let a2 = intern(&mut ctx, b"alpha").unwrap();
    assert_ne!(a.tok, b.tok);
    assert_eq!(a.tok, a2.tok);
}

#[test]
fn intern_many_round_trips() {
    let mut it = Interner::new();
    let names: Vec<&[u8]> = vec![b"x", b"y", b"z", b"x", b"y", b"x"];
    let mut toks = Vec::new();
    for n in names.iter() {
        toks.push(it.intern(n).tok);
    }
    assert_eq!(toks[0], toks[3]);
    assert_eq!(toks[1], toks[4]);
    assert_eq!(toks[0], toks[5]);
    assert_ne!(toks[0], toks[1]);
    assert_ne!(toks[1], toks[2]);
}

#[test]
fn ident_exposes_bytes_and_text() {
    let mut it = Interner::new();
    let id = it.intern(b"Range");
    assert_eq!(id.slice(), b"Range");
    assert_eq!(id.str(), "Range");
    let d = id.dup();
    assert_eq!(d.tok, id.tok);
    assert_eq!(d.bytes, id.bytes);
}

#[test]
fn ident_text_replaces_invalid_utf8() {
    let mut it = Interner::new();
    let id = it.intern(&[0xffu8]);
    assert_eq!(id.str(), "\u{FFFD}");
    assert_eq!(id.slice(), &[0xffu8]);
}

#[test]
fn intern_before_bind_faults() {
    let mut ctx = ModuleCtx::new();
    let r = intern(&mut ctx, b"name");
    assert!(matches!(r, Err(Fault::Unbound)));
}

#[test]
fn premain_binds_once() {
    let mut ctx = ModuleCtx::new();
    premain(&mut ctx, FuncTable { host: Host::new() }).unwrap();
    let again = premain(&mut ctx, FuncTable { host: Host::new() });
    assert!(matches!(again, Err(Fault::AlreadyBound)));
}

#[test]
fn report_error_channel() {
    let ctx = ModuleCtx::new();
    assert!(matches!(ctx.report_error("boom"), Fault::Unbound));
    let ctx = bound_ctx();
    match ctx.report_error("boom") {
        Fault::Reported(m) => assert_eq!(m, "boom"),
        other => panic!("unexpected fault {:?}", other),
    }
}
