use rinha_interp::{Scope, Store, Val};

#[test]
fn scope_test() {
    let mut store = Store::new();
    let s1 = Scope::new(&mut store);
    s1.set(&mut store, "a", Val::Int(1));
    s1.set(&mut store, "b", Val::Int(2));

    let s2 = s1.snapshot(&mut store);
    assert_eq!(s1.get(&mut store, "a"), Some(Val::Int(1)));
    assert_eq!(s2.get(&mut store, "a"), Some(Val::Int(1)));
    s2.set(&mut store, "a", Val::Int(2));
    assert_eq!(s2.get(&mut store, "a"), Some(Val::Int(2)));

    let s3 = s2.snapshot(&mut store);
    assert_eq!(s3.get(&mut store, "a"), Some(Val::Int(2)));
    assert_eq!(s3.get(&mut store, "b"), Some(Val::Int(2)));
}

#[test]
fn snapshot_sees_later_bindings_of_its_parent() {
    let mut store = Store::new();
    let outer = Scope::new(&mut store);
    let inner = outer.snapshot(&mut store);
    assert_eq!(inner.get(&mut store, "x"), None);
    outer.set(&mut store, "x", Val::Int(7));
    assert_eq!(inner.get(&mut store, "x"), Some(Val::Int(7)));
    inner.set(&mut store, "x", Val::Int(8));
    assert_eq!(outer.get(&mut store, "x"), Some(Val::Int(7)));
    assert_eq!(inner.get(&mut store, "x"), Some(Val::Int(8)));
}

#[test]
fn rebinding_replaces_in_the_same_frame() {
    let mut store = Store::new();
    let s = Scope::new(&mut store);
    s.set(&mut store, "x", Val::Int(1));
    s.set(&mut store, "x", Val::Str("two".to_string()));
    assert_eq!(s.get(&mut store, "x"), Some(Val::Str("two".to_string())));
    assert_eq!(store.len(), 1);
}
