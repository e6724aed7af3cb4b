use std::any::TypeId;
use std::sync::Arc;

use ravix::container::{binding_check, missing_bindings_report, Container};

trait Greeter: Send + Sync {
    fn greet(&self) -> &'static str;
}

struct HelloGreeter;
impl Greeter for HelloGreeter {
    fn greet(&self) -> &'static str {
        "hello"
    }
}

struct ByeGreeter;
impl Greeter for ByeGreeter {
    fn greet(&self) -> &'static str {
        "bye"
    }
}

fn greeter_key() -> TypeId {
    TypeId::of::<Arc<dyn Greeter>>()
}

#[test]
fn bind_and_resolve_roundtrip() {
    let mut c: Container<Arc<dyn Greeter>> = Container::new();
    c.register(greeter_key(), Arc::new(HelloGreeter) as Arc<dyn Greeter>);
    let g: Arc<dyn Greeter> = c.resolve(&greeter_key()).clone();
    assert_eq!(g.greet(), "hello");
}

#[test]
fn resolve_returns_same_arc() {
    let mut c: Container<Arc<dyn Greeter>> = Container::new();
    c.register(greeter_key(), Arc::new(HelloGreeter) as Arc<dyn Greeter>);
    let a: Arc<dyn Greeter> = c.resolve(&greeter_key()).clone();
    let b: Arc<dyn Greeter> = c.resolve(&greeter_key()).clone();
    assert!(Arc::ptr_eq(&a, &b));
}

#[test]
fn register_again_replaces_binding() {
    let mut c: Container<Arc<dyn Greeter>> = Container::new();
    c.register(greeter_key(), Arc::new(HelloGreeter) as Arc<dyn Greeter>);
    c.register(greeter_key(), Arc::new(ByeGreeter) as Arc<dyn Greeter>);
    assert_eq!(c.resolve(&greeter_key()).greet(), "bye");
}

#[test]
fn other_keys_stay_unbound() {
    let mut c: Container<u32> = Container::new();
    c.register(TypeId::of::<u8>(), 8);
    assert!(c.has_binding(&TypeId::of::<u8>()));
    assert!(!c.has_binding(&TypeId::of::<u16>()));
    assert!(c.try_resolve(&TypeId::of::<u16>()).is_none());
    c.register(TypeId::of::<u16>(), 16);
    assert_eq!(*c.resolve(&TypeId::of::<u8>()), 8);
    assert_eq!(*c.resolve(&TypeId::of::<u16>()), 16);
}

#[test]
fn new_container_resolves_nothing() {
    let c: Container<u32> = Container::new();
    assert!(c.try_resolve(&TypeId::of::<u8>()).is_none());
    assert!(!c.has_binding(&TypeId::of::<u8>()));
}

#[test]
fn named_bindings_stand_beside_each_other() {
    let mut c: Container<u32> = Container::new();
    c.register_named(TypeId::of::<u8>(), "primary", 1);
    c.register_named(TypeId::of::<u8>(), "replica", 2);
    assert_eq!(*c.resolve_named(&TypeId::of::<u8>(), "primary"), 1);
    assert_eq!(*c.resolve_named(&TypeId::of::<u8>(), "replica"), 2);
    assert!(c.has_named(&TypeId::of::<u8>(), "primary"));
    assert!(!c.has_named(&TypeId::of::<u8>(), "other"));
    assert!(c.try_resolve_named(&TypeId::of::<u16>(), "primary").is_none());
    assert!(!c.has_binding(&TypeId::of::<u8>()));
    c.register_named(TypeId::of::<u8>(), "primary", 3);
    assert_eq!(*c.resolve_named(&TypeId::of::<u8>(), "primary"), 3);
    assert_eq!(*c.resolve_named(&TypeId::of::<u8>(), "replica"), 2);
}

#[test]
fn typed_and_named_bindings_are_separate() {
    let mut c: Container<u32> = Container::new();
    c.register(TypeId::of::<u8>(), 7);
    assert!(c.try_resolve_named(&TypeId::of::<u8>(), "x").is_none());
    c.register_named(TypeId::of::<u8>(), "x", 9);
    assert_eq!(*c.resolve(&TypeId::of::<u8>()), 7);
    assert_eq!(*c.resolve_named(&TypeId::of::<u8>(), "x"), 9);
}

#[test]
fn binding_check_names_the_missing_type() {
    assert_eq!(binding_check(true, "Arc < dyn Repo >"), Ok(()));
    assert_eq!(
        binding_check(false, "Arc < dyn Repo >"),
        Err("[ravix-di] Required binding missing for `Arc < dyn Repo >`".to_string())
    );
}

#[test]
fn missing_bindings_report_lists_each_gap() {
    assert_eq!(missing_bindings_report(&vec![]), None);
    let errors = vec!["first".to_string(), "second".to_string()];
    assert_eq!(
        missing_bindings_report(&errors),
        Some("[ravix] Missing DI bindings:\nfirst\nsecond".to_string())
    );
    assert_eq!(
        missing_bindings_report(&vec!["only".to_string()]),
        Some("[ravix] Missing DI bindings:\nonly".to_string())
    );
}
