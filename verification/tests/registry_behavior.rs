use guarded_registry::errors::RegistryError;
use guarded_registry::registry::Registry;

fn initialized() -> Registry {
    let mut reg = Registry::new();
    assert!(reg.init().is_ok());
    reg
}

#[test]
fn register_before_init_fails() {
    let mut reg = Registry::new();
    assert_eq!(reg.register_u32("k", 7), Err(RegistryError::NotInitialized));
    assert_eq!(reg.get_u32("k"), Err(RegistryError::NotInitialized));
}

#[test]
fn init_twice_fails() {
    let mut reg = Registry::new();
    assert!(reg.init().is_ok());
    assert_eq!(reg.init(), Err(RegistryError::AlreadyInitialized));
}

#[test]
fn register_then_get_returns_value() {
    let mut reg = initialized();
    assert!(reg.register_u32("k", 41).is_ok());
    assert_eq!(reg.get_u32("k"), Ok(41));
}

#[test]
fn duplicate_key_fails_and_keeps_first_value() {
    let mut reg = initialized();
    assert!(reg.register_u32("k", 5).is_ok());
    assert_eq!(reg.register_u32("k", 99), Err(RegistryError::DuplicateKey));
    assert_eq!(reg.get_u32("k"), Ok(5));
}

#[test]
fn type_mismatch_on_wrong_tag() {
    let mut reg = initialized();
    assert!(reg.register_u32("k", 0).is_ok());
    assert_eq!(reg.get_u8("k"), Err(RegistryError::TypeMismatch));
    assert!(reg.register_u8("b", 3).is_ok());
    assert_eq!(reg.get_u32("b"), Err(RegistryError::TypeMismatch));
    assert_eq!(reg.get_u8("b"), Ok(3));
}

#[test]
fn missing_key_fails_with_not_found() {
    let mut reg = initialized();
    assert_eq!(reg.get_u32("absent"), Err(RegistryError::NotFound));
    assert!(reg.register_u32("absent", 1).is_ok());
    assert_eq!(reg.get_u32("absent"), Ok(1));
}

#[test]
fn destroy_then_get_fails_with_not_found() {
    let mut reg = initialized();
    assert!(reg.register_u32("k", 12).is_ok());
    assert_eq!(reg.get_u32("k"), Ok(12));
    assert!(reg.destroy().is_ok());
    assert_eq!(reg.get_u32("k"), Err(RegistryError::NotFound));
    assert_eq!(reg.get_u8("k"), Err(RegistryError::NotFound));
}

#[test]
fn destroy_twice_fails() {
    let mut reg = initialized();
    assert!(reg.destroy().is_ok());
    assert_eq!(reg.destroy(), Err(RegistryError::NotInitialized));
}

#[test]
fn register_after_destroy_fails() {
    let mut reg = initialized();
    assert!(reg.destroy().is_ok());
    assert_eq!(reg.register_u32("k", 1), Err(RegistryError::NotInitialized));
}

#[test]
fn increment_adds_under_the_lock() {
    let mut reg = initialized();
    assert!(reg.register_u32("counter", 10).is_ok());
    assert!(reg.increment_u32("counter", 5).is_ok());
    assert!(reg.increment_u32("counter", 1).is_ok());
    assert_eq!(reg.get_u32("counter"), Ok(16));
}

#[test]
fn increment_errors_mirror_lookup_errors() {
    let mut reg = Registry::new();
    assert_eq!(reg.increment_u32("k", 1), Err(RegistryError::NotInitialized));
    assert!(reg.init().is_ok());
    assert_eq!(reg.increment_u32("k", 1), Err(RegistryError::NotFound));
    assert!(reg.register_u8("k", 0).is_ok());
    assert_eq!(reg.increment_u32("k", 1), Err(RegistryError::TypeMismatch));
}

#[test]
fn keys_are_a_flat_namespace() {
    let mut reg = initialized();
    assert!(reg.register_u32("a/b", 1).is_ok());
    assert!(reg.register_u32("a/b/c", 2).is_ok());
    assert_eq!(reg.get_u32("a/b"), Ok(1));
    assert_eq!(reg.get_u32("a/b/c"), Ok(2));
}
