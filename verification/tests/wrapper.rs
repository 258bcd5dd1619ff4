use std::collections::hash_map::DefaultHasher;
use std::collections::BTreeMap;
use std::hash::{Hash, Hasher};

use hidden::Secret;

fn hash_of<T: Hash>(v: &T) -> u64 {
    let mut h = DefaultHasher::new();
    v.hash(&mut h);
    h.finish()
}

#[test]
fn round_trip_scalar() {
    assert_eq!(Secret::from(1u32).inner(), 1u32);
}

#[test]
fn round_trip_string() {
    let s = Secret::from(String::from("s3cr3t"));
    assert_eq!(s.inner(), "s3cr3t");
}

#[test]
fn round_trip_extreme_value() {
    assert_eq!(Secret::from(u32::MAX).inner(), u32::MAX);
    assert!(Secret::from(u32::MAX) > Secret::from(0u32));
}

#[test]
fn redacted_is_fixed_placeholder() {
    assert_eq!(Secret::from(1u32).redacted(), "<hidden>");
    assert_eq!(Secret::from(String::from("s3cr3t")).redacted(), "<hidden>");
}

#[test]
fn redacted_even_for_empty_value() {
    assert_eq!(Secret::from(String::new()).redacted(), "<hidden>");
}

#[test]
fn equality_delegates_to_plaintext() {
    assert!(Secret::from(1u32) == Secret::from(1u32));
    assert!(Secret::from(1u32) != Secret::from(2u32));
    assert!(Secret::from(String::from("a")) == Secret::from(String::from("a")));
    assert!(Secret::from(String::from("a")) != Secret::from(String::from("b")));
}

#[test]
fn order_delegates_to_plaintext() {
    assert!(Secret::from(1u32) < Secret::from(2u32));
    assert!(Secret::from(2u32) > Secret::from(1u32));
    assert!(Secret::from(1u32) <= Secret::from(1u32));
    assert_eq!(
        Secret::from(1u32).partial_cmp(&Secret::from(2u32)),
        1u32.partial_cmp(&2u32)
    );
}

#[test]
fn equal_secrets_hash_equally() {
    let a = Secret::from(41u32);
    let b = Secret::from(41u32);
    assert!(a == b);
    assert_eq!(hash_of(&a), hash_of(&b));
}

#[test]
fn usable_as_map_key() {
    let mut m: BTreeMap<Secret<u32>, &str> = BTreeMap::new();
    m.insert(Secret::from(2u32), "two");
    m.insert(Secret::from(1u32), "one");
    assert_eq!(m.get(&Secret::from(2u32)), Some(&"two"));
    assert_eq!(m.len(), 2);
}

#[test]
fn default_wraps_default_value() {
    let d: Secret<u32> = Default::default();
    assert_eq!(d.inner(), 0u32);
}

#[test]
fn expose_borrows_plaintext() {
    let s = Secret::from(7u32);
    assert_eq!(*s.expose(), 7u32);
    assert_eq!(s.inner(), 7u32);
}

#[test]
fn expose_mut_updates_in_place() {
    let mut s = Secret::from(7u32);
    *s.expose_mut() = 9u32;
    assert_eq!(s.inner(), 9u32);
}

#[test]
fn copy_preserves_plaintext() {
    let a = Secret::from(5u32);
    let b = a;
    assert_eq!(a.inner(), 5u32);
    assert_eq!(b.inner(), 5u32);
}

#[test]
fn clone_preserves_plaintext() {
    let a = Secret::from(String::from("s3cr3t"));
    let b = a.clone();
    assert!(a == b);
    assert_eq!(b.inner(), "s3cr3t");
}
