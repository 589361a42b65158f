//! The context capsule: minted once, borrowed as often as callbacks
//! arrive, retired exactly once, dead afterwards.

use rxegy::capsule::{Capsule, CapsuleStore};
use rxegy::error::Error;
use rxegy::keylist::catalog::Builder;

#[test]
fn borrow_is_idempotent_until_retire() {
    let mut caps = CapsuleStore::new();
    let context = Builder::default().on_refresh();
    let token = caps.mint(Capsule::Catalog(context));
    assert_ne!(token, 0);
    // N sequential borrows each yield the same logical context, with no
    // deallocation between them.
    for _ in 0..5 {
        match caps.borrow_capsule(token) {
            Ok(Capsule::Catalog(c)) => assert_eq!(*c, context),
            other => panic!("capsule changed shape: {:?}", other.err()),
        }
    }
    // The one retire releases it and returns the context.
    assert_eq!(caps.retire(token), Ok(Capsule::Catalog(context)));
    // Any later borrow fails safely instead of reading released state.
    assert_eq!(caps.borrow_capsule(token).err(), Some(Error::ContextKindMismatch));
    // So does a second retire.
    assert_eq!(caps.retire(token), Err(Error::ContextKindMismatch));
}

#[test]
fn zero_and_unminted_tokens_fail_safely() {
    let caps = CapsuleStore::new();
    assert_eq!(caps.borrow_capsule(0).err(), Some(Error::ContextKindMismatch));
    assert_eq!(caps.borrow_capsule(17).err(), Some(Error::ContextKindMismatch));
}

#[test]
fn retired_tokens_are_never_reissued() {
    let mut caps = CapsuleStore::new();
    let first = caps.mint(Capsule::User(1));
    assert_eq!(caps.retire(first), Ok(Capsule::User(1)));
    let second = caps.mint(Capsule::User(2));
    assert_ne!(first, second);
    // The stale token still fails, and the fresh one resolves.
    assert_eq!(caps.borrow_capsule(first).err(), Some(Error::ContextKindMismatch));
    assert_eq!(caps.borrow_capsule(second), Ok(&Capsule::User(2)));
}

#[test]
fn distinct_capsules_have_distinct_tokens() {
    let mut caps = CapsuleStore::new();
    let a = caps.mint(Capsule::User(10));
    let b = caps.mint(Capsule::User(20));
    assert_ne!(a, b);
    assert_eq!(caps.borrow_capsule(a), Ok(&Capsule::User(10)));
    assert_eq!(caps.borrow_capsule(b), Ok(&Capsule::User(20)));
}
