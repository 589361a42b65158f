//! The context capsule: caller state as an opaque integer token.
//!
//! A session or container hands its state to the native library once, at
//! creation, as a single address-sized integer; the native library
//! presents the same integer on every later callback for that object and
//! never interprets it.  The capsule store models the heap that backs
//! those tokens: [`CapsuleStore::mint`] turns a typed context into a
//! fresh non-zero token, [`CapsuleStore::borrow_capsule`] resolves a
//! token back to the context without consuming it — the same token stays
//! valid for as many callbacks as will come — and
//! [`CapsuleStore::retire`] is the one operation that releases a
//! capsule, used exactly when the owning native object is destroyed.  A
//! retired token is never minted again, so a stale token fails to
//! resolve rather than reach another object's state.
//!
//! Each variant of [`Capsule`] stands for one runtime type a context can
//! have; resolving a token to the wrong variant is the model of a failed
//! downcast and is an ordinary recoverable error, never a fault.

use vstd::prelude::*;

use crate::error::Error;

verus! {

/// The typed contents of a capsule: one variant per context shape the
/// crate stores behind a token.
#[derive(Clone, Copy, Debug, PartialEq, Eq, Structural)]
pub enum Capsule {
    /// A session's callback context.
    Session(crate::session::Context),
    /// A keylist catalog's callback context.
    Catalog(crate::keylist::catalog::Context),
    /// A keylist catalog container's callback context.
    ContainerCatalog(crate::container::keylist::catalog::Context),
    /// An equity stream's callback context.
    EquityStream(crate::container::equity::stream::Context),
    /// A caller-supplied per-item payload.
    User(u64),
}

/// The store backing every minted token.  Tokens are slot indices
/// shifted by one, so zero is never a token; a retired slot keeps its
/// place and is never handed out again.
pub struct CapsuleStore {
    slots: Vec<Option<Capsule>>,
}

impl CapsuleStore {
    /// The capsule a token resolves to, if the token was minted and has
    /// not been retired.
    pub closed spec fn spec_get(self, token: u64) -> Option<Capsule> {
        if 1 <= token <= self.slots@.len() {
            self.slots@[token - 1]
        } else {
            None
        }
    }

    /// What resolving a token yields: the capsule, or the one
    /// recoverable capsule error when the token is zero, stale, or was
    /// never minted.
    pub open spec fn spec_borrow(self, token: u64) -> Result<Capsule, Error> {
        match self.spec_get(token) {
            Some(c) => Ok(c),
            None => Err(Error::ContextKindMismatch),
        }
    }

    /// A store with no capsules.
    pub fn new() -> (r: CapsuleStore)
        ensures
            forall|t: u64| r.spec_get(t) is None,
    {
        CapsuleStore { slots: Vec::new() }
    }

    /// Box a context and turn its address into a fresh opaque token.
    ///
    /// The capsule is deliberately not dropped when the token goes out
    /// of scope anywhere: ownership conceptually moves to the native
    /// library for as long as the owning object exists, and only
    /// [`CapsuleStore::retire`] releases it.
    pub fn mint(&mut self, capsule: Capsule) -> (token: u64)
        ensures
            token != 0,
            old(self).spec_get(token) is None,
            final(self).spec_get(token) == Some(capsule),
            forall|t: u64| t != token ==> final(self).spec_get(t) == old(self).spec_get(t),
    {
        self.slots.push(Some(capsule));
        self.slots.len() as u64
    }

    /// Resolve a token to its capsule for the duration of one callback.
    ///
    /// The capsule is not consumed: the same token resolves again on the
    /// next callback.  A token that is zero, never minted, or already
    /// retired fails with `ContextKindMismatch` — safely recoverable,
    /// never a read of released state.
    pub fn borrow_capsule(&self, token: u64) -> (r: Result<&Capsule, Error>)
        ensures
            match (r, self.spec_borrow(token)) {
                (Ok(c), Ok(d)) => *c == d,
                (Err(e1), Err(e2)) => e1 == e2,
                _ => false,
            },
    {
        if 1 <= token && token <= self.slots.len() as u64 {
            match &self.slots[(token - 1) as usize] {
                Some(c) => Ok(c),
                None => Err(Error::ContextKindMismatch),
            }
        } else {
            Err(Error::ContextKindMismatch)
        }
    }

    /// Release a capsule: the single deallocating operation, called by
    /// the code path that destroys the owning native object.  The token
    /// is dead afterwards — a later borrow fails rather than touch
    /// released state — and is never minted again.
    pub fn retire(&mut self, token: u64) -> (r: Result<Capsule, Error>)
        ensures
            old(self).spec_get(token) is None ==> r == Err::<Capsule, Error>(
                Error::ContextKindMismatch,
            ) && *final(self) == *old(self),
            old(self).spec_get(token) is Some ==> {
                &&& r == Ok::<Capsule, Error>(old(self).spec_get(token)->Some_0)
                &&& final(self).spec_get(token) is None
                &&& forall|t: u64| t != token ==> final(self).spec_get(t) == old(self).spec_get(t)
            },
    {
        if 1 <= token && token <= self.slots.len() as u64 {
            let idx = (token - 1) as usize;
            match self.slots[idx] {
                Some(c) => {
                    self.slots[idx] = None;
                    Ok(c)
                },
                None => Err(Error::ContextKindMismatch),
            }
        } else {
            Err(Error::ContextKindMismatch)
        }
    }
}

/// The capsule lifecycle law: a minted token resolves to the very
/// context that was minted, as often as it is borrowed, since borrowing
/// consumes nothing; the one retire releases it; and any borrow after
/// the retire fails safely instead of reaching released state.
pub proof fn lemma_capsule_lifecycle(
    s0: CapsuleStore,
    s1: CapsuleStore,
    s2: CapsuleStore,
    token: u64,
    c: Capsule,
)
    requires
        s0.spec_get(token) is None,
        s1.spec_get(token) == Some(c),
        s2.spec_get(token) is None,
    ensures
        s1.spec_borrow(token) == Ok::<Capsule, Error>(c),
        s2.spec_borrow(token) == Err::<Capsule, Error>(Error::ContextKindMismatch),
        s0.spec_borrow(token) == Err::<Capsule, Error>(Error::ContextKindMismatch),
{
}

} // verus!
