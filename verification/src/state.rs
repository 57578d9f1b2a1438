use vstd::prelude::*;
use std::sync::Arc;

verus! {

/// tokio's read-write lock: scoped acquisition with release on every exit
/// path, many concurrent readers, writers exclusive against all.
#[verifier::external_type_specification]
#[verifier::external_body]
#[verifier::reject_recursive_types(T)]
pub struct ExRwLock<T: ?Sized>(tokio::sync::RwLock<T>);

/// The sole strong owner of one instance of application state `S`, wrapped
/// behind a read-write lock: any number of concurrent readers, writers
/// exclusive against all readers and writers. Created once per actor, at
/// actor-start time; read and write acquisition suspend, so they belong to
/// the embedding that runs the actor's task.
#[verifier::reject_recursive_types(S)]
#[derive(Debug)]
pub struct State<S>(pub Arc<tokio::sync::RwLock<S>>);

/// A non-owning handle to a [`State`] cell: it captures only the relation
/// "refers to this cell if still alive", and never extends the state's
/// lifetime.
#[verifier::external_body]
#[verifier::reject_recursive_types(S)]
#[derive(Debug)]
pub struct WeakState<S>(std::sync::Weak<tokio::sync::RwLock<S>>);

impl<S> State<S> {
    /// Establish the sole strong owner of the given initial state.
    pub fn new(initial: S) -> State<S> {
        State(Arc::new(rwlock_new(initial)))
    }

    /// Mint a non-owning handle to this cell.
    pub fn downgrade(&self) -> WeakState<S> {
        weak_of(&self.0)
    }

    /// Resolve a non-owning handle back to a strong owner.
    ///
    /// Relies on std's Weak::upgrade: yields the still-alive allocation, or
    /// None once the owner is gone. A dead handle is a programming invariant
    /// violation - the task holding it has outlived its actor - so this
    /// aborts the process rather than returning a recoverable error.
    #[verifier::external_body]
    pub fn upgrade(weak: WeakState<S>) -> State<S> {
        State(weak.0.upgrade().expect("Upgrade state failed!"))
    }
}

impl<S> Clone for WeakState<S> {
    /// Relies on std's Weak::clone: another handle to the same cell, still
    /// without owning it.
    #[verifier::external_body]
    fn clone(&self) -> Self {
        WeakState(self.0.clone())
    }
}

/// Relies on tokio's RwLock::new: wraps the initial state behind a fresh
/// read-write lock.
#[verifier::external_body]
fn rwlock_new<S>(initial: S) -> tokio::sync::RwLock<S> {
    tokio::sync::RwLock::new(initial)
}

/// Relies on std's Arc::downgrade: a weak, non-owning reference to the same
/// allocation.
#[verifier::external_body]
fn weak_of<S>(strong: &Arc<tokio::sync::RwLock<S>>) -> WeakState<S> {
    WeakState(Arc::downgrade(strong))
}

} // verus!
