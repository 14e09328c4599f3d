//! Handles on the runtimes that work is spawned onto, and the errors of spawning.
use std::ops::Deref;
use std::sync::Arc;
use vstd::prelude::*;
use vstd::std_specs::convert::FromSpecImpl;

verus! {

/// A handle on a tokio runtime.
#[verifier::external_type_specification]
#[verifier::external_body]
pub struct ExTokioRuntimeHandle(tokio::runtime::Handle);

/// `Clone` for a tokio runtime handle: a second handle on the same runtime. Nothing
/// is stated of it, since a runtime is not modelled here.
pub assume_specification[ <tokio::runtime::Handle as Clone>::clone ](handle: &tokio::runtime::Handle) -> tokio::runtime::Handle;

/// A rayon thread pool.
#[verifier::external_type_specification]
#[verifier::external_body]
pub struct ExRayonThreadPool(rayon::ThreadPool);

/// An error of the operating system, as std reports it.
#[verifier::external_type_specification]
#[verifier::external_body]
pub struct ExIoError(std::io::Error);

/// Spawning a thread failed; the operating system's error is kept.
pub struct SpawnTaskError(pub std::io::Error);

impl SpawnTaskError {
    /// The error's message.
    pub fn message(&self) -> (s: String)
        ensures
            s@ == "Thread spawn failed"@,
    {
        String::from_str("Thread spawn failed")
    }
}

impl From<std::io::Error> for SpawnTaskError {
    fn from(error: std::io::Error) -> (r: Self)
        ensures
            r.0 == error,
    {
        SpawnTaskError(error)
    }
}

impl FromSpecImpl<std::io::Error> for SpawnTaskError {
    open spec fn obeys_from_spec() -> bool {
        true
    }

    closed spec fn from_spec(error: std::io::Error) -> Self {
        SpawnTaskError(error)
    }
}

/// What can go wrong with a task handed to the async runtime.
#[derive(Debug, Clone, Copy, PartialEq, Eq, Structural)]
pub enum AsyncTaskError {
    SpawnError,
    SendError,
    ReceiveError,
}

impl AsyncTaskError {
    /// The error's message.
    pub fn message(&self) -> (s: String)
        ensures
            s@ == match self {
                AsyncTaskError::SpawnError => "Task spawn failed"@,
                AsyncTaskError::SendError => "Channel send failed"@,
                AsyncTaskError::ReceiveError => "Channel receive failed"@,
            },
    {
        match self {
            AsyncTaskError::SpawnError => String::from_str("Task spawn failed"),
            AsyncTaskError::SendError => String::from_str("Channel send failed"),
            AsyncTaskError::ReceiveError => String::from_str("Channel receive failed"),
        }
    }
}

/// The tokio runtime on which async tasks are spawned.
#[derive(Clone)]
pub struct TokioHandle(tokio::runtime::Handle);

impl TokioHandle {
    /// The runtime handle held.
    pub closed spec fn handle(&self) -> tokio::runtime::Handle {
        self.0
    }
}

impl Deref for TokioHandle {
    type Target = tokio::runtime::Handle;

    fn deref(&self) -> (r: &tokio::runtime::Handle)
        ensures
            *r == self.handle(),
    {
        &self.0
    }
}

impl From<tokio::runtime::Handle> for TokioHandle {
    fn from(handle: tokio::runtime::Handle) -> (r: Self)
        ensures
            r.handle() == handle,
    {
        TokioHandle(handle)
    }
}

impl FromSpecImpl<tokio::runtime::Handle> for TokioHandle {
    open spec fn obeys_from_spec() -> bool {
        true
    }

    closed spec fn from_spec(handle: tokio::runtime::Handle) -> Self {
        TokioHandle(handle)
    }
}

/// Calls `Arc::clone` on a shared pool: a second pointer to the same pool, so what it
/// points to is the pool the original points to.
#[verifier::external_body]
fn share_pool(pool: &Arc<rayon::ThreadPool>) -> (r: Arc<rayon::ThreadPool>)
    ensures
        *r == **pool,
{
    Arc::clone(pool)
}

/// The rayon pool on which parallel work is spawned, shared between its clones.
pub struct RayonPool(Arc<rayon::ThreadPool>);

impl Clone for RayonPool {
    /// Another handle on the same pool; no pool or thread is created.
    fn clone(&self) -> (r: Self)
        ensures
            r.pool() == self.pool(),
    {
        RayonPool(share_pool(&self.0))
    }
}

impl RayonPool {
    /// The pool held.
    pub closed spec fn pool(&self) -> rayon::ThreadPool {
        *self.0
    }
}

impl Deref for RayonPool {
    type Target = rayon::ThreadPool;

    fn deref(&self) -> (r: &rayon::ThreadPool)
        ensures
            *r == self.pool(),
    {
        &*self.0
    }
}

impl From<rayon::ThreadPool> for RayonPool {
    fn from(pool: rayon::ThreadPool) -> (r: Self)
        ensures
            r.pool() == pool,
    {
        RayonPool(Arc::new(pool))
    }
}

impl FromSpecImpl<rayon::ThreadPool> for RayonPool {
    open spec fn obeys_from_spec() -> bool {
        true
    }

    closed spec fn from_spec(pool: rayon::ThreadPool) -> Self {
        RayonPool(Arc::new(pool))
    }
}

} // verus!
