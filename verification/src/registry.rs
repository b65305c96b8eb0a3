//! The holder of the one shared pipeline instance.
//!
//! A registry starts empty. A successful initialization installs an
//! instance, replacing any earlier one; a failed one changes nothing. There
//! is no way back to empty.

use vstd::prelude::*;
use crate::error::EmbedError;

verus! {

/// Holds at most one instance of `T`.
pub struct Registry<T> {
    slot: Option<T>,
}

impl<T> Registry<T> {
    /// The installed instance, if any.
    pub closed spec fn instance(self) -> Option<T> {
        self.slot
    }

    /// The registry as it is before any initialization.
    pub closed spec fn empty() -> Registry<T> {
        Registry { slot: None }
    }

    /// The registry after an initialization attempt with this outcome.
    pub closed spec fn after_init(self, candidate: Result<T, EmbedError>) -> Registry<T> {
        match candidate {
            Ok(instance) => Registry { slot: Some(instance) },
            Err(_) => self,
        }
    }

    /// The registry after a run of initialization attempts, oldest first.
    pub open spec fn after_inits(self, candidates: Seq<Result<T, EmbedError>>) -> Registry<T>
        decreases candidates.len(),
    {
        if candidates.len() == 0 {
            self
        } else {
            self.after_inits(candidates.drop_last()).after_init(candidates.last())
        }
    }

    /// What an attempt to use the instance yields: the instance, or
    /// `NotInitialized` when there is none.
    pub open spec fn lookup(self) -> Result<T, EmbedError> {
        match self.instance() {
            Some(instance) => Ok(instance),
            None => Err(EmbedError::NotInitialized),
        }
    }

    /// An empty registry.
    pub fn new() -> (r: Registry<T>)
        ensures
            r == Self::empty(),
            r.instance() is None,
    {
        Registry { slot: None }
    }

    /// Whether an instance is installed.
    pub fn is_initialized(&self) -> (b: bool)
        ensures
            b == self.instance() is Some,
    {
        self.slot.is_some()
    }

    /// Completes an initialization attempt. A constructed instance is
    /// installed in place of whatever was there; a failure is handed back
    /// and the registry stays as it was.
    pub fn install(&mut self, candidate: Result<T, EmbedError>) -> (r: Result<(), EmbedError>)
        ensures
            *final(self) == old(self).after_init(candidate),
            candidate matches Ok(instance) ==> r is Ok && final(self).instance() == Some(instance),
            candidate matches Err(e) ==> r == Err::<(), EmbedError>(e),
            candidate is Err ==> *final(self) == *old(self),
    {
        match candidate {
            Ok(instance) => {
                self.slot = Some(instance);
                Ok(())
            },
            Err(e) => Err(e),
        }
    }

    /// Borrows the installed instance for one call, or fails with
    /// `NotInitialized` when there is none. The registry keeps whatever the
    /// borrower leaves in the instance, and is otherwise unchanged.
    pub fn instance_mut(&mut self) -> (r: Result<&mut T, EmbedError>)
        ensures
            r is Ok <==> old(self).instance() is Some,
            r matches Err(e) ==> e == EmbedError::NotInitialized && *final(self) == *old(self),
            r matches Ok(instance) ==> *instance == old(self).instance()->0,
            r matches Ok(instance) ==> final(self).instance() == Some(*final(instance)),
    {
        match &mut self.slot {
            Some(instance) => Ok(instance),
            None => Err(EmbedError::NotInitialized),
        }
    }
}

/// What one initialization attempt does: nothing is installed in an empty
/// registry, a success installs its instance, a failure changes nothing.
pub proof fn lemma_after_init<T>(before: Registry<T>, candidate: Result<T, EmbedError>)
    ensures
        Registry::<T>::empty().instance() is None,
        candidate matches Ok(instance) ==> before.after_init(candidate).instance() == Some(
            instance,
        ),
        candidate is Err ==> before.after_init(candidate) == before,
{
}

/// Until an initialization succeeds, the registry holds nothing: after any
/// run of failed attempts on an empty registry, a lookup is
/// `NotInitialized`.
pub proof fn lemma_uninitialized_until_success<T>(candidates: Seq<Result<T, EmbedError>>)
    requires
        forall|i: int| 0 <= i < candidates.len() ==> candidates[i] is Err,
    ensures
        Registry::<T>::empty().after_inits(candidates) == Registry::<T>::empty(),
        Registry::<T>::empty().after_inits(candidates).lookup() == Err::<T, EmbedError>(
            EmbedError::NotInitialized,
        ),
    decreases candidates.len(),
{
    if candidates.len() > 0 {
        lemma_uninitialized_until_success(candidates.drop_last());
    }
}

/// A failed initialization leaves a working instance in place: once an
/// attempt has installed `instance`, any run of failed attempts after it
/// still finds `instance`.
pub proof fn lemma_failed_init_keeps_instance<T>(
    before: Registry<T>,
    instance: T,
    failures: Seq<Result<T, EmbedError>>,
)
    requires
        forall|i: int| 0 <= i < failures.len() ==> failures[i] is Err,
    ensures
        before.after_init(Ok(instance)).after_inits(failures).lookup() == Ok::<T, EmbedError>(
            instance,
        ),
    decreases failures.len(),
{
    if failures.len() > 0 {
        lemma_failed_init_keeps_instance(before, instance, failures.drop_last());
    }
}

/// The last successful initialization wins: whatever the registry held, a
/// lookup after a successful attempt finds the instance of that attempt.
pub proof fn lemma_init_replaces<T>(before: Registry<T>, instance: T)
    ensures
        before.after_init(Ok(instance)).lookup() == Ok::<T, EmbedError>(instance),
{
}

/// There is no way back to empty: a registry that holds an instance holds
/// one after any run of attempts, whatever their outcomes.
pub proof fn lemma_stays_initialized<T>(before: Registry<T>, candidates: Seq<Result<T, EmbedError>>)
    requires
        before.instance() is Some,
    ensures
        before.after_inits(candidates).instance() is Some,
    decreases candidates.len(),
{
    if candidates.len() > 0 {
        lemma_stays_initialized(before, candidates.drop_last());
    }
}

} // verus!
