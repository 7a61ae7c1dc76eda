//! Access to the store: a fixed number of slots, one for each connection
//! that the store offers, and a lease for whoever holds one.

use vstd::prelude::*;
use tokio::sync::{Semaphore, SemaphorePermit};

verus! {

/// tokio's counting semaphore.
#[verifier::external_type_specification]
#[verifier::external_body]
pub struct ExSemaphore(Semaphore);

/// One permit of a semaphore. It goes back to the semaphore when it is dropped.
#[verifier::external_type_specification]
#[verifier::external_body]
pub struct ExSemaphorePermit<'a>(SemaphorePermit<'a>);

/// `tokio::sync::Semaphore::new`. It panics on more permits than
/// `Semaphore::MAX_PERMITS`, which is `usize::MAX >> 3`: those are left out.
#[verifier::external_body]
fn semaphore_with(permits: usize) -> (semaphore: Semaphore)
    requires
        permits <= usize::MAX / 8,
{
    Semaphore::new(permits)
}

/// `tokio::sync::Semaphore::try_acquire`, the error in its own words. It never
/// waits. Who holds the other permits decides, so success is never promised. A
/// permit that comes back is one of the semaphore asked, and an error reads as
/// one of the two that a semaphore knows.
#[verifier::external_body]
fn try_acquire<'a>(semaphore: &'a Semaphore) -> (permit: Result<SemaphorePermit<'a>, String>)
    ensures
        permit is Ok ==> issued_by(permit->Ok_0) == *semaphore,
        permit is Err ==> refusal(permit->Err_0@),
{
    semaphore.try_acquire().map_err(|x| x.to_string())
}

/// A slot of the store that has been taken. The slot is free again when the
/// lease is dropped, on every path.
pub struct AcquiredDatabaseConnection<'a> {
    _permit: SemaphorePermit<'a>,
}

impl<'a> AcquiredDatabaseConnection<'a> {
    /// The lease that goes with a permit of the manager's semaphore.
    pub fn holding(permit: SemaphorePermit<'a>) -> (lease: Self)
        ensures
            lease.permit() == permit,
    {
        AcquiredDatabaseConnection { _permit: permit }
    }
}

/// Hands out the slots of the store.
pub struct DatabaseManager {
    /// The number of slots there are.
    slots: usize,
    /// Tracks the number of slots that are free.
    take_count: Semaphore,
}

impl DatabaseManager {
    /// The number of slots the manager was made with.
    pub closed spec fn capacity(&self) -> nat {
        self.slots as nat
    }

    /// A manager with one slot for each connection that the store has idle.
    pub fn new(idle_connections: u32) -> (manager: Self)
        requires
            idle_connections <= usize::MAX / 8,
        ensures
            manager.capacity() == idle_connections,
    {
        let slots = idle_connections as usize;
        Self { slots, take_count: semaphore_with(slots) }
    }

    /// A manager without a single slot, for work that does without the store.
    pub fn test_harness() -> (manager: Self)
        ensures
            manager.capacity() == 0,
    {
        Self { slots: 0, take_count: semaphore_with(0) }
    }

    /// The semaphore that counts the free slots, on which a slot is waited for.
    pub fn semaphore(&self) -> (semaphore: &Semaphore)
        ensures
            self.counts_on(*semaphore),
    {
        &self.take_count
    }

    /// Attempts to take a free slot, and fails at once where there is none. A
    /// manager without slots gives none, whatever its semaphore holds, and does
    /// not ask it. The lease that comes back holds a permit of this manager's
    /// semaphore; a failure comes with the semaphore's words for it.
    pub fn try_take(&self) -> (lease: Result<AcquiredDatabaseConnection<'_>, String>)
        ensures
            self.capacity() == 0 ==> lease is Err,
            lease is Ok ==> self.counts_on(issued_by(lease->Ok_0.permit())),
            lease is Err ==> refusal(lease->Err_0@),
    {
        if self.slots == 0 {
            return Err("no permits available".to_owned());
        }
        match try_acquire(&self.take_count) {
            Ok(permit) => Ok(AcquiredDatabaseConnection::holding(permit)),
            Err(message) => Err(message),
        }
    }

    /// Whether `semaphore` is the one on which the manager counts its slots.
    pub closed spec fn counts_on(&self, semaphore: Semaphore) -> bool {
        semaphore == self.take_count
    }
}

impl<'a> AcquiredDatabaseConnection<'a> {
    /// The permit that the lease holds.
    pub closed spec fn permit(&self) -> SemaphorePermit<'a> {
        self._permit
    }
}

/// The semaphore that a permit was taken from: `try_acquire` hands out permits
/// of the semaphore it is called on.
pub uninterp spec fn issued_by(permit: SemaphorePermit<'_>) -> Semaphore;

/// The two things a semaphore says when it gives no permit: that it has none
/// left, or that it was closed.
pub open spec fn refusal(words: Seq<char>) -> bool {
    words == "no permits available"@ || words == "semaphore closed"@
}

} // verus!
