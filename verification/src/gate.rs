//! Gates: bounded numbers of permits.

use std::sync::Arc;
use tokio::sync::OwnedSemaphorePermit;
use tokio::sync::Semaphore;
use tokio::sync::TryAcquireError;
use vstd::prelude::*;

verus! {

/// The most permits that a semaphore of `tokio` can be made with.
pub const MAX_PERMITS: usize = usize::MAX / 8;

/// A semaphore of `tokio`.
#[verifier::external_type_specification]
#[verifier::external_body]
pub struct ExSemaphore(Semaphore);

/// A permit of a semaphore of `tokio`, which goes back to it when dropped.
#[verifier::external_type_specification]
#[verifier::external_body]
pub struct ExOwnedSemaphorePermit(OwnedSemaphorePermit);

/// Why a semaphore of `tokio` gave no permit at once.
#[verifier::external_type_specification]
#[verifier::external_body]
pub struct ExTryAcquireError(TryAcquireError);

/// How many permits a semaphore was made with.
pub uninterp spec fn semaphore_limit(semaphore: Semaphore) -> usize;

/// The semaphore that a permit was taken from, and goes back to.
pub uninterp spec fn permit_origin(permit: OwnedSemaphorePermit) -> Semaphore;

/// `Semaphore::new` makes a semaphore with this many permits, and panics on
/// more than it can hold, which is an eighth of what a `usize` can. Permits
/// come and go behind shared references, so nothing is claimed of how many are
/// left.
pub assume_specification[ Semaphore::new ](permits: usize) -> (res: Semaphore)
    requires
        permits <= MAX_PERMITS,
    ensures
        semaphore_limit(res) == permits,
;

/// `Semaphore::try_acquire_owned` takes a permit of this semaphore, or fails
/// where none is left or the semaphore was closed. Which of them depends on who
/// holds permits at the moment of the call, so nothing is claimed of that.
pub assume_specification[ Semaphore::try_acquire_owned ](semaphore: Arc<Semaphore>) -> (res: Result<
    OwnedSemaphorePermit,
    TryAcquireError,
>)
    ensures
        res matches Ok(permit) ==> permit_origin(permit) == *semaphore,
;

/// This is what an attempt to take a permit of the semaphore gives, at some
/// moment at which it is made.
pub open spec fn semaphore_gives(
    semaphore: Arc<Semaphore>,
    attempt: Result<OwnedSemaphorePermit, TryAcquireError>,
) -> bool {
    call_ensures(Semaphore::try_acquire_owned, (semaphore,), attempt)
}

/// What a gate leads to.
#[derive(Clone, Copy, Debug, PartialEq, Eq, Structural)]
pub enum GateKind {
    /// The runtime: work that runs or waits to.
    Admission,
    /// Execution: work that runs.
    Concurrency,
}

/// The right to be past a gate. It goes back when dropped.
#[allow(dead_code)]
pub struct Permit {
    kind: GateKind,
    permit: OwnedSemaphorePermit,
}

impl Permit {
    /// Which gate the permit is for.
    pub closed spec fn kind(&self) -> GateKind {
        self.kind
    }

    /// The semaphore that the permit goes back to.
    pub closed spec fn origin(&self) -> Semaphore {
        permit_origin(self.permit)
    }
}

/// A gate that only so many can be past at a time.
pub struct Gate {
    kind: GateKind,
    semaphore: Arc<Semaphore>,
}

impl Gate {
    pub closed spec fn kind(&self) -> GateKind {
        self.kind
    }

    /// How many permits this gate was made with.
    pub open spec fn permits(&self) -> usize {
        semaphore_limit(*self.holder())
    }

    /// The semaphore that holds the permits.
    pub closed spec fn holder(&self) -> Arc<Semaphore> {
        self.semaphore
    }

    pub fn new(kind: GateKind, permits: usize) -> (gate: Gate)
        requires
            permits <= MAX_PERMITS,
        ensures
            gate.kind() == kind,
            gate.permits() == permits,
    {
        Gate { kind, semaphore: Arc::new(Semaphore::new(permits)) }
    }

    /// The permit of this gate that an attempt to take one gave, if it gave one.
    pub fn permit_of(
        &self,
        attempt: Result<OwnedSemaphorePermit, TryAcquireError>,
    ) -> (permit: Option<Permit>)
        ensures
            permit is Some <==> attempt is Ok,
            permit matches Some(p) ==> {
                &&& p.kind() == self.kind()
                &&& p.origin() == permit_origin(attempt->Ok_0)
            },
    {
        match attempt {
            Ok(permit) => Some(self.granted(permit)),
            Err(_) => None,
        }
    }

    /// A permit of this gate, if one is free: what an attempt at its semaphore
    /// gives.
    pub fn try_acquire(&self) -> (permit: Option<Permit>)
        ensures
            exists|attempt: Result<OwnedSemaphorePermit, TryAcquireError>| #[trigger]
                semaphore_gives(self.holder(), attempt) && (permit is Some <==> attempt is Ok),
            permit matches Some(p) ==> {
                &&& p.kind() == self.kind()
                &&& p.origin() == *self.holder()
            },
    {
        let attempt = Arc::clone(&self.semaphore).try_acquire_owned();
        assert(semaphore_gives(self.holder(), attempt));
        self.permit_of(attempt)
    }

    /// The permit that a waiter at this gate was given.
    pub fn granted(&self, permit: OwnedSemaphorePermit) -> (granted: Permit)
        ensures
            granted.kind() == self.kind(),
            granted.origin() == permit_origin(permit),
    {
        Permit { kind: self.kind, permit }
    }

    /// The semaphore to wait at for a permit.
    pub fn semaphore(&self) -> (semaphore: Arc<Semaphore>)
        ensures
            semaphore == self.holder(),
    {
        Arc::clone(&self.semaphore)
    }
}

/// What an attempt gives is what `Semaphore::try_acquire_owned` gives, and a gate
/// has the permits that its semaphore was made with.
pub proof fn law_gate_is_its_semaphore(
    gate: Gate,
    semaphore: Arc<Semaphore>,
    attempt: Result<OwnedSemaphorePermit, TryAcquireError>,
)
    ensures
        gate.permits() == semaphore_limit(*gate.holder()),
        semaphore_gives(semaphore, attempt) <==> call_ensures(
            Semaphore::try_acquire_owned,
            (semaphore,),
            attempt,
        ),
{
}

} // verus!
