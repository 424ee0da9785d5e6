//! Bells that wake all who wait.

use std::sync::Arc;
use tokio::sync::Notify;
use vstd::prelude::*;

verus! {

/// A notifier of `tokio`.
#[verifier::external_type_specification]
#[verifier::external_body]
pub struct ExNotify(Notify);

/// `Notify::new` makes a notifier that nobody waits at.
pub assume_specification[ Notify::new ]() -> Notify;

/// `Notify::notify_waiters` wakes all who wait at the notifier. The effect
/// reaches the waiters, and no value that this call could speak of.
pub assume_specification[ Notify::notify_waiters ](notify: &Notify);

/// Those who wait at the notifier were woken: a call of
/// `Notify::notify_waiters` on it has returned.
pub open spec fn woken(notify: Arc<Notify>) -> bool {
    call_ensures(Notify::notify_waiters, (&*notify,), ())
}

/// A bell that wakes all who wait for it.
pub struct Bell {
    notify: Arc<Notify>,
    rings: Ghost<nat>,
}

impl Bell {
    /// How often the bell was rung.
    pub closed spec fn rings(&self) -> nat {
        self.rings@
    }

    /// The notifier that is waited at.
    pub closed spec fn notifier(&self) -> Arc<Notify> {
        self.notify
    }

    pub fn new() -> (bell: Bell)
        ensures
            bell.rings() == 0,
    {
        Bell { notify: Arc::new(Notify::new()), rings: Ghost(0) }
    }

    /// Wakes all who wait.
    pub fn ring(&mut self)
        ensures
            final(self).rings() == old(self).rings() + 1,
            final(self).notifier() == old(self).notifier(),
            woken(old(self).notifier()),
    {
        self.notify.notify_waiters();
        self.rings = Ghost(self.rings@ + 1);
    }

    /// The notifier to wait at.
    pub fn notify(&self) -> (notify: Arc<Notify>)
        ensures
            notify == self.notifier(),
    {
        Arc::clone(&self.notify)
    }
}

/// Those who wait were woken when `Notify::notify_waiters` was called.
pub proof fn law_woken(notify: Arc<Notify>)
    ensures
        woken(notify) <==> call_ensures(Notify::notify_waiters, (&*notify,), ()),
{
}

} // verus!
