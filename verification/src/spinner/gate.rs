use vstd::prelude::*;

use std::sync::{Arc, Condvar, Mutex};

verus! {

// std's Mutex and Condvar, declared so that the pause gate can hold them;
// their values are opaque to the verifier.
#[verifier::external_type_specification]
#[verifier::external_body]
#[verifier::reject_recursive_types(T)]
pub struct ExMutex<T: ?Sized>(Mutex<T>);

#[verifier::external_type_specification]
#[verifier::external_body]
pub struct ExCondvar(Condvar);

/// Relies on std::sync::Arc::clone: the clone is the same shared
/// allocation.
#[verifier::external_body]
fn arc_gate_clone(a: &Arc<(Mutex<bool>, Condvar)>) -> (r: Arc<(Mutex<bool>, Condvar)>)
    ensures
        r == *a,
{
    a.clone()
}

/// The pause gate: a shared flag guarded by a mutex, with a condition
/// variable on which the render loop blocks between ticks while the flag
/// is set. The handle toggles the flag; the loop is the only waiter.
pub struct PauseGate {
    inner: Arc<(Mutex<bool>, Condvar)>,
}

impl Clone for PauseGate {
    /// The clone shares the same flag and condition.
    fn clone(&self) -> (r: Self)
        ensures
            r == *self,
    {
        PauseGate { inner: arc_gate_clone(&self.inner) }
    }
}

impl PauseGate {
    /// Relies on std::sync::Mutex::new and Condvar::new: a fresh gate with
    /// the flag cleared.
    #[verifier::external_body]
    pub fn new() -> Self {
        PauseGate { inner: Arc::new((Mutex::new(false), Condvar::new())) }
    }

    /// Relies on std::sync::Mutex::lock and Condvar::notify_one: stores the
    /// flag under the lock, then wakes the render loop if it is waiting.
    #[verifier::external_body]
    pub fn set_paused(&self, value: bool) {
        let (lock, cvar) = &*self.inner;
        let mut guard = lock.lock().unwrap_or_else(|e| e.into_inner());
        *guard = value;
        cvar.notify_one();
    }

    /// Relies on std::sync::Mutex::lock: reads the flag under the lock.
    #[verifier::external_body]
    pub fn is_paused(&self) -> bool {
        let (lock, _cvar) = &*self.inner;
        *lock.lock().unwrap_or_else(|e| e.into_inner())
    }

    /// Relies on std::sync::Condvar::wait: blocks while the flag is set,
    /// re-checking it after every wakeup, so a spurious wakeup goes back
    /// to waiting.
    #[verifier::external_body]
    pub fn wait_while_paused(&self) {
        let (lock, cvar) = &*self.inner;
        let mut guard = lock.lock().unwrap_or_else(|e| e.into_inner());
        while *guard {
            guard = cvar.wait(guard).unwrap_or_else(|e| e.into_inner());
        }
    }
}

} // verus!
