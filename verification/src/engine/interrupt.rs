//! The cooperative interrupt flag of a run: one shared boolean, raised from
//! outside (a signal handler, a watchdog) and read by the scheduler at every unit
//! boundary. It is never cleared, and a running unit is not stopped by it.

use vstd::prelude::*;
use std::sync::Arc;
use std::sync::Mutex;

verus! {

/// `std::sync::Mutex`, carried through as it is.
#[verifier::external_type_specification]
#[verifier::external_body]
#[verifier::reject_recursive_types(T)]
pub struct ExMutex<T: ?Sized>(Mutex<T>);

/// A handle to the interrupt flag of a run. Equal handles lead to the same flag.
pub struct InterruptFlag {
    shared: Arc<Mutex<bool>>,
}

/// A new shared boolean that holds `initial`, from `Mutex::new`.
#[verifier::external_body]
fn new_shared(initial: bool) -> Arc<Mutex<bool>> {
    Arc::new(Mutex::new(initial))
}

/// Another pointer to the same mutex, from `Arc::clone`.
#[verifier::external_body]
fn share(shared: &Arc<Mutex<bool>>) -> (copy: Arc<Mutex<bool>>)
    ensures
        copy == *shared,
{
    Arc::clone(shared)
}

/// Reads the flag under `Mutex::lock`. Whoever holds another handle may have raised
/// it at any moment, so nothing is stated. A poisoned lock is read like any other.
#[verifier::external_body]
fn read_shared(shared: &Arc<Mutex<bool>>) -> bool {
    match shared.lock() {
        Ok(guard) => *guard,
        Err(poisoned) => *poisoned.into_inner(),
    }
}

/// Writes the flag under `Mutex::lock`. A poisoned lock is written like any other.
#[verifier::external_body]
fn write_shared(shared: &Arc<Mutex<bool>>, value: bool) {
    match shared.lock() {
        Ok(mut guard) => *guard = value,
        Err(poisoned) => *poisoned.into_inner() = value,
    }
}

impl InterruptFlag {
    /// A flag that has not been raised.
    pub fn new() -> InterruptFlag {
        InterruptFlag { shared: new_shared(false) }
    }

    /// Another handle to the same flag: what is raised through one is seen through the other.
    pub fn handle(&self) -> (copy: InterruptFlag)
        ensures
            copy == *self,
    {
        InterruptFlag { shared: share(&self.shared) }
    }

    /// Whether the run has been asked to stop. The flag is shared: whoever
    /// holds another handle may raise it at any moment, so two readings may
    /// differ, and nothing is stated of one.
    pub fn is_raised(&self) -> bool {
        read_shared(&self.shared)
    }

    /// Asks the run to stop at the next unit boundary.
    pub fn raise(&self) {
        write_shared(&self.shared, true)
    }
}

} // verus!
