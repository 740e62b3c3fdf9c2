//! The shared stop signal: one flag, initialized unraised, raised exactly
//! once by the orchestrator when the run duration elapses, and polled
//! cooperatively by every worker at each iteration boundary.

use vstd::prelude::*;

use core::sync::atomic::AtomicBool;

verus! {

/// A broadcast cancellation flag. The orchestrator is its only writer and
/// writes only `true`, so an observation of `true` is permanent; readers may
/// lag the writer by at most one poll, which the worker loops tolerate by
/// polling at every iteration boundary. The flag's runtime value is shared
/// between threads and is therefore not modelled here; the worker decision
/// functions take the observed value as an argument instead.
pub struct StopController {
    flag: AtomicBool,
}

impl StopController {
    /// A fresh, unraised flag.
    pub fn new() -> (r: StopController) {
        StopController { flag: AtomicBool::new(false) }
    }

    /// Raise the stop signal. Monotone: nothing ever lowers the flag again.
    pub fn raise(&self) {
        self.flag.store(true, core::sync::atomic::Ordering::Relaxed);
    }

    /// Poll the flag. Staleness of at most one loop iteration is tolerated
    /// by design, so a relaxed load suffices.
    pub fn is_raised(&self) -> (r: bool) {
        self.flag.load(core::sync::atomic::Ordering::Relaxed)
    }
}

} // verus!
