//! Cooperative interruption of a running benchmark.
//!
//! A process-wide boolean is set by the interrupt signal and polled by the
//! workers between completions.  The signal arrives asynchronously, so no
//! contract can pin the flag's value; everything that depends on it takes
//! the polled value as an input.

use std::sync::atomic::{AtomicBool, Ordering};
use std::sync::Arc;
use vstd::prelude::*;

verus! {

/// Notifies about a received interrupt signal.
#[verifier::external_body]
pub struct InterruptHandler {
    interrupted: Arc<AtomicBool>,
}

impl InterruptHandler {
    /// Relies on `ctrlc::set_handler`: installs a process-wide handler that
    /// raises the shared flag when the interrupt signal arrives.  The flag
    /// starts unset.
    #[verifier::external_body]
    pub fn install() -> (r: InterruptHandler) {
        let handler = InterruptHandler { interrupted: Arc::new(AtomicBool::new(false)) };
        let inside = handler.share();
        let _ = ctrlc::set_handler(move || inside.raise());
        handler
    }

    /// Relies on `std::sync::atomic::AtomicBool::store`: raises the flag.
    #[verifier::external_body]
    pub fn raise(&self) {
        self.interrupted.store(true, Ordering::Relaxed);
    }

    /// Relies on `std::sync::atomic::AtomicBool::load`: polls the flag.
    /// The signal arrives asynchronously, so nothing is promised of the
    /// value; callers must treat either answer as possible.
    #[verifier::external_body]
    pub fn is_interrupted(&self) -> (r: bool) {
        self.interrupted.load(Ordering::Relaxed)
    }

    /// Relies on `std::sync::Arc::clone`: a second handle to the same flag.
    #[verifier::external_body]
    pub fn share(&self) -> (r: InterruptHandler) {
        InterruptHandler { interrupted: Arc::clone(&self.interrupted) }
    }
}

} // verus!
