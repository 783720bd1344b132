//! Audio capture: the stream description, the capture backends and the
//! signal that stops them.

pub mod format;
pub mod recorder;

use vstd::prelude::*;
use std::sync::Arc;
use std::sync::atomic::AtomicBool;
use std::sync::atomic::Ordering;

verus! {

/// A flag that is shared by every clone of it. Any holder may raise it,
/// any holder may poll it; raising it again changes nothing.
///
/// The flag lives in an atomic cell that other threads write to, so no
/// contract here says what a poll returns.
#[derive(Clone, Debug)]
pub struct StopTrigger {
    has_triggered: Arc<AtomicBool>,
}

impl Default for StopTrigger {
    fn default() -> Self {
        Self::new()
    }
}

impl StopTrigger {
    /// A trigger that nobody has raised yet.
    #[must_use]
    pub fn new() -> Self {
        let has_triggered = Arc::new(AtomicBool::new(false));

        Self { has_triggered }
    }

    /// Raises the flag for every holder.
    pub fn stop(self) {
        self.has_triggered.store(true, Ordering::Relaxed);
    }

    /// Whether some holder has raised the flag.
    pub fn has_stopped(&self) -> bool {
        self.has_triggered.load(Ordering::Relaxed)
    }
}

} // verus!
