use vstd::prelude::*;

use std::sync::atomic::{AtomicBool, Ordering};

use crate::event::MonitorState;

verus! {

/// The switch that the monitor and its watchers share: watchers publish only
/// while it is on. Its value may change at any time from another thread, so a
/// read says what it held at that moment only.
pub struct RunFlag {
    running: AtomicBool,
}

impl RunFlag {
    pub fn new(running: bool) -> (r: RunFlag) {
        RunFlag { running: AtomicBool::new(running) }
    }

    /// Switches publishing on.
    pub fn enable(&self) {
        self.running.store(true, Ordering::Release);
    }

    /// Switches publishing off.
    pub fn disable(&self) {
        self.running.store(false, Ordering::Release);
    }

    /// Flips the switch in one atomic step, and returns the state it set:
    /// the opposite of the one it found.
    pub fn toggle(&self) -> (r: MonitorState) {
        let was_running = self.running.fetch_xor(true, Ordering::AcqRel);
        MonitorState::from_running(!was_running)
    }

    pub fn is_running(&self) -> (r: bool) {
        self.running.load(Ordering::Acquire)
    }

    /// The state that the switch holds as it is read.
    pub fn state(&self) -> (r: MonitorState) {
        let running = self.is_running();
        MonitorState::from_running(running)
    }
}

} // verus!
