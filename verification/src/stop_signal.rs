//! Cooperative cancellation: one shared boolean flag, set once by the
//! caller and polled by the receive loop at each iteration boundary.  The
//! flag never aborts the transport or a running job; the loop answers a
//! set flag by sending a single stop record, and the server ends the
//! stream with a cancellation record.

use vstd::prelude::*;
use std::sync::Arc;
use core::sync::atomic::{AtomicBool, Ordering};
use crate::trusted::share_flag;

verus! {

/// The loop-side view of the flag.
#[derive(Debug)]
pub struct StopSignal {
    stop: Arc<AtomicBool>,
}

/// The caller-held trigger: setting it again, or after the session
/// closed, changes nothing further.
#[derive(Debug)]
pub struct StopHandle {
    stop: Arc<AtomicBool>,
}

impl StopSignal {
    /// A fresh, unset flag.
    pub fn new() -> StopSignal {
        StopSignal { stop: Arc::new(AtomicBool::new(false)) }
    }

    /// Reads the flag.  It is shared across threads, so nothing can be
    /// stated of the value; the session's own `stop_sent` state keeps the
    /// stop record single whatever is read here.
    pub fn check_stop(&self) -> bool {
        self.stop.load(Ordering::SeqCst)
    }

    /// A trigger sharing this signal's flag.
    pub fn stop_fn(&self) -> StopHandle {
        StopHandle { stop: share_flag(&self.stop) }
    }
}

impl StopHandle {
    /// Requests the stop.
    pub fn trigger(&self) {
        self.stop.store(true, Ordering::SeqCst);
    }
}

} // verus!
