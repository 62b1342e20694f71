//! The flag by which another thread asks a running batch to stop.

use std::sync::atomic::{AtomicBool, Ordering};
use std::sync::Arc;
use vstd::prelude::*;

verus! {

/// A shared flag that is polled between calls, or none.
pub struct AbortFlag {
    flag: Option<Arc<AtomicBool>>,
}

impl AbortFlag {
    /// The shared flag that is held, if one is.
    pub closed spec fn flag(&self) -> Option<Arc<AtomicBool>> {
        self.flag
    }

    /// Whether a flag is installed.
    pub open spec fn installed(&self) -> bool {
        self.flag() is Some
    }

    /// No flag: nothing can ask the batch to stop.
    pub fn none() -> (flag: AbortFlag)
        ensures
            flag.flag() is None,
    {
        AbortFlag { flag: None }
    }

    /// The given flag: the one that is polled from now on.
    pub fn shared(flag: Arc<AtomicBool>) -> (r: AbortFlag)
        ensures
            r.flag() == Some(flag),
    {
        AbortFlag { flag: Some(flag) }
    }

    /// Tells whether the batch is asked to stop, as the flag stands now.
    /// Without a flag it never is.
    pub fn is_set(&self) -> (set: bool)
        ensures
            set ==> self.installed(),
    {
        match &self.flag {
            Some(flag) => flag.load(Ordering::SeqCst),
            None => false,
        }
    }
}

} // verus!
