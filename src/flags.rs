//! Progress flags shared between threads, and the persisted auto-update
//! switch.
use vstd::prelude::*;
use std::sync::atomic::{AtomicBool, Ordering};

verus! {

/// Holds a progress flag raised for as long as the guard lives; dropping the
/// guard lowers it on every exit path, unwinding included.
pub struct AtomicFlagGuard<'a> {
    flag: &'a AtomicBool,
}

impl<'a> AtomicFlagGuard<'a> {
    pub closed spec fn flag(&self) -> &'a AtomicBool {
        self.flag
    }

    /// Raises `flag` unconditionally.
    pub fn set(flag: &'a AtomicBool) -> (r: Self)
        ensures
            r.flag() == flag,
    {
        flag.store(true, Ordering::Relaxed);
        AtomicFlagGuard { flag }
    }

    /// Raises `flag` only if it is down; `None` while another guard holds it.
    pub fn try_set(flag: &'a AtomicBool) -> (r: Option<Self>)
        ensures
            r matches Some(g) ==> g.flag() == flag,
    {
        match flag.compare_exchange(false, true, Ordering::AcqRel, Ordering::Acquire) {
            Ok(_) => Some(AtomicFlagGuard { flag }),
            Err(_) => None,
        }
    }
}

impl<'a> Drop for AtomicFlagGuard<'a> {
    fn drop(&mut self)
        opens_invariants none
        no_unwind
    {
        lower_flag(self.flag);
    }
}

/// Relies on `AtomicBool::store`, which neither unwinds nor blocks.
#[verifier::external_body]
fn lower_flag(flag: &AtomicBool)
    opens_invariants none
    no_unwind
{
    flag.store(false, Ordering::Relaxed);
}

/// Whether the desktop app checks for its own updates at startup.
pub struct AutoUpdateCheckState {
    enabled: bool,
}

impl AutoUpdateCheckState {
    pub closed spec fn enabled(&self) -> bool {
        self.enabled
    }

    pub fn new(enabled: bool) -> (r: Self)
        ensures
            r.enabled() == enabled,
    {
        AutoUpdateCheckState { enabled }
    }

    pub fn is_enabled(&self) -> (r: bool)
        ensures
            r == self.enabled(),
    {
        self.enabled
    }

    /// Flips the switch and returns its new value.
    pub fn toggle(&mut self) -> (r: bool)
        ensures
            final(self).enabled() == !old(self).enabled(),
            r == final(self).enabled(),
    {
        self.enabled = !self.enabled;
        self.enabled
    }
}

} // verus!
