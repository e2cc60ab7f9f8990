//! The Linux backend: notifications go out over D-Bus through a native
//! library call made by the caller. What is modelled here is the backend's
//! availability and the mapping of the timeout field onto the native call's
//! notion of expiry.

use crate::notifier::Notifier;
use crate::platform::Platform;
use vstd::prelude::*;

verus! {

/// The Linux D-Bus backend.
#[derive(Debug, Clone, Copy)]
pub struct LinuxNotifier;

impl Notifier for LinuxNotifier {
    /// Usable on a Linux kernel, native or under WSL.
    open spec fn spec_available(&self, host: Platform) -> bool {
        host == Platform::Linux || host == Platform::Wsl
    }

    open spec fn spec_name(&self) -> Seq<char> {
        "Linux (D-Bus)"@
    }

    fn is_available(&self, host: Platform) -> (r: bool) {
        matches!(host, Platform::Linux | Platform::Wsl)
    }

    fn backend_name(&self) -> (r: &'static str) {
        "Linux (D-Bus)"
    }
}

impl LinuxNotifier {
    /// The expiry handed to the native notification call: a timeout of 0
    /// means the notification never expires, any other value is taken as
    /// milliseconds.
    pub fn native_timeout(timeout: u32) -> (r: Option<u32>)
        ensures
            r == if timeout == 0 {
                None::<u32>
            } else {
                Some(timeout)
            },
    {
        if timeout == 0 {
            None
        } else {
            Some(timeout)
        }
    }
}

} // verus!
