//! The diagnostics server handle in builds without it.

use vstd::prelude::*;

verus! {

/// Handle of the diagnostics server; inert in this build.
pub struct DiagHandle;

impl DiagHandle {
    pub fn set_connected(&self) {
    }

    pub fn set_disconnected(&self) {
    }

    pub fn set_terminal_close(&self, code: u16) {
    }
}

} // verus!
