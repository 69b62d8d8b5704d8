//! Applet configuration. Currently empty: the applet keeps no persisted
//! settings, but the versioned entry is kept so the host shell's
//! configuration channel has something to carry.

use vstd::prelude::*;

verus! {

/// Version tag for the persisted configuration schema.
pub const CONFIG_VERSION: u64 = 1;

/// The applet's persisted settings (none at present).
#[derive(Clone, Debug, PartialEq, Eq, Structural)]
pub struct Config {}

impl Default for Config {
    /// The default configuration.
    fn default() -> (r: Config)
        ensures
            r == (Config {}),
    {
        Config {}
    }
}

} // verus!
