//! What is fixed when the fleet is started.

use vstd::prelude::*;

verus! {

/// The number of samples a device keeps unless told otherwise.
pub const DEFAULT_MAX_ENTRIES: usize = 5;

/// The seconds between two ticks unless told otherwise.
pub const DEFAULT_UPDATE_INTERVAL: u64 = 60;

/// The port that is listened on unless told otherwise.
pub const DEFAULT_PORT: u16 = 3000;

/// The settings of one run.
#[derive(Clone, Copy, Debug)]
pub struct Args {
    /// Maximum number of entries in a device consumption history
    pub max_entries: usize,
    /// Interval for updating device consumption history, in seconds
    pub update_interval: u64,
    /// Port for application to listen on
    pub port: u16,
}

impl Default for Args {
    fn default() -> (args: Args)
        ensures
            args.max_entries == DEFAULT_MAX_ENTRIES,
            args.update_interval == DEFAULT_UPDATE_INTERVAL,
            args.port == DEFAULT_PORT,
    {
        Args {
            max_entries: DEFAULT_MAX_ENTRIES,
            update_interval: DEFAULT_UPDATE_INTERVAL,
            port: DEFAULT_PORT,
        }
    }
}

} // verus!
