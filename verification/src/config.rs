//! User configuration: the station to poll and the poll interval in
//! minutes.  Reading and persisting the file is the caller's concern.

use vstd::prelude::*;

use vstd::string::StringExecFns;

verus! {

/// The configuration values the driver runs with.
pub struct Config {
    pub interval: i32,
    pub station: String,
}

impl Default for Config {
    /// The configuration written when none exists yet: poll every 30
    /// minutes for station EHGR.
    fn default() -> (c: Config)
        ensures
            c.interval == 30,
            c.station@ == "EHGR"@,
    {
        Config { interval: 30, station: String::from_str("EHGR") }
    }
}

} // verus!
