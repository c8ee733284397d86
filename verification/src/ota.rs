//! Firmware update over the network. The transfer itself belongs to the
//! network and to the flash; what is decided here is whether there is
//! anything to fetch.

use vstd::prelude::*;

verus! {

/// Why the updater could not answer.
#[derive(Clone, Copy, Debug, PartialEq, Eq, Structural)]
pub enum OtaError {
    /// The server has no word on its firmware.
    Unavailable,
}

/// The updater of a node. It holds nothing: every update starts afresh.
#[derive(Clone, Copy, Debug, PartialEq, Eq, Structural)]
pub struct Ota {}

impl Ota {
    /// A new updater.
    pub fn new() -> (ota: Ota)
        ensures
            ota == (Ota {  }),
    {
        Ota {  }
    }

    /// Whether the firmware that runs is the newest that the server at `url`
    /// offers under `filename`. The server publishes no version, so no
    /// firmware counts as the newest: the answer is always that it is not,
    /// and the check never fails.
    pub fn check_firmware_is_latest(&self, url: &str, filename: &str) -> (latest: Result<
        bool,
        OtaError,
    >)
        ensures
            latest == Ok::<bool, OtaError>(false),
    {
        Ok(false)
    }
}

} // verus!
