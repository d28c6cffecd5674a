use vstd::prelude::*;

verus! {

/// Options governing the update of the satellite-assistance data that
/// is uploaded to the device during a sync. Plain data: the command
/// surface maps its flags onto this record.
#[derive(Clone, Copy, Debug, PartialEq, Eq, Structural)]
pub struct MgaUpdateOptions {
    /// Do not try to update the satellite-assistance data; useful
    /// without an Internet connection.
    pub mga_offline: bool,
    /// Update the satellite-assistance data even when the cached copy
    /// is still fresh.
    pub mga_force_update: bool,
}

impl Default for MgaUpdateOptions {
    /// Online, no forced update.
    fn default() -> (r: Self)
        ensures
            !r.mga_offline,
            !r.mga_force_update,
    {
        MgaUpdateOptions { mga_offline: false, mga_force_update: false }
    }
}

/// Options of a full device sync.
#[derive(Clone, Copy, Debug, PartialEq, Eq, Structural)]
pub struct SyncOptions {
    pub mga_update: MgaUpdateOptions,
}

impl Default for SyncOptions {
    /// The default update options.
    fn default() -> (r: Self)
        ensures
            !r.mga_update.mga_offline,
            !r.mga_update.mga_force_update,
    {
        SyncOptions { mga_update: MgaUpdateOptions::default() }
    }
}

} // verus!
