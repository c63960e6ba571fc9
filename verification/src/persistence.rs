//! Where the application keeps its durable data.
//!
//! Path resolution against the platform's directories is I/O and lives
//! with the caller; this layer fixes the application's own directory
//! name, which doubles as the keychain service name.

use vstd::prelude::*;

verus! {

/// The handle through which callers resolve the application's
/// directories.
pub struct PersistenceManager {}

impl PersistenceManager {
    /// A fresh handle.
    pub fn new() -> (r: Self) {
        PersistenceManager {}
    }

    /// The directory joined under each platform base directory, and the
    /// keychain service name.
    pub fn base_dir_name(&self) -> (r: &'static str)
        ensures
            r@ == "chat.astrum.astrum"@,
    {
        "chat.astrum.astrum"
    }
}

} // verus!
