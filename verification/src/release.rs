//! What the release checker hands the UI about an available update.

use vstd::prelude::*;

verus! {

/// An available release: its version tag and its release page.
pub struct ReleaseInfo {
    pub version: String,
    pub html_url: String,
}

impl Clone for ReleaseInfo {
    fn clone(&self) -> (r: Self)
        ensures
            r.version@ == self.version@,
            r.html_url@ == self.html_url@,
    {
        ReleaseInfo { version: self.version.clone(), html_url: self.html_url.clone() }
    }
}

} // verus!
