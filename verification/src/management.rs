//! The process-wide state: the application registry and the guardian,
//! built once from decoded configuration and shared read-only afterwards.

use vstd::prelude::*;
use crate::applications::Applications;
use crate::gateway::guard::Guardian;

verus! {

/// The immutable bundle every request handler reads from.
pub struct State {
    pub applications: Applications,
    pub guardian: Guardian,
}

impl State {
    pub fn apps(&self) -> (r: &Applications)
        ensures
            r == &self.applications,
    {
        &self.applications
    }

    pub fn guardian(&self) -> (r: &Guardian)
        ensures
            r == &self.guardian,
    {
        &self.guardian
    }
}

/// Bundles an already-decoded registry and a guardian endpoint into the
/// shared state.
pub fn create_state(apps: Applications, guardian_url: String) -> (r: State)
    ensures
        r.applications == apps,
        r.guardian.url == guardian_url,
{
    State { applications: apps, guardian: Guardian::new(guardian_url) }
}

} // verus!
