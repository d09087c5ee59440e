//! Observed state of a host fleet: the applications running on it.

use vstd::prelude::*;

verus! {

/// One application observed running on the fleet.
#[derive(Clone, Debug)]
pub struct AppStatus {
    pub name: String,
    pub version: String,
}

/// Summary of the applications running on a fleet.
///
/// The count is derived from the list and cannot be set on its own: the only
/// way to build a status is [`WasmCloudHostConfigStatus::aggregate`].
#[derive(Debug)]
pub struct WasmCloudHostConfigStatus {
    apps: Vec<AppStatus>,
    app_count: u32,
}

impl View for WasmCloudHostConfigStatus {
    type V = Seq<AppStatus>;

    /// A status is modelled by its list of applications, in order.
    closed spec fn view(&self) -> Seq<AppStatus> {
        self.apps@
    }
}

impl Clone for WasmCloudHostConfigStatus {
    fn clone(&self) -> (r: Self)
        ensures
            r@.len() == self@.len(),
    {
        proof {
            use_type_invariant(self);
        }
        WasmCloudHostConfigStatus { apps: self.apps.clone(), app_count: self.app_count }
    }
}

impl WasmCloudHostConfigStatus {
    #[verifier::type_invariant]
    spec fn count_matches(self) -> bool {
        self.app_count == self.apps@.len()
    }

    /// The stored application count.
    pub closed spec fn spec_app_count(&self) -> u32 {
        self.app_count
    }

    /// Builds the status of a fleet from the applications observed on it, in
    /// the order given, duplicates included.
    pub fn aggregate(apps: Vec<AppStatus>) -> (r: Self)
        requires
            apps@.len() <= u32::MAX,
        ensures
            r@ == apps@,
            r.spec_app_count() == apps@.len(),
    {
        let app_count = apps.len() as u32;
        WasmCloudHostConfigStatus { apps, app_count }
    }

    /// The applications running on the fleet.
    pub fn apps(&self) -> (r: &Vec<AppStatus>)
        ensures
            r@ == self@,
    {
        &self.apps
    }

    /// The number of applications running on the fleet.
    pub fn app_count(&self) -> (r: u32)
        ensures
            r == self@.len(),
            r == self.spec_app_count(),
    {
        proof {
            use_type_invariant(self);
        }
        self.app_count
    }
}

} // verus!
