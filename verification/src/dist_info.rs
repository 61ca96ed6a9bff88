//! What the server knows of the distribution that it runs in.
use vstd::prelude::*;

verus! {

/// The version of this server.
pub const SERVER_VERSION: &'static str = "0.1.0";

/// Metadata of the running distribution.
#[derive(Debug, Clone)]
pub struct DistInfo {
    pub name: String,
    pub version: &'static str,
    pub is_logged_in: bool,
}

/// Telemetry fields that the server knows itself. It fills them into every analytics
/// event, so that the browser need not send them and cannot forge them.
#[derive(Debug, Clone, Default)]
pub struct TelemetryHydration {
    /// The code of the distribution, such as `oss`.
    pub distribution: String,
    pub dbt_version: String,
    pub is_logged_in: bool,
    pub dbt_cloud_account_identifier: String,
    pub dbt_cloud_project_id: String,
    pub dbt_cloud_environment_id: String,
}

/// Whether telemetry fields are those that follow from a distribution: its name,
/// version and login, and no cloud ids.
pub open spec fn derives_from(h: TelemetryHydration, info: DistInfo) -> bool {
    &&& h.distribution == info.name
    &&& h.dbt_version@ == info.version@
    &&& h.is_logged_in == info.is_logged_in
    &&& h.dbt_cloud_account_identifier@ == ""@
    &&& h.dbt_cloud_project_id@ == ""@
    &&& h.dbt_cloud_environment_id@ == ""@
}

/// The telemetry fields that follow from a distribution.
pub fn hydration_of(info: DistInfo) -> (r: TelemetryHydration)
    ensures
        derives_from(r, info),
{
    TelemetryHydration {
        distribution: info.name,
        dbt_version: info.version.to_owned(),
        is_logged_in: info.is_logged_in,
        dbt_cloud_account_identifier: "".to_owned(),
        dbt_cloud_project_id: "".to_owned(),
        dbt_cloud_environment_id: "".to_owned(),
    }
}

/// Who knows the distribution.
pub trait DistInfoProvider: Send + Sync {
    fn dist_info(&self) -> DistInfo;

    /// The version of the server; by default that of this package.
    fn server_version(&self) -> (r: &'static str)
        default_ensures
            r@ == SERVER_VERSION@,
    {
        SERVER_VERSION
    }

    /// The telemetry fields that the server knows; by default those that follow from
    /// the distribution.
    fn telemetry_hydration(&self) -> (r: TelemetryHydration)
        default_ensures
            exists|info: DistInfo|
                call_ensures(Self::dist_info, (self,), info) && #[trigger] derives_from(r, info),
    {
        let info = self.dist_info();
        hydration_of(info)
    }
}

/// The open-source distribution, where nobody is logged in.
pub struct DefaultDistInfoProvider;

impl DistInfoProvider for DefaultDistInfoProvider {
    fn dist_info(&self) -> (r: DistInfo)
        ensures
            r.name@ == "oss"@,
            r.version@ == SERVER_VERSION@,
            !r.is_logged_in,
    {
        DistInfo {
            name: "oss".to_owned(),
            version: self.server_version(),
            is_logged_in: false,
        }
    }
}

} // verus!
