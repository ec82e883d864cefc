//! The diagnostic report of all resolved paths.
use crate::{HealthReport, PathStatus, ResolutionMethod};
use vstd::prelude::*;

verus! {

/// The message given for a path that could not be resolved.
pub const RESOLUTION_FAILED: &'static str = "Resolution failed \u{2014} see error variants for details";

/// One resolution as the report sees it: the path and method that resolution gave
/// (no path and `Unresolved` where it failed), and whether that path exists on disk.
#[derive(Debug)]
pub struct Probe {
    pub path: Option<String>,
    pub method: ResolutionMethod,
    pub exists: bool,
}

/// Whether `s` reports the resolution `p`: its path, method and existence where
/// it resolved; no path, `Unresolved`, not existing and the failure message where
/// it did not.
pub open spec fn reports(s: PathStatus, p: Probe) -> bool {
    match p.path {
        Some(path) => {
            &&& s.path == Some(path)
            &&& s.resolved_via == p.method
            &&& s.exists == p.exists
            &&& s.error is None
        },
        None => {
            &&& s.path is None
            &&& s.resolved_via is Unresolved
            &&& !s.exists
            &&& s.error matches Some(m) && m@ == RESOLUTION_FAILED@
        },
    }
}

/// The status of one resolved (or unresolved) path.
pub fn path_status(path: Option<String>, method: ResolutionMethod, exists: bool) -> (s: PathStatus)
    ensures
        reports(s, Probe { path, method, exists }),
{
    match path {
        Some(p) => PathStatus { path: Some(p), resolved_via: method, exists, error: None },
        None => PathStatus {
            path: None,
            resolved_via: ResolutionMethod::Unresolved,
            exists: false,
            error: Some(String::from_str(RESOLUTION_FAILED)),
        },
    }
}

/// The full report: the three core paths, the configuration file (located by the
/// platform's convention), the platform, and the crate's version.
pub fn build_health_report(
    volumes: Probe,
    install: Probe,
    backups: Probe,
    config_file: String,
    config_file_exists: bool,
    platform: &str,
    crate_version: &str,
) -> (r: HealthReport)
    ensures
        reports(r.volumes, volumes),
        reports(r.install, install),
        reports(r.backups, backups),
        r.config_file.path == Some(config_file),
        r.config_file.resolved_via is PlatformDefault,
        r.config_file.exists == config_file_exists,
        r.config_file.error is None,
        r.platform@ == platform@,
        r.crate_version@ == crate_version@,
{
    HealthReport {
        volumes: path_status(volumes.path, volumes.method, volumes.exists),
        install: path_status(install.path, install.method, install.exists),
        backups: path_status(backups.path, backups.method, backups.exists),
        config_file: PathStatus {
            exists: config_file_exists,
            path: Some(config_file),
            resolved_via: ResolutionMethod::PlatformDefault,
            error: None,
        },
        platform: String::from_str(platform),
        crate_version: String::from_str(crate_version),
    }
}

} // verus!
