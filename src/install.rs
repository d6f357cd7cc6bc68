//! Keeping the language server's package current: what the editor extension
//! decides from the versions that the package manager reports.
use vstd::prelude::*;

verus! {

/// The package that wraps the language server.
pub const LANGUAGE_SERVER_NAME: &'static str = "zed-ets-language-server";

/// The version of the package that is installed when none is.
pub const LANGUAGE_SERVER_VERSION: &'static str = "2";

/// Where the language server's script lies, relative to the extension's directory.
pub const ETS_SERVER_PATH: &'static str = "node_modules/@arkts/language-server/bin/ets-language-server.js";

/// Where the wrapper script lies when no other place is configured.
pub const DEFAULT_SERVER_WRAPPER_PATH: &'static str = "node_modules/zed-ets-language-server/index.js";

/// The message given when the latest version cannot be learned.
pub const LATEST_UNKNOWN: &'static str = "Failed to fetch latest version of zed-ets-language-server";

/// The installation status that the extension shows.
#[derive(Debug)]
pub enum InstallStatus {
    CheckingForUpdate,
    Downloading,
    /// Nothing is being done: the installed package is current.
    UpToDate,
    Failed(String),
}

/// What to do about the package: the status to show, and whether to install it.
#[derive(Debug)]
pub struct InstallPlan {
    pub status: InstallStatus,
    pub download: bool,
}

/// Decides from the installed version (if any, or why it is unknown) and the
/// latest version (or why it is unknown). Without a latest version the check
/// fails with `LATEST_UNKNOWN`. A missing or different installed version is
/// downloaded; the same one is left alone; an installed version that cannot be
/// learned is shown as failed and not downloaded over.
pub fn plan_install(installed: Result<Option<String>, String>, latest: Result<String, String>) -> (r: Result<InstallPlan, String>)
    ensures
        r is Err <==> latest is Err,
        r matches Err(m) ==> m@ == LATEST_UNKNOWN@,
        r matches Ok(plan) ==> match installed {
            Ok(Some(v)) => if v@ == latest->Ok_0@ {
                plan.status is UpToDate && !plan.download
            } else {
                plan.status is Downloading && plan.download
            },
            Ok(None) => plan.status is Downloading && plan.download,
            Err(e) => plan.status == InstallStatus::Failed(e) && !plan.download,
        },
{
    let latest = match latest {
        Ok(v) => v,
        Err(_) => {
            return Err(LATEST_UNKNOWN.to_owned());
        },
    };
    match installed {
        Ok(Some(v)) => {
            if v == latest {
                Ok(InstallPlan { status: InstallStatus::UpToDate, download: false })
            } else {
                Ok(InstallPlan { status: InstallStatus::Downloading, download: true })
            }
        },
        Ok(None) => Ok(InstallPlan { status: InstallStatus::Downloading, download: true }),
        Err(e) => Ok(InstallPlan { status: InstallStatus::Failed(e), download: false }),
    }
}

/// The wrapper script to run: the configured one, else the default.
pub fn server_wrapper_path(configured: Option<String>) -> (r: String)
    ensures
        r@ == match configured {
            Some(p) => p@,
            None => DEFAULT_SERVER_WRAPPER_PATH@,
        },
{
    match configured {
        Some(p) => p,
        None => DEFAULT_SERVER_WRAPPER_PATH.to_owned(),
    }
}

} // verus!
