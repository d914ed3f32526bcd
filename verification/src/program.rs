use vstd::prelude::*;

verus! {

/// What the application reports about itself.
#[derive(Debug, Clone, PartialEq, Eq)]
pub struct ProgramInfo {
    pub launcher_version: String,
    pub webview_version: String,
    pub tauri_version: String,
    pub dev_build: bool,
    pub platform: String,
    pub arch: String,
}

/// What the application reports about itself, from what its parts report;
/// a webview that does not tell its version is reported as `UNKNOWN`.
pub fn get_program_info(
    launcher_version: &str,
    webview_version: Option<String>,
    tauri_version: &str,
    dev_build: bool,
    platform: &str,
    arch: &str,
) -> (r: ProgramInfo)
    ensures
        r.launcher_version@ == launcher_version@,
        r.webview_version@ == match webview_version {
            Some(version) => version@,
            None => "UNKNOWN"@,
        },
        r.tauri_version@ == tauri_version@,
        r.dev_build == dev_build,
        r.platform@ == platform@,
        r.arch@ == arch@,
{
    ProgramInfo {
        launcher_version: launcher_version.to_owned(),
        webview_version: match webview_version {
            Some(version) => version,
            None => "UNKNOWN".to_owned(),
        },
        tauri_version: tauri_version.to_owned(),
        dev_build,
        platform: platform.to_owned(),
        arch: arch.to_owned(),
    }
}

} // verus!
