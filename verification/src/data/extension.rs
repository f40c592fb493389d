//! Extension info and auxiliary window response types.

use vstd::prelude::*;

verus! {

#[derive(Debug, Clone, PartialEq, Eq)]
pub enum ChromeAuxiliaryWindowResponse {
    ExtensionInstallPrompt { proceed: bool },
    ExtensionUninstallPrompt { proceed: bool, report_abuse: bool },
    PermissionPrompt { allow: bool },
    DownloadPrompt { allow: bool, destination_path: Option<String> },
    Unknown,
}

#[derive(Debug, Clone, PartialEq, Eq)]
pub enum ChromeIconData {
    Url(String),
    Png(Vec<u8>),
    Binary { media_type: Option<String>, bytes: Vec<u8> },
}

#[derive(Debug, Clone, PartialEq, Eq)]
pub struct ChromeExtensionInfo {
    pub id: String,
    pub name: String,
    pub version: String,
    pub enabled: bool,
    pub permission_names: Vec<String>,
    pub icon: Option<ChromeIconData>,
}

} // verus!
