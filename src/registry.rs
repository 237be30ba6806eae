//! The configuration keys and what is known of each before any lookup: its
//! Cargo path, its manifest query, its environment variable.

use vstd::prelude::*;
use vstd::string::*;
use crate::text::{opt_view, replace_char, replaced, to_uppercase, uppercase_of};

verus! {

/// One configuration parameter.
#[derive(Clone, Copy, PartialEq, Eq, Structural, Debug)]
pub enum ConfigType {
    StudioPath,
    AppProfile,
    AppId,
    AppVersion,
    AppPackage,
    ApiVersion,
    IsEmulator,
    AppExec,
    RootstrapPath,
    DeviceTriple,
    EmulatorTriple,
    SelectedTriple,
    RustTriple,
    Toolchain,
    ToolchainPath,
    RustLinker,
    TizenBin,
    AppLabel,
    AppUiType,
    SyncFiles,
}

/// The depth of a key in the graph of computed defaults: a key's computed
/// default, and its Cargo path, only consult keys of smaller rank.
pub open spec fn rank(k: ConfigType) -> nat {
    match k {
        ConfigType::RootstrapPath => 1,
        ConfigType::SelectedTriple => 1,
        ConfigType::TizenBin => 1,
        ConfigType::Toolchain => 2,
        ConfigType::RustTriple => 2,
        ConfigType::ToolchainPath => 3,
        ConfigType::RustLinker => 4,
        _ => 0,
    }
}

/// The fixed dotted Cargo path of a key.
pub open spec fn cargo_key_spec(k: ConfigType) -> Option<Seq<char>> {
    match k {
        ConfigType::StudioPath => Some("tizen.studio_path"@),
        ConfigType::AppProfile => Some("tizen.app_profile"@),
        ConfigType::ApiVersion => Some("tizen.api_version"@),
        ConfigType::IsEmulator => Some("tizen.is_emulator"@),
        ConfigType::RootstrapPath => Some("tizen.rootstrap_path"@),
        ConfigType::DeviceTriple => Some("tizen.device_triple"@),
        ConfigType::EmulatorTriple => Some("tizen.emulator_triple"@),
        ConfigType::SelectedTriple => Some("tizen.selected_triple"@),
        ConfigType::Toolchain => Some("tizen.toolchain"@),
        ConfigType::TizenBin => Some("tizen.bin_path"@),
        ConfigType::SyncFiles => Some("tizen.sync_files"@),
        ConfigType::AppLabel => Some("tizen.app_label"@),
        ConfigType::AppUiType => Some("tizen.app_ui_type"@),
        _ => None,
    }
}

/// The last piece of the Cargo path of a key that lives under the table of
/// the selected target.
pub open spec fn dynamic_suffix(k: ConfigType) -> Option<Seq<char>> {
    match k {
        ConfigType::RustTriple => Some("rust_triple"@),
        ConfigType::ToolchainPath => Some("toolchain_path"@),
        ConfigType::RustLinker => Some("rust_linker"@),
        _ => None,
    }
}

/// The Cargo path `tizen.target.<triple>.<suffix>`.
pub open spec fn target_key(triple: Seq<char>, suffix: Seq<char>) -> Seq<char> {
    "tizen.target."@ + triple + "."@ + suffix
}

/// The name of the environment variable of a key that has no Cargo path.
pub open spec fn env_override_spec(k: ConfigType) -> Option<Seq<char>> {
    match k {
        ConfigType::AppId => Some("TIZEN_APP_ID"@),
        ConfigType::AppVersion => Some("TIZEN_APP_VERSION"@),
        ConfigType::AppPackage => Some("TIZEN_APP_PACKAGE"@),
        ConfigType::AppExec => Some("TIZEN_APP_EXEC"@),
        _ => None,
    }
}

/// The manifest query of a key.
pub open spec fn manifest_key_spec(k: ConfigType) -> Option<Seq<char>> {
    match k {
        ConfigType::AppId => Some("/ns:manifest/ns:ui-application/@appid"@),
        ConfigType::AppVersion => Some("/ns:manifest/@version"@),
        ConfigType::ApiVersion => Some("/ns:manifest/@api-version"@),
        ConfigType::AppPackage => Some("/ns:manifest/@package"@),
        ConfigType::AppExec => Some("/ns:manifest/ns:ui-application/@exec"@),
        ConfigType::AppLabel => Some("/ns:manifest/ns:ui-application/ns:label"@),
        ConfigType::AppProfile => Some("/ns:manifest/ns:profile/@name"@),
        ConfigType::AppUiType => Some("/ns:manifest/ns:ui-application/@type"@),
        _ => None,
    }
}

/// An environment variable name made from a dotted path or a name: upper
/// case, with `.` and `-` turned into `_`.
pub open spec fn env_name(base: Seq<char>) -> Seq<char> {
    replaced(replaced(uppercase_of(base), '.', "_"@), '-', "_"@)
}

/// The environment variable of a key whose Cargo path is `cargo_key`: named
/// after that path, else after the key's own override name; `None` when
/// the key has neither.
pub open spec fn env_key_spec(k: ConfigType, cargo_key: Option<Seq<char>>) -> Option<Seq<char>> {
    match cargo_key {
        Some(c) => Some(env_name(c)),
        None => match env_override_spec(k) {
            Some(o) => Some(env_name(o)),
            None => None,
        },
    }
}

/// Every key, in declaration order.
pub open spec fn all_keys() -> Seq<ConfigType> {
    seq![
        ConfigType::StudioPath,
        ConfigType::AppProfile,
        ConfigType::AppId,
        ConfigType::AppVersion,
        ConfigType::AppPackage,
        ConfigType::ApiVersion,
        ConfigType::IsEmulator,
        ConfigType::AppExec,
        ConfigType::RootstrapPath,
        ConfigType::DeviceTriple,
        ConfigType::EmulatorTriple,
        ConfigType::SelectedTriple,
        ConfigType::RustTriple,
        ConfigType::Toolchain,
        ConfigType::ToolchainPath,
        ConfigType::RustLinker,
        ConfigType::TizenBin,
        ConfigType::AppLabel,
        ConfigType::AppUiType,
        ConfigType::SyncFiles,
    ]
}

/// Every key, in declaration order.
pub fn all_config_types() -> (r: Vec<ConfigType>)
    ensures
        r@ == all_keys(),
{
    let r = vec![
        ConfigType::StudioPath,
        ConfigType::AppProfile,
        ConfigType::AppId,
        ConfigType::AppVersion,
        ConfigType::AppPackage,
        ConfigType::ApiVersion,
        ConfigType::IsEmulator,
        ConfigType::AppExec,
        ConfigType::RootstrapPath,
        ConfigType::DeviceTriple,
        ConfigType::EmulatorTriple,
        ConfigType::SelectedTriple,
        ConfigType::RustTriple,
        ConfigType::Toolchain,
        ConfigType::ToolchainPath,
        ConfigType::RustLinker,
        ConfigType::TizenBin,
        ConfigType::AppLabel,
        ConfigType::AppUiType,
        ConfigType::SyncFiles,
    ];
    assert(r@ =~= all_keys());
    r
}

/// The fixed dotted Cargo path of a key.
pub fn get_cargo_key(k: ConfigType) -> (r: Option<String>)
    ensures
        opt_view(r) == cargo_key_spec(k),
{
    let s = match k {
        ConfigType::StudioPath => "tizen.studio_path",
        ConfigType::AppProfile => "tizen.app_profile",
        ConfigType::ApiVersion => "tizen.api_version",
        ConfigType::IsEmulator => "tizen.is_emulator",
        ConfigType::RootstrapPath => "tizen.rootstrap_path",
        ConfigType::DeviceTriple => "tizen.device_triple",
        ConfigType::EmulatorTriple => "tizen.emulator_triple",
        ConfigType::SelectedTriple => "tizen.selected_triple",
        ConfigType::Toolchain => "tizen.toolchain",
        ConfigType::TizenBin => "tizen.bin_path",
        ConfigType::SyncFiles => "tizen.sync_files",
        ConfigType::AppLabel => "tizen.app_label",
        ConfigType::AppUiType => "tizen.app_ui_type",
        _ => {
            return None;
        },
    };
    Some(String::from_str(s))
}

/// The last piece of the Cargo path of a key under the selected target.
pub fn get_dynamic_suffix(k: ConfigType) -> (r: Option<&'static str>)
    ensures
        match r {
            Some(s) => dynamic_suffix(k) == Some(s@),
            None => dynamic_suffix(k) is None,
        },
{
    match k {
        ConfigType::RustTriple => Some("rust_triple"),
        ConfigType::ToolchainPath => Some("toolchain_path"),
        ConfigType::RustLinker => Some("rust_linker"),
        _ => None,
    }
}

/// The Cargo path `tizen.target.<triple>.<suffix>`.
pub fn make_target_key(triple: &str, suffix: &str) -> (r: String)
    ensures
        r@ == target_key(triple@, suffix@),
{
    let mut s = String::from_str("tizen.target.");
    s.append(triple);
    s.append(".");
    s.append(suffix);
    s
}

/// The manifest query of a key.
pub fn get_manifest_key(k: ConfigType) -> (r: Option<String>)
    ensures
        opt_view(r) == manifest_key_spec(k),
{
    let s = match k {
        ConfigType::AppId => "/ns:manifest/ns:ui-application/@appid",
        ConfigType::AppVersion => "/ns:manifest/@version",
        ConfigType::ApiVersion => "/ns:manifest/@api-version",
        ConfigType::AppPackage => "/ns:manifest/@package",
        ConfigType::AppExec => "/ns:manifest/ns:ui-application/@exec",
        ConfigType::AppLabel => "/ns:manifest/ns:ui-application/ns:label",
        ConfigType::AppProfile => "/ns:manifest/ns:profile/@name",
        ConfigType::AppUiType => "/ns:manifest/ns:ui-application/@type",
        _ => {
            return None;
        },
    };
    Some(String::from_str(s))
}

/// The environment variable name made from a dotted path or a name.
pub fn make_env_name(base: &str) -> (r: String)
    ensures
        r@ == env_name(base@),
{
    let upper = to_uppercase(base);
    let dots = replace_char(upper.as_str(), '.', "_");
    replace_char(dots.as_str(), '-', "_")
}

/// The environment variable of a key whose Cargo path is `cargo_key`.
pub fn get_env_key(k: ConfigType, cargo_key: &Option<String>) -> (r: Option<String>)
    ensures
        opt_view(r) == env_key_spec(k, opt_view(*cargo_key)),
{
    match cargo_key {
        Some(c) => Some(make_env_name(c.as_str())),
        None => {
            let o = match k {
                ConfigType::AppId => "TIZEN_APP_ID",
                ConfigType::AppVersion => "TIZEN_APP_VERSION",
                ConfigType::AppPackage => "TIZEN_APP_PACKAGE",
                ConfigType::AppExec => "TIZEN_APP_EXEC",
                _ => {
                    return None;
                },
            };
            Some(make_env_name(o))
        },
    }
}

} // verus!
