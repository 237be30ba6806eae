//! The resolved configuration gathered into named build parameters, and what
//! is derived from them: output directories and the extra environment of the
//! build tools.

use vstd::prelude::*;
use vstd::string::*;
use crate::error::TizenError;
use crate::path::{join, joined};
use crate::provider::{
    cargo_value, lookup_key, record_matches, resolution, resolved_value, truthy, ConfigFrom,
    ConfigProvider, ConfigValue,
};
use crate::registry::ConfigType;
use crate::text::{contains, occurs_in, pieces, replace_char, replaced, split, to_uppercase, uppercase_of};

verus! {

/// The build parameters of the application.
pub struct TizenEnv {
    /// Every resolved key, in the order of `record_order`.
    pub raw_config_values: Vec<ConfigValue>,
    pub base_path: String,
    pub studio_path: String,
    pub tizen_bin: String,
    pub is_emulator: bool,
    pub api_version: String,
    pub app_profile: String,
    pub rootstrap_path: String,
    pub tizen_triple: String,
    pub rust_triple: String,
    pub toolchain: String,
    pub toolchain_path: String,
    pub rust_linker: String,
    pub app_id: String,
    pub app_version: String,
    pub app_package: String,
    pub app_exec: String,
    pub app_label: String,
    pub app_ui_type: String,
    pub cargo_pkg_name: String,
    pub sync_files: Vec<String>,
}

/// The order in which the keys are resolved when the parameters are built.
pub open spec fn resolution_order() -> Seq<ConfigType> {
    seq![
        ConfigType::StudioPath,
        ConfigType::IsEmulator,
        ConfigType::ApiVersion,
        ConfigType::AppProfile,
        ConfigType::RootstrapPath,
        ConfigType::DeviceTriple,
        ConfigType::EmulatorTriple,
        ConfigType::SelectedTriple,
        ConfigType::Toolchain,
        ConfigType::RustTriple,
        ConfigType::ToolchainPath,
        ConfigType::RustLinker,
        ConfigType::AppId,
        ConfigType::AppVersion,
        ConfigType::AppPackage,
        ConfigType::AppExec,
        ConfigType::TizenBin,
        ConfigType::AppLabel,
        ConfigType::AppUiType,
        ConfigType::SyncFiles,
    ]
}

/// The order in which the resolved records are listed.
pub open spec fn record_order() -> Seq<ConfigType> {
    seq![
        ConfigType::StudioPath,
        ConfigType::IsEmulator,
        ConfigType::ApiVersion,
        ConfigType::AppProfile,
        ConfigType::RootstrapPath,
        ConfigType::SelectedTriple,
        ConfigType::DeviceTriple,
        ConfigType::EmulatorTriple,
        ConfigType::Toolchain,
        ConfigType::RustTriple,
        ConfigType::ToolchainPath,
        ConfigType::RustLinker,
        ConfigType::AppId,
        ConfigType::AppVersion,
        ConfigType::AppPackage,
        ConfigType::AppExec,
        ConfigType::TizenBin,
        ConfigType::AppLabel,
        ConfigType::SyncFiles,
        ConfigType::AppUiType,
    ]
}

/// Where the `i`-th listed record stands in `resolution_order`.
pub open spec fn record_position(i: int) -> int {
    if i == 5 {
        7
    } else if i == 6 {
        5
    } else if i == 7 {
        6
    } else if i == 18 {
        19
    } else if i == 19 {
        18
    } else {
        i
    }
}

proof fn lemma_record_positions()
    ensures
        record_order().len() == resolution_order().len(),
        forall|i: int|
            0 <= i < record_order().len() ==> #[trigger] record_order()[i] == resolution_order()[record_position(i)],
{
    assert forall|i: int| 0 <= i < record_order().len() implies #[trigger] record_order()[i]
        == resolution_order()[record_position(i)] by {
        if i == 5 {
        } else if i == 6 {
        } else if i == 7 {
        } else if i == 18 {
        } else if i == 19 {
        } else {
            assert(record_order()[i] == resolution_order()[i]);
        }
    }
}

fn record_position_of(i: usize) -> (r: usize)
    ensures
        r == record_position(i as int),
{
    if i == 5 {
        7
    } else if i == 6 {
        5
    } else if i == 7 {
        6
    } else if i == 18 {
        19
    } else if i == 19 {
        18
    } else {
        i
    }
}

/// The error of the first key of `ks` that does not resolve.
pub open spec fn first_failure(p: ConfigProvider, ks: Seq<ConfigType>) -> Option<Seq<char>>
    decreases ks.len(),
{
    if ks.len() == 0 {
        None
    } else {
        match resolution(p, ks[0]) {
            Err(m) => Some(m),
            Ok(_) => first_failure(p, ks.drop_first()),
        }
    }
}

/// `cv` is the record that resolving `k` gives.
pub open spec fn is_record(cv: ConfigValue, p: ConfigProvider, k: ConfigType) -> bool {
    record_matches(Ok(cv), p, k, lookup_key(p, k))
}

/// The value that `k` resolves to, when it does.
pub open spec fn value_of(p: ConfigProvider, k: ConfigType) -> Seq<char> {
    resolved_value(p, k)->0
}

/// The extra environment of the build tools: pkg-config's sysroot and
/// search path, cross compilation allowed, the sysroot for the linker, and
/// Cargo's linker for the Rust target.
pub open spec fn build_env(rootstrap: Seq<char>, rust_triple: Seq<char>, linker: Seq<char>) -> Seq<
    (Seq<char>, Seq<char>),
> {
    seq![
        ("PKG_CONFIG_SYSROOT_DIR"@, rootstrap),
        ("PKG_CONFIG_LIBDIR"@, rootstrap + "/usr/lib/pkgconfig"@),
        ("PKG_CONFIG_PATH"@, Seq::empty()),
        ("PKG_CONFIG_ALLOW_CROSS"@, "1"@),
        ("RUSTFLAGS"@, "-C link-args=--sysroot="@ + rootstrap),
        ("CARGO_TARGET_"@ + replaced(uppercase_of(rust_triple), '-', "_"@) + "_LINKER"@, linker),
    ]
}

/// The views of a list of (name, value) pairs.
pub open spec fn pairs_view(s: Seq<(String, String)>) -> Seq<(Seq<char>, Seq<char>)> {
    s.map_values(|p: (String, String)| (p.0@, p.1@))
}

/// `s` with `(k, v)` set: pairs named `k` take the value `v`; when there is
/// none, the pair is added at the end.
pub open spec fn upserted(s: Seq<(Seq<char>, Seq<char>)>, k: Seq<char>, v: Seq<char>) -> Seq<
    (Seq<char>, Seq<char>),
> {
    let m = s.map_values(
        |p: (Seq<char>, Seq<char>)|
            if p.0 == k {
                (k, v)
            } else {
                p
            },
    );
    if exists|i: int| 0 <= i < s.len() && #[trigger] s[i].0 == k {
        m
    } else {
        m.push((k, v))
    }
}

/// `base` with each record's variable set to its value, in turn.
pub open spec fn with_records(base: Seq<(Seq<char>, Seq<char>)>, raw: Seq<ConfigValue>) -> Seq<
    (Seq<char>, Seq<char>),
>
    decreases raw.len(),
{
    if raw.len() == 0 {
        base
    } else {
        upserted(with_records(base, raw.drop_last()), raw.last().env_key@, raw.last().value@)
    }
}

/// The label of a source, as shown to users.
pub open spec fn source_label(f: ConfigFrom) -> Seq<char> {
    match f {
        ConfigFrom::Env => "env"@,
        ConfigFrom::Arg => "cli args"@,
        ConfigFrom::Cargo => "cargo file"@,
        ConfigFrom::Manifest => "manifest"@,
        ConfigFrom::Default => "default"@,
    }
}

/// The Rust output directory: `<base>/target/<rust triple>/<release|debug>`.
pub open spec fn rust_output_path(base: Seq<char>, rust_triple: Seq<char>, is_release: bool) -> Seq<
    char,
> {
    joined(
        joined(joined(base, "target"@), rust_triple),
        if is_release {
            "release"@
        } else {
            "debug"@
        },
    )
}

/// The label of a source, as shown to users.
pub fn from_to_s(config_from: ConfigFrom) -> (r: String)
    ensures
        r@ == source_label(config_from),
{
    match config_from {
        ConfigFrom::Env => String::from_str("env"),
        ConfigFrom::Arg => String::from_str("cli args"),
        ConfigFrom::Cargo => String::from_str("cargo file"),
        ConfigFrom::Manifest => String::from_str("manifest"),
        ConfigFrom::Default => String::from_str("default"),
    }
}

fn resolution_keys() -> (r: Vec<ConfigType>)
    ensures
        r@ == resolution_order(),
{
    let r = vec![
        ConfigType::StudioPath,
        ConfigType::IsEmulator,
        ConfigType::ApiVersion,
        ConfigType::AppProfile,
        ConfigType::RootstrapPath,
        ConfigType::DeviceTriple,
        ConfigType::EmulatorTriple,
        ConfigType::SelectedTriple,
        ConfigType::Toolchain,
        ConfigType::RustTriple,
        ConfigType::ToolchainPath,
        ConfigType::RustLinker,
        ConfigType::AppId,
        ConfigType::AppVersion,
        ConfigType::AppPackage,
        ConfigType::AppExec,
        ConfigType::TizenBin,
        ConfigType::AppLabel,
        ConfigType::AppUiType,
        ConfigType::SyncFiles,
    ];
    assert(r@ =~= resolution_order());
    r
}

/// `pairs` with `(k, v)` set.
pub fn upsert(pairs: &Vec<(String, String)>, k: &String, v: &String) -> (r: Vec<(String, String)>)
    ensures
        pairs_view(r@) == upserted(pairs_view(pairs@), k@, v@),
{
    let ghost s = pairs_view(pairs@);
    let mut out: Vec<(String, String)> = Vec::new();
    let mut found = false;
    let n = pairs.len();
    let mut i: usize = 0;
    while i < n
        invariant
            n == pairs@.len(),
            i <= n,
            s == pairs_view(pairs@),
            pairs_view(out@) =~= upserted(s, k@, v@).subrange(0, i as int),
            found == exists|j: int| 0 <= j < i && #[trigger] s[j].0 == k@,
        decreases n - i,
    {
        let ghost before = out@;
        if pairs[i].0 == *k {
            out.push((k.clone(), v.clone()));
            found = true;
        } else {
            out.push((pairs[i].0.clone(), pairs[i].1.clone()));
        }
        assert(out@.drop_last() == before);
        assert(pairs_view(out@) =~= pairs_view(before).push(pairs_view(out@).last()));
        i = i + 1;
    }
    if !found {
        let ghost before = out@;
        out.push((k.clone(), v.clone()));
        assert(out@.drop_last() == before);
        assert(pairs_view(out@) =~= pairs_view(before).push((k@, v@)));
    }
    out
}

impl TizenEnv {
    /// Resolves every key against the sources of `provider` and gathers the
    /// values; `cwd` is the project's directory. Fails with the error of the
    /// first key in `resolution_order` that does not resolve, else when the
    /// project's `Cargo.toml` has no `package.name`.
    pub fn from_cargo_config(cwd: &str, provider: &ConfigProvider) -> (r: Result<TizenEnv, TizenError>)
        ensures
            match r {
                Ok(env) => {
                    &&& first_failure(*provider, resolution_order()) is None
                    &&& cargo_value(*provider, "package.name"@) == Some(env.cargo_pkg_name@)
                    &&& env.base_path@ == cwd@
                    &&& env.raw_config_values@.len() == record_order().len()
                    &&& forall|i: int|
                        0 <= i < record_order().len() ==> is_record(
                            #[trigger] env.raw_config_values@[i],
                            *provider,
                            record_order()[i],
                        )
                    &&& resolved_value(*provider, ConfigType::StudioPath) == Some(env.studio_path@)
                    &&& env.is_emulator == truthy(value_of(*provider, ConfigType::IsEmulator))
                    &&& resolved_value(*provider, ConfigType::ApiVersion) == Some(env.api_version@)
                    &&& resolved_value(*provider, ConfigType::AppProfile) == Some(env.app_profile@)
                    &&& resolved_value(*provider, ConfigType::RootstrapPath) == Some(env.rootstrap_path@)
                    &&& resolved_value(*provider, ConfigType::SelectedTriple) == Some(env.tizen_triple@)
                    &&& resolved_value(*provider, ConfigType::RustTriple) == Some(env.rust_triple@)
                    &&& resolved_value(*provider, ConfigType::Toolchain) == Some(env.toolchain@)
                    &&& resolved_value(*provider, ConfigType::ToolchainPath) == Some(env.toolchain_path@)
                    &&& resolved_value(*provider, ConfigType::RustLinker) == Some(env.rust_linker@)
                    &&& resolved_value(*provider, ConfigType::AppId) == Some(env.app_id@)
                    &&& resolved_value(*provider, ConfigType::AppVersion) == Some(env.app_version@)
                    &&& resolved_value(*provider, ConfigType::AppPackage) == Some(env.app_package@)
                    &&& resolved_value(*provider, ConfigType::AppExec) == Some(env.app_exec@)
                    &&& resolved_value(*provider, ConfigType::TizenBin) == Some(env.tizen_bin@)
                    &&& resolved_value(*provider, ConfigType::AppLabel) == Some(env.app_label@)
                    &&& resolved_value(*provider, ConfigType::AppUiType) == Some(env.app_ui_type@)
                    &&& env.sync_files@.len() == pieces(value_of(*provider, ConfigType::SyncFiles), ',').len()
                    &&& forall|j: int|
                        0 <= j < env.sync_files@.len() ==> #[trigger] env.sync_files@[j]@ == pieces(
                            value_of(*provider, ConfigType::SyncFiles),
                            ',',
                        )[j]
                },
                Err(e) => match first_failure(*provider, resolution_order()) {
                    Some(m) => e.message@ == m,
                    None => cargo_value(*provider, "package.name"@) is None && e.message@
                        == "Can't get package.name from Cargo.toml"@,
                },
            },
    {
        let order = resolution_keys();
        let n = order.len();
        let mut vals: Vec<ConfigValue> = Vec::new();
        let mut i: usize = 0;
        assert(order@.subrange(0, n as int) =~= order@);
        while i < n
            invariant
                n == order@.len(),
                order@ == resolution_order(),
                i <= n,
                vals@.len() == i,
                forall|j: int| 0 <= j < i ==> is_record(#[trigger] vals@[j], *provider, order@[j]),
                first_failure(*provider, order@) == first_failure(
                    *provider,
                    order@.subrange(i as int, n as int),
                ),
            decreases n - i,
        {
            assert(order@.subrange(i as int, n as int).drop_first() =~= order@.subrange(
                i + 1,
                n as int,
            ));
            assert(order@.subrange(i as int, n as int)[0] == order@[i as int]);
            match provider.get_value(order[i]) {
                Ok(v) => {
                    vals.push(v);
                },
                Err(e) => {
                    return Err(e);
                },
            }
            i = i + 1;
        }
        let cargo_pkg_name = match provider.get_cargo_value("package.name") {
            Some(s) => s,
            None => {
                return Err(TizenError::new(String::from_str("Can't get package.name from Cargo.toml")));
            },
        };
        proof {
            assert forall|j: int| 0 <= j < n implies resolved_value(*provider, #[trigger] order@[j])
                == Some(vals@[j].value@) by {
                assert(is_record(vals@[j], *provider, order@[j]));
            }
        }
        proof {
            lemma_record_positions();
        }
        let mut raw: Vec<ConfigValue> = Vec::new();
        let mut j: usize = 0;
        while j < n
            invariant
                n == order@.len(),
                n == vals@.len(),
                order@ == resolution_order(),
                j <= n,
                raw@.len() == j,
                forall|m: int| 0 <= m < n ==> is_record(#[trigger] vals@[m], *provider, order@[m]),
                forall|m: int| 0 <= m < j ==> is_record(#[trigger] raw@[m], *provider, record_order()[m]),
                forall|m: int|
                    0 <= m < record_order().len() ==> #[trigger] record_order()[m] == resolution_order()[record_position(m)],
            decreases n - j,
        {
            let pos = record_position_of(j);
            assert(0 <= pos < n);
            let cv = vals[pos].duplicate();
            assert(is_record(vals@[pos as int], *provider, order@[pos as int]));
            assert(record_order()[j as int] == order@[pos as int]);
            raw.push(cv);
            j = j + 1;
        }
        let sync_files = split(vals[19].value.as_str(), ',');
        let env = TizenEnv {
            base_path: String::from_str(cwd),
            studio_path: vals[0].value.clone(),
            is_emulator: crate::provider::str_to_bool(vals[1].value.as_str()),
            api_version: vals[2].value.clone(),
            app_profile: vals[3].value.clone(),
            rootstrap_path: vals[4].value.clone(),
            tizen_triple: vals[7].value.clone(),
            toolchain: vals[8].value.clone(),
            rust_triple: vals[9].value.clone(),
            toolchain_path: vals[10].value.clone(),
            rust_linker: vals[11].value.clone(),
            app_id: vals[12].value.clone(),
            app_version: vals[13].value.clone(),
            app_package: vals[14].value.clone(),
            app_exec: vals[15].value.clone(),
            tizen_bin: vals[16].value.clone(),
            app_label: vals[17].value.clone(),
            app_ui_type: vals[18].value.clone(),
            cargo_pkg_name,
            sync_files,
            raw_config_values: raw,
        };
        Ok(env)
    }

    /// The extra environment of the build tools, derived from the rootstrap,
    /// the Rust triple and the linker.
    pub fn get_additional_build_env(&self) -> (r: Vec<(String, String)>)
        ensures
            pairs_view(r@) == build_env(self.rootstrap_path@, self.rust_triple@, self.rust_linker@),
    {
        let root = self.rootstrap_path.as_str();
        let mut envs: Vec<(String, String)> = Vec::new();
        envs.push((String::from_str("PKG_CONFIG_SYSROOT_DIR"), String::from_str(root)));
        let mut libdir = String::from_str(root);
        libdir.append("/usr/lib/pkgconfig");
        envs.push((String::from_str("PKG_CONFIG_LIBDIR"), libdir));
        envs.push((String::from_str("PKG_CONFIG_PATH"), String::new()));
        envs.push((String::from_str("PKG_CONFIG_ALLOW_CROSS"), String::from_str("1")));
        let mut flags = String::from_str("-C link-args=--sysroot=");
        flags.append(root);
        envs.push((String::from_str("RUSTFLAGS"), flags));
        let upper = to_uppercase(self.rust_triple.as_str());
        let target = replace_char(upper.as_str(), '-', "_");
        let mut linker_var = String::from_str("CARGO_TARGET_");
        linker_var.append(target.as_str());
        linker_var.append("_LINKER");
        envs.push((linker_var, self.rust_linker.clone()));
        assert(pairs_view(envs@) =~= build_env(
            self.rootstrap_path@,
            self.rust_triple@,
            self.rust_linker@,
        ));
        envs
    }

    /// The directory where Cargo puts the build of the Rust target.
    pub fn rust_output_dir(&self, is_release: bool) -> (r: String)
        ensures
            r@ == rust_output_path(self.base_path@, self.rust_triple@, is_release),
    {
        let step_a = join(self.base_path.as_str(), "target");
        let step_b = join(step_a.as_str(), self.rust_triple.as_str());
        join(step_b.as_str(), if is_release { "release" } else { "debug" })
    }

    /// The directory where the package is assembled: `tizen-tpk` under the
    /// Rust output directory.
    pub fn tizen_output_dir(&self, is_release: bool) -> (r: String)
        ensures
            r@ == joined(rust_output_path(self.base_path@, self.rust_triple@, is_release), "tizen-tpk"@),
    {
        let out = self.rust_output_dir(is_release);
        join(out.as_str(), "tizen-tpk")
    }

    /// The architecture family of the selected triple: `arm` when it names
    /// an ARM target, `x86` otherwise.
    pub fn arch_alias(&self) -> (r: String)
        ensures
            r@ == (if occurs_in("arm"@, self.tizen_triple@) {
                "arm"@
            } else {
                "x86"@
            }),
    {
        if contains(self.tizen_triple.as_str(), "arm") {
            String::from_str("arm")
        } else {
            String::from_str("x86")
        }
    }
}

/// The environment of the build tools: the extra build environment, with
/// each resolved key's variable set to its value.
pub fn make_process_env(tizen_env: &TizenEnv) -> (r: Vec<(String, String)>)
    ensures
        pairs_view(r@) == with_records(
            build_env(tizen_env.rootstrap_path@, tizen_env.rust_triple@, tizen_env.rust_linker@),
            tizen_env.raw_config_values@,
        ),
{
    let mut env_map = tizen_env.get_additional_build_env();
    let ghost base = pairs_view(env_map@);
    let raw = &tizen_env.raw_config_values;
    let n = raw.len();
    let mut i: usize = 0;
    while i < n
        invariant
            n == raw@.len(),
            i <= n,
            pairs_view(env_map@) == with_records(base, raw@.subrange(0, i as int)),
        decreases n - i,
    {
        assert(raw@.subrange(0, i + 1).drop_last() =~= raw@.subrange(0, i as int));
        env_map = upsert(&env_map, &raw[i].env_key, &raw[i].value);
        i = i + 1;
    }
    assert(raw@.subrange(0, n as int) =~= raw@);
    env_map
}

} // verus!
