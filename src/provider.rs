//! The resolution of configuration keys: for each key, the sources in fixed
//! order (environment, manifest, Cargo files, command line, defaults), the
//! first one with a value deciding the result and its provenance.

use vstd::prelude::*;
use vstd::string::*;
use crate::error::TizenError;
use crate::path::{join, joined};
use crate::registry::{
    cargo_key_spec, env_key_spec, get_cargo_key, get_dynamic_suffix, get_env_key,
    get_manifest_key, make_target_key, manifest_key_spec, rank, target_key, ConfigType,
};
use crate::text::{
    contains, is_prefix, lex_less, lex_lt, occurs_in, opt_view, starts_with, text_eq,
};
use crate::manifest::{manifest_answer, read_manifest, xml_parses};
use crate::toml_value::{get_text, parse_toml, text_at, toml_document, TomlValue};

verus! {

/// Where a resolved value came from.
#[derive(Clone, Copy, PartialEq, Eq, Structural, Debug)]
pub enum ConfigFrom {
    Env,
    Cargo,
    Manifest,
    Arg,
    Default,
}

/// A resolved key: its value, where it came from, and the names under which
/// it was looked up.
pub struct ConfigValue {
    pub config_type: ConfigType,
    pub from: ConfigFrom,
    pub value: String,
    pub env_key: String,
    pub cargo_key: Option<String>,
    pub manifest_key: Option<String>,
}

impl ConfigValue {
    /// A copy of this record.
    pub fn duplicate(&self) -> (r: ConfigValue)
        ensures
            r.config_type == self.config_type,
            r.from == self.from,
            r.value@ == self.value@,
            r.env_key@ == self.env_key@,
            opt_view(r.cargo_key) == opt_view(self.cargo_key),
            opt_view(r.manifest_key) == opt_view(self.manifest_key),
    {
        ConfigValue {
            config_type: self.config_type,
            from: self.from,
            value: self.value.clone(),
            env_key: self.env_key.clone(),
            cargo_key: match &self.cargo_key {
                Some(s) => Some(s.clone()),
                None => None,
            },
            manifest_key: match &self.manifest_key {
                Some(s) => Some(s.clone()),
                None => None,
            },
        }
    }
}

/// Everything that resolution reads, gathered once and read-only after.
pub struct ConfigProvider {
    /// The process environment, as (name, value) pairs.
    pub env: Vec<(String, String)>,
    /// The manifest queries of the keys with what each evaluated to.
    pub manifest: Vec<(String, String)>,
    /// The project's own `Cargo.toml`.
    pub cargo_build_file: TomlValue,
    /// The `.cargo/config.toml` files from the working directory upwards.
    pub cargo_files: Vec<TomlValue>,
    /// The bundled default configuration.
    pub cargo_default_file: TomlValue,
    /// Whether the emulator flag was given on the command line.
    pub emulator_flag: bool,
    /// Directories that resolution scans, each with the names of its entries.
    pub listings: Vec<(String, Vec<String>)>,
}

/// The configuration shipped with the tool, below every other source.
pub const DEFAULT_CONFIG: &'static str = "
[tizen]
studio_path = \"/opt/tizen-studio\"
api_version = \"5.5\"
app_profile = \"wearable\"
is_emulator = false
device_triple = \"armv7l-tizen-linux-gnueabi\"
emulator_triple = \"i586-tizen-linux-gnueabi\"
app_ui_type = \"capp\"
sync_files = [\"res\", \"shared\", \"tizen-manifest.xml\"]

[tizen.target.armv7l-tizen-linux-gnueabi]
rust_triple = \"armv7-unknown-linux-gnueabi\"

[tizen.target.i586-tizen-linux-gnueabi]
rust_triple = \"i686-unknown-linux-gnu\"

[tizen.target.aarch64-tizen-linux-gnu]
rust_triple = \"aarch64-unknown-linux-gnu\"
";

/// The documents that the texts parse to, in order, leaving out the texts
/// that do not parse.
pub open spec fn parsed_documents(texts: Seq<String>) -> Seq<TomlValue>
    decreases texts.len(),
{
    if texts.len() == 0 {
        Seq::empty()
    } else {
        let prev = parsed_documents(texts.drop_last());
        match toml_document(texts.last()@) {
            Some(d) => prev.push(d),
            None => prev,
        }
    }
}

/// The value paired with `key`: the first pair so named.
pub open spec fn pair_lookup(pairs: Seq<(String, String)>, key: Seq<char>) -> Option<Seq<char>>
    decreases pairs.len(),
{
    if pairs.len() == 0 {
        None
    } else if pairs[0].0@ == key {
        Some(pairs[0].1@)
    } else {
        pair_lookup(pairs.drop_first(), key)
    }
}

/// The entries listed for the directory `dir`: the first listing so named.
pub open spec fn listing_of(listings: Seq<(String, Vec<String>)>, dir: Seq<char>) -> Option<
    Seq<String>,
>
    decreases listings.len(),
{
    if listings.len() == 0 {
        None
    } else if listings[0].0@ == dir {
        Some(listings[0].1@)
    } else {
        listing_of(listings.drop_first(), dir)
    }
}

/// The text that the first document of `docs` holding one gives at `key`.
pub open spec fn first_text(docs: Seq<TomlValue>, key: Seq<char>) -> Option<Seq<char>>
    decreases docs.len(),
{
    if docs.len() == 0 {
        None
    } else {
        match text_at(docs[0], key) {
            Some(t) => Some(t),
            None => first_text(docs.drop_first(), key),
        }
    }
}

/// A flag's text read as true: `1` or `true`.
pub open spec fn truthy(v: Seq<char>) -> bool {
    v == "1"@ || v == "true"@
}

/// The environment's value of the variable `name`, empty or not.
pub open spec fn env_value(p: ConfigProvider, name: Seq<char>) -> Option<Seq<char>> {
    pair_lookup(p.env@, name)
}

/// The manifest's answer to `query`; an empty answer is no answer.
pub open spec fn manifest_value(p: ConfigProvider, query: Seq<char>) -> Option<Seq<char>> {
    match pair_lookup(p.manifest@, query) {
        Some(a) => if a.len() > 0 {
            Some(a)
        } else {
            None
        },
        None => None,
    }
}

/// The Cargo files' text at `key`: the project's file first, then, unless
/// the key is under `package.`, the configuration files in their order.
pub open spec fn cargo_value(p: ConfigProvider, key: Seq<char>) -> Option<Seq<char>> {
    match text_at(p.cargo_build_file, key) {
        Some(t) => Some(t),
        None => if is_prefix("package."@, key) {
            None
        } else {
            first_text(p.cargo_files@, key)
        },
    }
}

/// The command line's value for a key: `true` for the emulator flag.
pub open spec fn arg_value(p: ConfigProvider, k: ConfigType) -> Option<Seq<char>> {
    if k == ConfigType::IsEmulator && p.emulator_flag {
        Some("true"@)
    } else {
        None
    }
}

/// Whether a tools directory entry is a toolchain of `triple`.
pub open spec fn is_toolchain_entry(name: Seq<char>, triple: Seq<char>) -> bool {
    is_prefix(triple, name) && occurs_in("gcc"@, name)
}

/// A toolchain entry without its `<triple>-` prefix.
pub open spec fn toolchain_name(name: Seq<char>, triple: Seq<char>) -> Seq<char> {
    let p = triple + "-"@;
    if is_prefix(p, name) {
        name.subrange(p.len() as int, name.len() as int)
    } else {
        name
    }
}

/// The newest toolchain of `triple` among the entries: the greatest name in
/// lexicographic order once the `<triple>-` prefix is taken off.
pub open spec fn newest_toolchain(entries: Seq<String>, triple: Seq<char>) -> Option<Seq<char>>
    decreases entries.len(),
{
    if entries.len() == 0 {
        None
    } else {
        let prev = newest_toolchain(entries.drop_last(), triple);
        let e = entries.last()@;
        if is_toolchain_entry(e, triple) {
            let t = toolchain_name(e, triple);
            match prev {
                None => Some(t),
                Some(q) => if lex_less(q, t) {
                    Some(t)
                } else {
                    Some(q)
                },
            }
        } else {
            prev
        }
    }
}

/// The rootstrap of a platform under the studio.
pub open spec fn rootstrap_path(
    studio: Seq<char>,
    api: Seq<char>,
    profile: Seq<char>,
    emulator: bool,
) -> Seq<char> {
    joined(
        joined(
            joined(joined(joined(studio, "platforms"@), "tizen-"@ + api), profile),
            "rootstraps"@,
        ),
        profile + "-"@ + api + "-"@ + (if emulator {
            "emulator"@
        } else {
            "device"@
        }) + ".core"@,
    )
}

/// The `bin` directory of a toolchain under the studio.
pub open spec fn toolchain_path(studio: Seq<char>, triple: Seq<char>, toolchain: Seq<char>) -> Seq<
    char,
> {
    joined(joined(joined(studio, "tools"@), triple + "-"@ + toolchain), "bin"@)
}

/// The studio's command line tool.
pub open spec fn tizen_bin_path(studio: Seq<char>) -> Seq<char> {
    joined(joined(joined(joined(studio, "tools"@), "ide"@), "bin"@), "tizen"@)
}

/// The linker: the toolchain path pushed onto itself, then `<triple>-gcc`.
pub open spec fn linker_path(toolchain_path: Seq<char>, triple: Seq<char>) -> Seq<char> {
    joined(joined(toolchain_path, toolchain_path), triple + "-gcc"@)
}

/// The message of a key found nowhere: a line for the manifest query and
/// for the Cargo path where the key has them, then one for the environment.
pub open spec fn not_found_message(
    manifest_key: Option<Seq<char>>,
    cargo_key: Option<Seq<char>>,
    env_key: Seq<char>,
) -> Seq<char> {
    (match manifest_key {
        Some(m) => "Config '"@ + m + "' not found in manifest xml\n"@,
        None => Seq::empty(),
    }) + (match cargo_key {
        Some(c) => "Config '"@ + c + "' not found in cargo config\n"@,
        None => Seq::empty(),
    }) + "Config '"@ + env_key + "' not found in env"@
}

/// The message of a key that has no environment variable.
pub open spec fn invalid_key_message() -> Seq<char> {
    "Invalid config type or name"@
}

/// The value that a key resolves to, if it resolves.
pub open spec fn resolved_value(p: ConfigProvider, k: ConfigType) -> Option<Seq<char>>
    decreases rank(k), 8nat,
{
    match resolution(p, k) {
        Ok((_, v)) => Some(v),
        Err(_) => None,
    }
}

/// The outcome of resolving a key: its source and value, or an error message.
pub open spec fn resolution(p: ConfigProvider, k: ConfigType) -> Result<
    (ConfigFrom, Seq<char>),
    Seq<char>,
>
    decreases rank(k), 7nat,
{
    resolve_with(p, k, lookup_key(p, k))
}

/// The Cargo path under which a key is looked up: under the selected
/// target's table for the three target keys (none when the selected triple
/// does not resolve), the fixed path otherwise.
pub open spec fn lookup_key(p: ConfigProvider, k: ConfigType) -> Option<Seq<char>>
    decreases rank(k), 6nat,
{
    match k {
        ConfigType::RustTriple => match resolution(p, ConfigType::SelectedTriple) {
            Ok((_, t)) => Some(target_key(t, "rust_triple"@)),
            Err(_) => None,
        },
        ConfigType::ToolchainPath => match resolution(p, ConfigType::SelectedTriple) {
            Ok((_, t)) => Some(target_key(t, "toolchain_path"@)),
            Err(_) => None,
        },
        ConfigType::RustLinker => match resolution(p, ConfigType::SelectedTriple) {
            Ok((_, t)) => Some(target_key(t, "rust_linker"@)),
            Err(_) => None,
        },
        _ => cargo_key_spec(k),
    }
}

/// The Cargo path actually used: the one given, else the key's fixed one.
pub open spec fn effective_key(k: ConfigType, given: Option<Seq<char>>) -> Option<Seq<char>> {
    match given {
        Some(g) => Some(g),
        None => cargo_key_spec(k),
    }
}

/// The scan of the sources for a key looked up under the Cargo path `ck`.
pub open spec fn resolve_with(p: ConfigProvider, k: ConfigType, ck: Option<Seq<char>>) -> Result<
    (ConfigFrom, Seq<char>),
    Seq<char>,
>
    decreases rank(k), 5nat,
{
    match env_key_spec(k, ck) {
        None => Err(invalid_key_message()),
        Some(ek) => if env_value(p, ek) is Some {
            Ok((ConfigFrom::Env, env_value(p, ek)->0))
        } else {
            sources_after_env(p, k, ck, ek)
        },
    }
}

/// The scan from the manifest on, once the environment had no value.
pub open spec fn sources_after_env(
    p: ConfigProvider,
    k: ConfigType,
    ck: Option<Seq<char>>,
    ek: Seq<char>,
) -> Result<(ConfigFrom, Seq<char>), Seq<char>>
    decreases rank(k), 4nat,
{
    let mk = manifest_key_spec(k);
    if mk is Some && manifest_value(p, mk->0) is Some {
        Ok((ConfigFrom::Manifest, manifest_value(p, mk->0)->0))
    } else {
        sources_after_manifest(p, k, ck, ek)
    }
}

/// The scan from the Cargo files on, once the environment and the manifest
/// had no value: Cargo files, command line, defaults, else the error that
/// names each source consulted.
pub open spec fn sources_after_manifest(
    p: ConfigProvider,
    k: ConfigType,
    ck: Option<Seq<char>>,
    ek: Seq<char>,
) -> Result<(ConfigFrom, Seq<char>), Seq<char>>
    decreases rank(k), 3nat,
{
    if ck is Some && cargo_value(p, ck->0) is Some {
        Ok((ConfigFrom::Cargo, cargo_value(p, ck->0)->0))
    } else if arg_value(p, k) is Some {
        Ok((ConfigFrom::Arg, arg_value(p, k)->0))
    } else if default_value(p, k, ck) is Some {
        Ok((ConfigFrom::Default, default_value(p, k, ck)->0))
    } else {
        Err(not_found_message(manifest_key_spec(k), ck, ek))
    }
}

/// The default of a key: the bundled file's text at its Cargo path, else
/// its computed default.
pub open spec fn default_value(p: ConfigProvider, k: ConfigType, ck: Option<Seq<char>>) -> Option<
    Seq<char>,
>
    decreases rank(k), 2nat,
{
    match ck {
        Some(c) => match text_at(p.cargo_default_file, c) {
            Some(t) => Some(t),
            None => computed_default(p, k),
        },
        None => computed_default(p, k),
    }
}

/// The default that a key computes from other keys' resolved values.
pub open spec fn computed_default(p: ConfigProvider, k: ConfigType) -> Option<Seq<char>>
    decreases rank(k), 1nat,
{
    match k {
        ConfigType::RootstrapPath => match (
            resolved_value(p, ConfigType::ApiVersion),
            resolved_value(p, ConfigType::AppProfile),
            resolved_value(p, ConfigType::IsEmulator),
            resolved_value(p, ConfigType::StudioPath),
        ) {
            (Some(api), Some(profile), Some(emu), Some(studio)) => Some(
                rootstrap_path(studio, api, profile, truthy(emu)),
            ),
            _ => None,
        },
        ConfigType::SelectedTriple => match resolved_value(p, ConfigType::IsEmulator) {
            Some(emu) => if truthy(emu) {
                resolved_value(p, ConfigType::EmulatorTriple)
            } else {
                resolved_value(p, ConfigType::DeviceTriple)
            },
            None => None,
        },
        ConfigType::Toolchain => match (
            resolved_value(p, ConfigType::StudioPath),
            resolved_value(p, ConfigType::SelectedTriple),
        ) {
            (Some(studio), Some(triple)) => match listing_of(
                p.listings@,
                joined(studio, "tools"@),
            ) {
                Some(entries) => newest_toolchain(entries, triple),
                None => None,
            },
            _ => None,
        },
        ConfigType::ToolchainPath => match (
            resolved_value(p, ConfigType::StudioPath),
            resolved_value(p, ConfigType::Toolchain),
            resolved_value(p, ConfigType::SelectedTriple),
        ) {
            (Some(studio), Some(toolchain), Some(triple)) => Some(
                toolchain_path(studio, triple, toolchain),
            ),
            _ => None,
        },
        ConfigType::TizenBin => match resolved_value(p, ConfigType::StudioPath) {
            Some(studio) => Some(tizen_bin_path(studio)),
            None => None,
        },
        ConfigType::RustLinker => match (
            resolved_value(p, ConfigType::ToolchainPath),
            resolved_value(p, ConfigType::SelectedTriple),
        ) {
            (Some(tp), Some(triple)) => Some(linker_path(tp, triple)),
            _ => None,
        },
        _ => None,
    }
}

/// `r` is the record of key `k` looked up under the Cargo path `ck`.
pub open spec fn record_matches(
    r: Result<ConfigValue, TizenError>,
    p: ConfigProvider,
    k: ConfigType,
    ck: Option<Seq<char>>,
) -> bool {
    match r {
        Ok(cv) => {
            &&& resolve_with(p, k, ck) == Ok::<(ConfigFrom, Seq<char>), Seq<char>>((cv.from, cv.value@))
            &&& cv.config_type == k
            &&& opt_view(cv.cargo_key) == ck
            &&& env_key_spec(k, ck) == Some(cv.env_key@)
            &&& opt_view(cv.manifest_key) == manifest_key_spec(k)
        },
        Err(e) => resolve_with(p, k, ck) == Err::<(ConfigFrom, Seq<char>), Seq<char>>(e.message@),
    }
}

/// A flag's text read as true.
pub fn str_to_bool(val: &str) -> (r: bool)
    ensures
        r == truthy(val@),
{
    text_eq(val, "1") || text_eq(val, "true")
}

fn find_pair(pairs: &Vec<(String, String)>, key: &String) -> (r: Option<String>)
    ensures
        opt_view(r) == pair_lookup(pairs@, key@),
{
    let n = pairs.len();
    let mut i: usize = 0;
    assert(pairs@.subrange(0, n as int) =~= pairs@);
    while i < n
        invariant
            n == pairs@.len(),
            i <= n,
            pair_lookup(pairs@, key@) == pair_lookup(pairs@.subrange(i as int, n as int), key@),
        decreases n - i,
    {
        assert(pairs@.subrange(i as int, n as int).drop_first() =~= pairs@.subrange(
            i + 1,
            n as int,
        ));
        if pairs[i].0 == *key {
            return Some(pairs[i].1.clone());
        }
        i = i + 1;
    }
    None
}

fn find_listing<'a>(listings: &'a Vec<(String, Vec<String>)>, dir: &String) -> (r: Option<
    &'a Vec<String>,
>)
    ensures
        match r {
            Some(v) => listing_of(listings@, dir@) == Some(v@),
            None => listing_of(listings@, dir@) is None,
        },
{
    let n = listings.len();
    let mut i: usize = 0;
    assert(listings@.subrange(0, n as int) =~= listings@);
    while i < n
        invariant
            n == listings@.len(),
            i <= n,
            listing_of(listings@, dir@) == listing_of(listings@.subrange(i as int, n as int), dir@),
        decreases n - i,
    {
        assert(listings@.subrange(i as int, n as int).drop_first() =~= listings@.subrange(
            i + 1,
            n as int,
        ));
        if listings[i].0 == *dir {
            return Some(&listings[i].1);
        }
        i = i + 1;
    }
    None
}

/// The newest toolchain of `triple` among the entries of a tools directory.
pub fn newest_toolchain_of(entries: &Vec<String>, triple: &str) -> (r: Option<String>)
    ensures
        opt_view(r) == newest_toolchain(entries@, triple@),
{
    let mut prefix = String::from_str(triple);
    prefix.append("-");
    let n = entries.len();
    let mut best: Option<String> = None;
    let mut i: usize = 0;
    while i < n
        invariant
            n == entries@.len(),
            i <= n,
            prefix@ == triple@ + "-"@,
            opt_view(best) == newest_toolchain(entries@.subrange(0, i as int), triple@),
        decreases n - i,
    {
        assert(entries@.subrange(0, i + 1).drop_last() =~= entries@.subrange(0, i as int));
        let e = entries[i].as_str();
        if starts_with(e, triple) && contains(e, "gcc") {
            let name = if starts_with(e, prefix.as_str()) {
                let len = e.unicode_len();
                String::from_str(e.substring_char(prefix.as_str().unicode_len(), len))
            } else {
                String::from_str(e)
            };
            best = match best {
                None => Some(name),
                Some(q) => if lex_lt(q.as_str(), name.as_str()) {
                    Some(name)
                } else {
                    Some(q)
                },
            };
        }
        i = i + 1;
    }
    assert(entries@.subrange(0, n as int) =~= entries@);
    best
}

impl ConfigProvider {
    /// A provider over the given sources, with no directory listed yet.
    pub fn new(
        env: Vec<(String, String)>,
        manifest: Vec<(String, String)>,
        cargo_build_file: TomlValue,
        cargo_files: Vec<TomlValue>,
        cargo_default_file: TomlValue,
        emulator_flag: bool,
    ) -> (r: ConfigProvider)
        ensures
            r.env == env,
            r.manifest == manifest,
            r.cargo_build_file == cargo_build_file,
            r.cargo_files == cargo_files,
            r.cargo_default_file == cargo_default_file,
            r.emulator_flag == emulator_flag,
            r.listings@ == Seq::<(String, Vec<String>)>::empty(),
    {
        ConfigProvider {
            env,
            manifest,
            cargo_build_file,
            cargo_files,
            cargo_default_file,
            emulator_flag,
            listings: Vec::new(),
        }
    }

    /// Gathers the sources from the texts of the files: the project's
    /// `Cargo.toml` (at `cargo_path`), which must parse; the configuration
    /// files, each left out when it does not parse; the manifest, which
    /// must parse; and the bundled defaults.
    pub fn from_texts(
        env: Vec<(String, String)>,
        cargo_path: &str,
        cargo_text: &str,
        config_texts: &Vec<String>,
        manifest_text: &str,
        emulator_flag: bool,
    ) -> (r: Result<ConfigProvider, TizenError>)
        ensures
            toml_document(cargo_text@) is None ==> (r matches Err(e) && e.message@ == "Can't parse "@
                + cargo_path@),
            toml_document(cargo_text@) is Some && !xml_parses(manifest_text@) ==> r is Err,
            toml_document(cargo_text@) is Some && xml_parses(manifest_text@) && toml_document(
                DEFAULT_CONFIG@,
            ) is Some ==> r is Ok,
            r matches Ok(p) ==> {
                &&& p.env == env
                &&& p.cargo_build_file == toml_document(cargo_text@)->0
                &&& p.cargo_files@ == parsed_documents(config_texts@)
                &&& p.cargo_default_file == toml_document(DEFAULT_CONFIG@)->0
                &&& p.emulator_flag == emulator_flag
                &&& p.listings@.len() == 0
                &&& forall|k: ConfigType|
                    #[trigger] manifest_key_spec(k) matches Some(q) ==> pair_lookup(p.manifest@, q)
                        == manifest_answer(manifest_text@, q)
            },
    {
        let mut cargo_files: Vec<TomlValue> = Vec::new();
        let n = config_texts.len();
        let mut i: usize = 0;
        while i < n
            invariant
                n == config_texts@.len(),
                i <= n,
                cargo_files@ == parsed_documents(config_texts@.subrange(0, i as int)),
            decreases n - i,
        {
            assert(config_texts@.subrange(0, i + 1).drop_last() =~= config_texts@.subrange(
                0,
                i as int,
            ));
            if let Some(d) = parse_toml(config_texts[i].as_str()) {
                cargo_files.push(d);
            }
            i = i + 1;
        }
        assert(config_texts@.subrange(0, n as int) =~= config_texts@);
        let cargo_build_file = match parse_toml(cargo_text) {
            Some(d) => d,
            None => {
                let mut message = String::from_str("Can't parse ");
                message.append(cargo_path);
                return Err(TizenError::new(message));
            },
        };
        let cargo_default_file = match parse_toml(DEFAULT_CONFIG) {
            Some(d) => d,
            None => {
                return Err(TizenError::new(String::from_str("Can't parse the default configuration")));
            },
        };
        let manifest = read_manifest(manifest_text)?;
        Ok(ConfigProvider::new(env, manifest, cargo_build_file, cargo_files, cargo_default_file, emulator_flag))
    }

    /// Records the entry names found in the directory `dir`.
    pub fn add_listing(&mut self, dir: String, entries: Vec<String>)
        ensures
            final(self).listings@ == old(self).listings@.push((dir, entries)),
            final(self).env == old(self).env,
            final(self).manifest == old(self).manifest,
            final(self).cargo_build_file == old(self).cargo_build_file,
            final(self).cargo_files == old(self).cargo_files,
            final(self).cargo_default_file == old(self).cargo_default_file,
            final(self).emulator_flag == old(self).emulator_flag,
    {
        self.listings.push((dir, entries));
    }

    /// Resolves a key: for the three target keys, the Cargo path is first
    /// made from the resolved selected triple.
    pub fn get_value(&self, k: ConfigType) -> (r: Result<ConfigValue, TizenError>)
        ensures
            record_matches(r, *self, k, lookup_key(*self, k)),
        decreases rank(k), 5nat,
    {
        let dynamic: Option<String> = match get_dynamic_suffix(k) {
            Some(suffix) => {
                assert(rank(ConfigType::SelectedTriple) < rank(k));
                match self.get_value(ConfigType::SelectedTriple) {
                    Ok(selected) => Some(make_target_key(selected.value.as_str(), suffix)),
                    Err(_) => None,
                }
            },
            None => None,
        };
        self.get_custom_value(k, dynamic)
    }

    /// The value a key resolves to, if it resolves.
    pub fn resolved(&self, k: ConfigType) -> (r: Option<String>)
        ensures
            opt_view(r) == resolved_value(*self, k),
        decreases rank(k), 6nat,
    {
        match self.get_value(k) {
            Ok(v) => Some(v.value),
            Err(_) => None,
        }
    }

    /// The studio's tools directory, which the toolchain default scans, when
    /// the studio path resolves.
    pub fn tools_dir(&self) -> (r: Option<String>)
        ensures
            match resolved_value(*self, ConfigType::StudioPath) {
                Some(studio) => r matches Some(d) && d@ == joined(studio, "tools"@),
                None => r is None,
            },
    {
        let studio = self.resolved(ConfigType::StudioPath)?;
        Some(join(studio.as_str(), "tools"))
    }

    /// Scans the sources for a key looked up under the Cargo path
    /// `cargo_key` (the key's fixed path when none is given).
    pub fn get_custom_value(&self, k: ConfigType, cargo_key: Option<String>) -> (r: Result<
        ConfigValue,
        TizenError,
    >)
        ensures
            record_matches(r, *self, k, effective_key(k, opt_view(cargo_key))),
        decreases rank(k), 3nat,
    {
        let cargo_key = match cargo_key {
            Some(c) => Some(c),
            None => get_cargo_key(k),
        };
        let env_key = match get_env_key(k, &cargo_key) {
            Some(e) => e,
            None => {
                return Err(TizenError::new(String::from_str("Invalid config type or name")));
            },
        };
        let manifest_key = get_manifest_key(k);

        if let Some(v) = self.get_env_value(&env_key) {
            return Ok(
                ConfigValue {
                    config_type: k,
                    from: ConfigFrom::Env,
                    value: v,
                    env_key,
                    cargo_key,
                    manifest_key,
                },
            );
        }
        let from_manifest = match &manifest_key {
            Some(m) => self.get_manifest_value(m),
            None => None,
        };
        if let Some(v) = from_manifest {
            return Ok(
                ConfigValue {
                    config_type: k,
                    from: ConfigFrom::Manifest,
                    value: v,
                    env_key,
                    cargo_key,
                    manifest_key,
                },
            );
        }
        let from_cargo = match &cargo_key {
            Some(c) => self.get_cargo_value(c.as_str()),
            None => None,
        };
        if let Some(v) = from_cargo {
            return Ok(
                ConfigValue {
                    config_type: k,
                    from: ConfigFrom::Cargo,
                    value: v,
                    env_key,
                    cargo_key,
                    manifest_key,
                },
            );
        }
        if let Some(v) = self.get_arg_value(k) {
            return Ok(
                ConfigValue {
                    config_type: k,
                    from: ConfigFrom::Arg,
                    value: v,
                    env_key,
                    cargo_key,
                    manifest_key,
                },
            );
        }
        if let Some(v) = self.get_default_value(k, &cargo_key) {
            return Ok(
                ConfigValue {
                    config_type: k,
                    from: ConfigFrom::Default,
                    value: v,
                    env_key,
                    cargo_key,
                    manifest_key,
                },
            );
        }
        let mut message = String::new();
        if let Some(m) = &manifest_key {
            message.append("Config '");
            message.append(m.as_str());
            message.append("' not found in manifest xml\n");
        }
        if let Some(c) = &cargo_key {
            message.append("Config '");
            message.append(c.as_str());
            message.append("' not found in cargo config\n");
        }
        let ghost head = message@;
        assert(head =~= (match opt_view(manifest_key) {
            Some(m) => "Config '"@ + m + "' not found in manifest xml\n"@,
            None => Seq::empty(),
        }) + (match opt_view(cargo_key) {
            Some(c) => "Config '"@ + c + "' not found in cargo config\n"@,
            None => Seq::empty(),
        }));
        message.append("Config '");
        message.append(env_key.as_str());
        message.append("' not found in env");
        assert(message@ =~= not_found_message(opt_view(manifest_key), opt_view(cargo_key), env_key@));
        Err(TizenError::new(message))
    }

    /// The environment's value of the variable `name`.
    pub fn get_env_value(&self, name: &String) -> (r: Option<String>)
        ensures
            opt_view(r) == env_value(*self, name@),
    {
        find_pair(&self.env, name)
    }

    /// The manifest's non-empty answer to `query`.
    pub fn get_manifest_value(&self, query: &String) -> (r: Option<String>)
        ensures
            opt_view(r) == manifest_value(*self, query@),
    {
        match find_pair(&self.manifest, query) {
            Some(a) => if a.as_str().unicode_len() > 0 {
                Some(a)
            } else {
                None
            },
            None => None,
        }
    }

    /// The Cargo files' text at the dotted path `key`.
    pub fn get_cargo_value(&self, key: &str) -> (r: Option<String>)
        ensures
            opt_view(r) == cargo_value(*self, key@),
    {
        if let Some(t) = get_text(&self.cargo_build_file, key) {
            return Some(t);
        }
        if starts_with(key, "package.") {
            return None;
        }
        let n = self.cargo_files.len();
        let mut i: usize = 0;
        assert(self.cargo_files@.subrange(0, n as int) =~= self.cargo_files@);
        while i < n
            invariant
                n == self.cargo_files@.len(),
                i <= n,
                text_at(self.cargo_build_file, key@) is None,
                !is_prefix("package."@, key@),
                first_text(self.cargo_files@, key@) == first_text(
                    self.cargo_files@.subrange(i as int, n as int),
                    key@,
                ),
            decreases n - i,
        {
            assert(self.cargo_files@.subrange(i as int, n as int).drop_first()
                =~= self.cargo_files@.subrange(i + 1, n as int));
            assert(self.cargo_files@.subrange(i as int, n as int)[0] == self.cargo_files@[i as int]);
            if let Some(t) = get_text(&self.cargo_files[i], key) {
                return Some(t);
            }
            i = i + 1;
        }
        None
    }

    /// The command line's value for a key.
    pub fn get_arg_value(&self, k: ConfigType) -> (r: Option<String>)
        ensures
            opt_view(r) == arg_value(*self, k),
    {
        match k {
            ConfigType::IsEmulator => if self.emulator_flag {
                Some(String::from_str("true"))
            } else {
                None
            },
            _ => None,
        }
    }

    /// The default of a key looked up under the Cargo path `cargo_key`.
    pub fn get_default_value(&self, k: ConfigType, cargo_key: &Option<String>) -> (r: Option<
        String,
    >)
        ensures
            opt_view(r) == default_value(*self, k, opt_view(*cargo_key)),
        decreases rank(k), 2nat,
    {
        if let Some(c) = cargo_key {
            if let Some(t) = get_text(&self.cargo_default_file, c.as_str()) {
                return Some(t);
            }
        }
        self.get_default_computed_value(k)
    }

    /// The default that a key computes from other keys.
    pub fn get_default_computed_value(&self, k: ConfigType) -> (r: Option<String>)
        ensures
            opt_view(r) == computed_default(*self, k),
        decreases rank(k), 1nat,
    {
        match k {
            ConfigType::RootstrapPath => {
                let api = self.resolved(ConfigType::ApiVersion)?;
                let profile = self.resolved(ConfigType::AppProfile)?;
                let emu = self.resolved(ConfigType::IsEmulator)?;
                let studio = self.resolved(ConfigType::StudioPath)?;
                let is_emulator = str_to_bool(emu.as_str());
                let mut platform = String::from_str("tizen-");
                platform.append(api.as_str());
                let mut core = profile.clone();
                core.append("-");
                core.append(api.as_str());
                core.append("-");
                if is_emulator {
                    core.append("emulator");
                } else {
                    core.append("device");
                }
                core.append(".core");
                let step_a = join(studio.as_str(), "platforms");
                let step_b = join(step_a.as_str(), platform.as_str());
                let step_c = join(step_b.as_str(), profile.as_str());
                let step_d = join(step_c.as_str(), "rootstraps");
                Some(join(step_d.as_str(), core.as_str()))
            },
            ConfigType::SelectedTriple => {
                let emu = self.resolved(ConfigType::IsEmulator)?;
                if str_to_bool(emu.as_str()) {
                    self.resolved(ConfigType::EmulatorTriple)
                } else {
                    self.resolved(ConfigType::DeviceTriple)
                }
            },
            ConfigType::Toolchain => {
                let studio = self.resolved(ConfigType::StudioPath)?;
                let triple = self.resolved(ConfigType::SelectedTriple)?;
                let tools = join(studio.as_str(), "tools");
                match find_listing(&self.listings, &tools) {
                    Some(entries) => newest_toolchain_of(entries, triple.as_str()),
                    None => None,
                }
            },
            ConfigType::ToolchainPath => {
                let studio = self.resolved(ConfigType::StudioPath)?;
                let toolchain = self.resolved(ConfigType::Toolchain)?;
                let triple = self.resolved(ConfigType::SelectedTriple)?;
                let mut dir = triple.clone();
                dir.append("-");
                dir.append(toolchain.as_str());
                let step_a = join(studio.as_str(), "tools");
                let step_b = join(step_a.as_str(), dir.as_str());
                Some(join(step_b.as_str(), "bin"))
            },
            ConfigType::TizenBin => {
                let studio = self.resolved(ConfigType::StudioPath)?;
                let step_a = join(studio.as_str(), "tools");
                let step_b = join(step_a.as_str(), "ide");
                let step_c = join(step_b.as_str(), "bin");
                Some(join(step_c.as_str(), "tizen"))
            },
            ConfigType::RustLinker => {
                let tp = self.resolved(ConfigType::ToolchainPath)?;
                let triple = self.resolved(ConfigType::SelectedTriple)?;
                let mut gcc = triple.clone();
                gcc.append("-gcc");
                let step_a = join(tp.as_str(), tp.as_str());
                Some(join(step_a.as_str(), gcc.as_str()))
            },
            _ => None,
        }
    }
}

} // verus!
