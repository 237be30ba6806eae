//! Properties of resolution that hold for every set of sources.

use vstd::prelude::*;
use crate::provider::{
    arg_value, cargo_value, default_value, env_value, first_text, lookup_key, manifest_value,
    not_found_message, pair_lookup, resolution, resolve_with, resolved_value, sources_after_env,
    sources_after_manifest, truthy, ConfigFrom, ConfigProvider,
};
use crate::toml_value::{text_at, TomlValue};
use crate::registry::{env_key_spec, manifest_key_spec, target_key, ConfigType};
use crate::text::is_prefix;

verus! {

proof fn lemma_first_text_at(docs: Seq<TomlValue>, key: Seq<char>, i: int)
    requires
        0 <= i < docs.len(),
        text_at(docs[i], key) is Some,
        forall|j: int| 0 <= j < i ==> text_at(#[trigger] docs[j], key) is None,
    ensures
        first_text(docs, key) == text_at(docs[i], key),
    decreases i,
{
    if i > 0 {
        let rest = docs.drop_first();
        assert forall|j: int| 0 <= j < i - 1 implies text_at(#[trigger] rest[j], key) is None by {
            assert(rest[j] == docs[j + 1]);
        }
        lemma_first_text_at(rest, key, i - 1);
    }
}

/// The project's `Cargo.toml` outranks every configuration file: a path
/// that it holds is read from it.
pub proof fn lemma_project_file_first(p: ConfigProvider, key: Seq<char>)
    requires
        text_at(p.cargo_build_file, key) is Some,
    ensures
        cargo_value(p, key) == text_at(p.cargo_build_file, key),
{
}

/// A key whose Cargo path lies outside `package.` and is missing from the
/// project's `Cargo.toml`, but held by a configuration file, resolves from
/// the Cargo files to the text of the first configuration file that holds
/// it, when neither the environment nor the manifest has a value for it.
pub proof fn lemma_override_file_value(p: ConfigProvider, k: ConfigType, i: int)
    requires
        lookup_key(p, k) is Some,
        !is_prefix("package."@, lookup_key(p, k)->0),
        text_at(p.cargo_build_file, lookup_key(p, k)->0) is None,
        0 <= i < p.cargo_files@.len(),
        text_at(p.cargo_files@[i], lookup_key(p, k)->0) is Some,
        forall|j: int|
            0 <= j < i ==> text_at(#[trigger] p.cargo_files@[j], lookup_key(p, k)->0) is None,
        env_value(p, env_key_spec(k, lookup_key(p, k))->0) is None,
        manifest_key_spec(k) matches Some(q) ==> manifest_value(p, q) is None,
    ensures
        resolution(p, k) == Ok::<(ConfigFrom, Seq<char>), Seq<char>>(
            (ConfigFrom::Cargo, text_at(p.cargo_files@[i], lookup_key(p, k)->0)->0),
        ),
{
    let ck = lookup_key(p, k);
    let ek = env_key_spec(k, ck)->0;
    lemma_first_text_at(p.cargo_files@, ck->0, i);
    assert(cargo_value(p, ck->0) == text_at(p.cargo_files@[i], ck->0));
    assert(resolution(p, k) == resolve_with(p, k, ck));
    assert(resolve_with(p, k, ck) == sources_after_env(p, k, ck, ek));
    assert(sources_after_env(p, k, ck, ek) == sources_after_manifest(p, k, ck, ek));
}

/// A set environment variable, even an empty one, decides a key over the
/// manifest, the Cargo files, the command line and the defaults.
pub proof fn lemma_env_wins(p: ConfigProvider, k: ConfigType, v: Seq<char>)
    requires
        env_key_spec(k, lookup_key(p, k)) matches Some(ek) && env_value(p, ek) == Some(v),
    ensures
        resolution(p, k) == Ok::<(ConfigFrom, Seq<char>), Seq<char>>((ConfigFrom::Env, v)),
{
}

/// A manifest query that evaluates to the empty string is no value: when
/// the environment has none either, the scan goes on with the Cargo files.
pub proof fn lemma_empty_manifest_answer(p: ConfigProvider, k: ConfigType)
    requires
        manifest_key_spec(k) matches Some(q) && pair_lookup(p.manifest@, q) == Some(
            Seq::<char>::empty(),
        ),
        env_key_spec(k, lookup_key(p, k)) matches Some(ek) && env_value(p, ek) is None,
    ensures
        manifest_value(p, manifest_key_spec(k)->0) is None,
        resolution(p, k) == sources_after_manifest(
            p,
            k,
            lookup_key(p, k),
            env_key_spec(k, lookup_key(p, k))->0,
        ),
{
    let ck = lookup_key(p, k);
    let ek = env_key_spec(k, ck)->0;
    assert(resolution(p, k) == resolve_with(p, k, ck));
    assert(resolve_with(p, k, ck) == sources_after_env(p, k, ck, ek));
}

/// When the emulator flag resolves true and the selected triple is left to
/// its computed default, the three target keys are looked up under the
/// emulator triple's table.
pub proof fn lemma_emulator_target_keys(p: ConfigProvider)
    requires
        resolved_value(p, ConfigType::IsEmulator) matches Some(e) && truthy(e),
        resolved_value(p, ConfigType::EmulatorTriple) is Some,
        env_value(p, env_key_spec(ConfigType::SelectedTriple, Some("tizen.selected_triple"@))->0) is None,
        cargo_value(p, "tizen.selected_triple"@) is None,
        text_at(p.cargo_default_file, "tizen.selected_triple"@) is None,
    ensures
        lookup_key(p, ConfigType::RustTriple) == Some(
            target_key(resolved_value(p, ConfigType::EmulatorTriple)->0, "rust_triple"@),
        ),
        lookup_key(p, ConfigType::ToolchainPath) == Some(
            target_key(resolved_value(p, ConfigType::EmulatorTriple)->0, "toolchain_path"@),
        ),
        lookup_key(p, ConfigType::RustLinker) == Some(
            target_key(resolved_value(p, ConfigType::EmulatorTriple)->0, "rust_linker"@),
        ),
{
    let k = ConfigType::SelectedTriple;
    assert(lookup_key(p, k) == Some("tizen.selected_triple"@));
    assert(manifest_key_spec(k) is None);
    assert(arg_value(p, k) is None);
    assert(default_value(p, k, lookup_key(p, k)) == resolved_value(p, ConfigType::EmulatorTriple));
    assert(resolution(p, k) == Ok::<(ConfigFrom, Seq<char>), Seq<char>>(
        (ConfigFrom::Default, resolved_value(p, ConfigType::EmulatorTriple)->0),
    ));
}

/// A key found in no source fails with a message that has a line for its
/// manifest query and for its Cargo path where it has them, and one for its
/// environment variable.
pub proof fn lemma_not_found(p: ConfigProvider, k: ConfigType)
    requires
        env_key_spec(k, lookup_key(p, k)) matches Some(ek) && env_value(p, ek) is None,
        manifest_key_spec(k) matches Some(q) ==> manifest_value(p, q) is None,
        lookup_key(p, k) matches Some(c) ==> cargo_value(p, c) is None,
        arg_value(p, k) is None,
        default_value(p, k, lookup_key(p, k)) is None,
    ensures
        resolution(p, k) == Err::<(ConfigFrom, Seq<char>), Seq<char>>(
            not_found_message(
                manifest_key_spec(k),
                lookup_key(p, k),
                env_key_spec(k, lookup_key(p, k))->0,
            ),
        ),
{
}

} // verus!
