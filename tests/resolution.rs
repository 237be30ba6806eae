use cargo_tizen::provider::{ConfigFrom, ConfigProvider};
use cargo_tizen::registry::ConfigType;
use cargo_tizen::toml_value::TomlValue;

fn text(s: &str) -> TomlValue {
    TomlValue::Text(s.to_string())
}

fn table(entries: Vec<(&str, TomlValue)>) -> TomlValue {
    TomlValue::Table(entries.into_iter().map(|(k, v)| (k.to_string(), v)).collect())
}

fn tizen(entries: Vec<(&str, TomlValue)>) -> TomlValue {
    table(vec![("tizen", table(entries))])
}

fn env(pairs: &[(&str, &str)]) -> Vec<(String, String)> {
    pairs.iter().map(|(k, v)| (k.to_string(), v.to_string())).collect()
}

fn provider(
    env_pairs: &[(&str, &str)],
    manifest: &[(&str, &str)],
    primary: TomlValue,
    overrides: Vec<TomlValue>,
    defaults: TomlValue,
    emulator: bool,
) -> ConfigProvider {
    ConfigProvider::new(env(env_pairs), env(manifest), primary, overrides, defaults, emulator)
}

fn empty() -> TomlValue {
    table(vec![])
}

#[test]
fn override_file_value_when_project_file_lacks_it() {
    let p = provider(
        &[],
        &[],
        table(vec![("package", table(vec![("name", text("app"))]))]),
        vec![empty(), tizen(vec![("studio_path", text("/opt/studio"))]), tizen(vec![("studio_path", text("/far"))])],
        empty(),
        false,
    );
    let v = p.get_value(ConfigType::StudioPath).ok().unwrap();
    assert_eq!(v.value, "/opt/studio");
    assert!(matches!(v.from, ConfigFrom::Cargo));
    assert_eq!(v.cargo_key.as_deref(), Some("tizen.studio_path"));
    assert_eq!(v.env_key, "TIZEN_STUDIO_PATH");
}

#[test]
fn project_file_outranks_override_files() {
    let p = provider(
        &[],
        &[],
        tizen(vec![("studio_path", text("/project"))]),
        vec![tizen(vec![("studio_path", text("/override"))])],
        empty(),
        false,
    );
    let v = p.get_value(ConfigType::StudioPath).ok().unwrap();
    assert_eq!(v.value, "/project");
    assert!(matches!(v.from, ConfigFrom::Cargo));
}

#[test]
fn package_paths_are_read_from_the_project_file_only() {
    let p = provider(
        &[],
        &[],
        empty(),
        vec![table(vec![("package", table(vec![("name", text("other"))]))])],
        empty(),
        false,
    );
    assert_eq!(p.get_cargo_value("package.name"), None);
}

#[test]
fn empty_environment_variable_wins() {
    let p = provider(
        &[("TIZEN_API_VERSION", "")],
        &[("/ns:manifest/@api-version", "6.0")],
        tizen(vec![("api_version", text("5.5"))]),
        vec![],
        tizen(vec![("api_version", text("4.0"))]),
        false,
    );
    let v = p.get_value(ConfigType::ApiVersion).ok().unwrap();
    assert_eq!(v.value, "");
    assert!(matches!(v.from, ConfigFrom::Env));
}

#[test]
fn empty_manifest_answer_falls_through() {
    let p = provider(
        &[],
        &[("/ns:manifest/@api-version", "")],
        tizen(vec![("api_version", text("5.5"))]),
        vec![],
        empty(),
        false,
    );
    let v = p.get_value(ConfigType::ApiVersion).ok().unwrap();
    assert_eq!(v.value, "5.5");
    assert!(matches!(v.from, ConfigFrom::Cargo));
    assert_eq!(v.manifest_key.as_deref(), Some("/ns:manifest/@api-version"));
}

#[test]
fn manifest_answer_used_before_cargo() {
    let p = provider(
        &[],
        &[("/ns:manifest/@api-version", "6.0")],
        tizen(vec![("api_version", text("5.5"))]),
        vec![],
        empty(),
        false,
    );
    let v = p.get_value(ConfigType::ApiVersion).ok().unwrap();
    assert_eq!(v.value, "6.0");
    assert!(matches!(v.from, ConfigFrom::Manifest));
}

fn triples() -> TomlValue {
    tizen(vec![
        ("is_emulator", TomlValue::Boolean(false)),
        ("device_triple", text("armv7l-tizen-linux-gnueabi")),
        ("emulator_triple", text("i586-tizen-linux-gnueabi")),
        (
            "target",
            table(vec![
                ("armv7l-tizen-linux-gnueabi", table(vec![("rust_triple", text("armv7-unknown-linux-gnueabi"))])),
                ("i586-tizen-linux-gnueabi", table(vec![("rust_triple", text("i686-unknown-linux-gnu"))])),
            ]),
        ),
    ])
}

#[test]
fn emulator_flag_selects_emulator_triple_table() {
    let p = provider(&[], &[], empty(), vec![], triples(), true);
    let flag = p.get_value(ConfigType::IsEmulator).ok().unwrap();
    assert_eq!(flag.value, "true");
    assert!(matches!(flag.from, ConfigFrom::Arg));
    let sel = p.get_value(ConfigType::SelectedTriple).ok().unwrap();
    assert_eq!(sel.value, "i586-tizen-linux-gnueabi");
    assert!(matches!(sel.from, ConfigFrom::Default));
    let rt = p.get_value(ConfigType::RustTriple).ok().unwrap();
    assert_eq!(rt.cargo_key.as_deref(), Some("tizen.target.i586-tizen-linux-gnueabi.rust_triple"));
    assert_eq!(rt.env_key, "TIZEN_TARGET_I586_TIZEN_LINUX_GNUEABI_RUST_TRIPLE");
    assert_eq!(rt.value, "i686-unknown-linux-gnu");
}

#[test]
fn device_triple_without_emulator_flag() {
    let p = provider(&[("TIZEN_IS_EMULATOR", "0")], &[], empty(), vec![], triples(), true);
    let rt = p.get_value(ConfigType::RustTriple).ok().unwrap();
    assert_eq!(rt.cargo_key.as_deref(), Some("tizen.target.armv7l-tizen-linux-gnueabi.rust_triple"));
    assert_eq!(rt.value, "armv7-unknown-linux-gnueabi");
}

#[test]
fn toolchain_picks_newest_gcc() {
    let mut p = provider(
        &[("TIZEN_STUDIO_PATH", "/home/u/tizen-studio")],
        &[],
        empty(),
        vec![],
        triples(),
        false,
    );
    p.add_listing(
        "/home/u/tizen-studio/tools".to_string(),
        vec![
            "armv7l-tizen-linux-gnueabi-gcc-9.2".to_string(),
            "armv7l-tizen-linux-gnueabi-gcc-6.2".to_string(),
            "armv7l-tizen-linux-gnueabi-clang-8".to_string(),
        ],
    );
    let tc = p.get_value(ConfigType::Toolchain).ok().unwrap();
    assert_eq!(tc.value, "gcc-9.2");
    assert!(matches!(tc.from, ConfigFrom::Default));
    let tp = p.get_value(ConfigType::ToolchainPath).ok().unwrap();
    assert_eq!(tp.value, "/home/u/tizen-studio/tools/armv7l-tizen-linux-gnueabi-gcc-9.2/bin");
    let linker = p.get_value(ConfigType::RustLinker).ok().unwrap();
    assert_eq!(
        linker.value,
        "/home/u/tizen-studio/tools/armv7l-tizen-linux-gnueabi-gcc-9.2/bin/armv7l-tizen-linux-gnueabi-gcc"
    );
    let bin = p.get_value(ConfigType::TizenBin).ok().unwrap();
    assert_eq!(bin.value, "/home/u/tizen-studio/tools/ide/bin/tizen");
}

#[test]
fn toolchain_missing_tools_directory_fails() {
    let p = provider(&[("TIZEN_STUDIO_PATH", "/nowhere")], &[], empty(), vec![], triples(), false);
    let e = p.get_value(ConfigType::Toolchain).err().unwrap();
    assert_eq!(
        e.message,
        "Config 'tizen.toolchain' not found in cargo config\nConfig 'TIZEN_TOOLCHAIN' not found in env"
    );
}

#[test]
fn rootstrap_path_is_composed() {
    let p = provider(
        &[("TIZEN_STUDIO_PATH", "/s"), ("TIZEN_IS_EMULATOR", "1")],
        &[("/ns:manifest/@api-version", "5.5"), ("/ns:manifest/ns:profile/@name", "wearable")],
        empty(),
        vec![],
        empty(),
        false,
    );
    let r = p.get_value(ConfigType::RootstrapPath).ok().unwrap();
    assert_eq!(r.value, "/s/platforms/tizen-5.5/wearable/rootstraps/wearable-5.5-emulator.core");
    assert!(matches!(r.from, ConfigFrom::Default));
}

#[test]
fn key_present_nowhere_names_sources_checked() {
    let p = provider(&[], &[], empty(), vec![], empty(), false);
    let e = p.get_value(ConfigType::AppLabel).err().unwrap();
    assert_eq!(
        e.message,
        "Config '/ns:manifest/ns:ui-application/ns:label' not found in manifest xml\n\
         Config 'tizen.app_label' not found in cargo config\n\
         Config 'TIZEN_APP_LABEL' not found in env"
    );
    let e = p.get_value(ConfigType::AppId).err().unwrap();
    assert_eq!(
        e.message,
        "Config '/ns:manifest/ns:ui-application/@appid' not found in manifest xml\n\
         Config 'TIZEN_APP_ID' not found in env"
    );
    let e = p.get_value(ConfigType::DeviceTriple).err().unwrap();
    assert_eq!(
        e.message,
        "Config 'tizen.device_triple' not found in cargo config\nConfig 'TIZEN_DEVICE_TRIPLE' not found in env"
    );
}

#[test]
fn target_key_without_selected_triple_is_invalid() {
    let p = provider(&[], &[], empty(), vec![], empty(), false);
    let e = p.get_value(ConfigType::RustTriple).err().unwrap();
    assert_eq!(e.message, "Invalid config type or name");
}

#[test]
fn app_id_from_environment_regardless_of_manifest() {
    let p = provider(
        &[("TIZEN_APP_ID", "com.example.app")],
        &[("/ns:manifest/ns:ui-application/@appid", "org.other.app")],
        empty(),
        vec![],
        empty(),
        false,
    );
    let v = p.get_value(ConfigType::AppId).ok().unwrap();
    assert_eq!(v.value, "com.example.app");
    assert!(matches!(v.from, ConfigFrom::Env));
    assert_eq!(v.cargo_key, None);
}

#[test]
fn list_value_joined_with_commas() {
    let p = provider(
        &[],
        &[],
        tizen(vec![("sync_files", TomlValue::Array(vec![text("a/b"), text("c")]))]),
        vec![],
        empty(),
        false,
    );
    let v = p.get_value(ConfigType::SyncFiles).ok().unwrap();
    assert_eq!(v.value, "a/b,c");
}
