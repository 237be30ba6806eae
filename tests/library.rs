use cargo_tizen::manifest::read_manifest;
use cargo_tizen::path::{config_dirs, config_file_of, join};
use cargo_tizen::provider::{newest_toolchain_of, str_to_bool, ConfigFrom, ConfigProvider};
use cargo_tizen::registry::{get_env_key, make_env_name, ConfigType};
use cargo_tizen::text::{contains, lex_lt, replace_char, split, starts_with, text_eq};
use cargo_tizen::tizen_env::{from_to_s, make_process_env, upsert, TizenEnv};
use cargo_tizen::toml_value::{get_text, integer_text, to_text, TomlValue};

fn text(s: &str) -> TomlValue {
    TomlValue::Text(s.to_string())
}

fn table(entries: Vec<(&str, TomlValue)>) -> TomlValue {
    TomlValue::Table(entries.into_iter().map(|(k, v)| (k.to_string(), v)).collect())
}

fn strings(v: &[&str]) -> Vec<String> {
    v.iter().map(|s| s.to_string()).collect()
}

#[test]
fn scalars_become_text() {
    assert_eq!(to_text(&TomlValue::Integer(42)).as_deref(), Some("42"));
    assert_eq!(to_text(&TomlValue::Integer(0)).as_deref(), Some("0"));
    assert_eq!(to_text(&TomlValue::Integer(-1907)).as_deref(), Some("-1907"));
    assert_eq!(to_text(&TomlValue::Boolean(true)).as_deref(), Some("true"));
    assert_eq!(to_text(&TomlValue::Boolean(false)).as_deref(), Some("false"));
    assert_eq!(to_text(&TomlValue::Float("1.5".to_string())).as_deref(), Some("1.5"));
    assert_eq!(to_text(&table(vec![])), None);
    assert_eq!(to_text(&TomlValue::Datetime("1979-05-27".to_string())), None);
}

#[test]
fn integer_text_at_the_limits() {
    assert_eq!(integer_text(i64::MIN), i64::MIN.to_string());
    assert_eq!(integer_text(i64::MAX), i64::MAX.to_string());
}

#[test]
fn arrays_drop_items_without_text() {
    let v = TomlValue::Array(vec![
        text("a"),
        table(vec![]),
        TomlValue::Integer(3),
        TomlValue::Array(vec![text("x"), text("y")]),
    ]);
    assert_eq!(to_text(&v).as_deref(), Some("a,3,x,y"));
    assert_eq!(to_text(&TomlValue::Array(vec![])).as_deref(), Some(""));
    assert_eq!(to_text(&TomlValue::Array(vec![text("a/b"), text("c")])).as_deref(), Some("a/b,c"));
}

#[test]
fn dotted_lookup_descends_tables() {
    let doc = table(vec![(
        "tizen",
        table(vec![("target", table(vec![("arm", table(vec![("rust_triple", text("armv7"))]))]))]),
    )]);
    assert_eq!(get_text(&doc, "tizen.target.arm.rust_triple").as_deref(), Some("armv7"));
    assert_eq!(get_text(&doc, "tizen.target.arm"), None);
    assert_eq!(get_text(&doc, "tizen.target.x86.rust_triple"), None);
    assert_eq!(get_text(&doc, "tizen..target"), None);
    assert_eq!(get_text(&doc, ""), None);
}

#[test]
fn env_names_are_upper_case_with_underscores() {
    assert_eq!(make_env_name("tizen.studio_path"), "TIZEN_STUDIO_PATH");
    assert_eq!(make_env_name("tizen.target.i586-tizen-linux-gnueabi.rust_linker"), "TIZEN_TARGET_I586_TIZEN_LINUX_GNUEABI_RUST_LINKER");
    assert_eq!(get_env_key(ConfigType::AppExec, &None).as_deref(), Some("TIZEN_APP_EXEC"));
    assert_eq!(get_env_key(ConfigType::Toolchain, &None), None);
}

#[test]
fn text_helpers() {
    assert!(starts_with("armv7l-gcc", "armv7l"));
    assert!(!starts_with("arm", "armv7l"));
    assert!(contains("armv7l-gcc-9.2", "gcc"));
    assert!(!contains("armv7l-clang-8", "gcc"));
    assert!(contains("abc", ""));
    assert!(text_eq("true", "true"));
    assert!(!text_eq("true", "tru"));
    assert!(lex_lt("gcc-6.2", "gcc-9.2"));
    assert!(lex_lt("gcc", "gcc-9.2"));
    assert!(!lex_lt("gcc-9.2", "gcc-9.2"));
    assert_eq!(replace_char("a-b-c", '-', "_"), "a_b_c");
    assert_eq!(split("res,shared,,x", ','), strings(&["res", "shared", "", "x"]));
    assert_eq!(split("", ','), strings(&[""]));
}

#[test]
fn flags_read_as_true() {
    assert!(str_to_bool("1"));
    assert!(str_to_bool("true"));
    assert!(!str_to_bool("TRUE"));
    assert!(!str_to_bool("0"));
    assert!(!str_to_bool(""));
}

#[test]
fn path_join_follows_pathbuf_push() {
    assert_eq!(join("/a", "b"), "/a/b");
    assert_eq!(join("/a/", "b"), "/a/b");
    assert_eq!(join("", "b"), "b");
    assert_eq!(join("/a", "/x/y"), "/x/y");
    assert_eq!(join("a", ""), "a/");
    assert_eq!(config_file_of("/p"), "/p/.cargo/config.toml");
}

#[test]
fn newest_toolchain_strips_the_triple() {
    let entries = strings(&[
        "armv7l-tizen-linux-gnueabi-gcc-9.2",
        "armv7l-tizen-linux-gnueabi-gcc-6.2",
        "armv7l-tizen-linux-gnueabi-clang-8",
        "i586-tizen-linux-gnueabi-gcc-9.2",
    ]);
    assert_eq!(newest_toolchain_of(&entries, "armv7l-tizen-linux-gnueabi").as_deref(), Some("gcc-9.2"));
    assert_eq!(newest_toolchain_of(&entries, "aarch64-tizen-linux-gnu"), None);
    assert_eq!(newest_toolchain_of(&vec![], "x"), None);
}

#[test]
fn config_dirs_walk_up_to_home() {
    let home = Some("/home/u".to_string());
    assert_eq!(config_dirs("/home/u/work/app", &home), strings(&["/home/u/work/app", "/home/u/work"]));
    assert_eq!(config_dirs("/home/u/app", &Some("/home/u/".to_string())), strings(&["/home/u/app"]));
    assert_eq!(config_dirs("/opt/app", &home), strings(&["/opt/app", "/opt", "/"]));
    assert_eq!(config_dirs("/opt/app", &None), strings(&["/opt/app"]));
}

const MANIFEST: &str = r#"<?xml version="1.0" encoding="utf-8"?>
<manifest xmlns="http://tizen.org/ns/packages" api-version="5.5" package="org.example.hello" version="1.0.0">
    <profile name="wearable" />
    <ui-application appid="org.example.hello" exec="hello" type="capp" multiple="false" taskmanage="true" nodisplay="false">
        <label>Hello</label>
    </ui-application>
</manifest>
"#;

fn answer<'a>(answers: &'a [(String, String)], query: &str) -> Option<&'a str> {
    answers.iter().find(|(q, _)| q == query).map(|(_, a)| a.as_str())
}

#[test]
fn manifest_queries_are_evaluated() {
    let answers = read_manifest(MANIFEST).ok().unwrap();
    assert_eq!(answer(&answers, "/ns:manifest/ns:ui-application/@appid"), Some("org.example.hello"));
    assert_eq!(answer(&answers, "/ns:manifest/@api-version"), Some("5.5"));
    assert_eq!(answer(&answers, "/ns:manifest/ns:profile/@name"), Some("wearable"));
    assert_eq!(answer(&answers, "/ns:manifest/ns:ui-application/ns:label"), Some("Hello"));
    assert_eq!(answer(&answers, "/ns:manifest/ns:ui-application/@type"), Some("capp"));
}

#[test]
fn manifest_that_does_not_parse_is_an_error() {
    assert!(read_manifest("<manifest><oops></manifest>").is_err());
}

fn full_provider() -> ConfigProvider {
    let primary = table(vec![
        ("package", table(vec![("name", text("hello"))])),
        ("tizen", table(vec![("sync_files", TomlValue::Array(vec![text("res"), text("shared")]))])),
    ]);
    let defaults = table(vec![(
        "tizen",
        table(vec![
            ("is_emulator", TomlValue::Boolean(false)),
            ("device_triple", text("armv7l-tizen-linux-gnueabi")),
            ("emulator_triple", text("i586-tizen-linux-gnueabi")),
            (
                "target",
                table(vec![(
                    "armv7l-tizen-linux-gnueabi",
                    table(vec![("rust_triple", text("armv7-unknown-linux-gnueabi"))]),
                )]),
            ),
        ]),
    )]);
    let env = vec![("TIZEN_STUDIO_PATH".to_string(), "/s".to_string())];
    let mut p = ConfigProvider::new(env, read_manifest(MANIFEST).ok().unwrap(), primary, vec![], defaults, false);
    p.add_listing("/s/tools".to_string(), strings(&["armv7l-tizen-linux-gnueabi-gcc-9.2"]));
    p
}

#[test]
fn environment_built_from_every_key() {
    let p = full_provider();
    let env = TizenEnv::from_cargo_config("/work/hello", &p).ok().unwrap();
    assert_eq!(env.base_path, "/work/hello");
    assert_eq!(env.studio_path, "/s");
    assert!(!env.is_emulator);
    assert_eq!(env.api_version, "5.5");
    assert_eq!(env.app_profile, "wearable");
    assert_eq!(env.rootstrap_path, "/s/platforms/tizen-5.5/wearable/rootstraps/wearable-5.5-device.core");
    assert_eq!(env.tizen_triple, "armv7l-tizen-linux-gnueabi");
    assert_eq!(env.rust_triple, "armv7-unknown-linux-gnueabi");
    assert_eq!(env.toolchain, "gcc-9.2");
    assert_eq!(env.toolchain_path, "/s/tools/armv7l-tizen-linux-gnueabi-gcc-9.2/bin");
    assert_eq!(env.rust_linker, "/s/tools/armv7l-tizen-linux-gnueabi-gcc-9.2/bin/armv7l-tizen-linux-gnueabi-gcc");
    assert_eq!(env.app_id, "org.example.hello");
    assert_eq!(env.app_version, "1.0.0");
    assert_eq!(env.app_package, "org.example.hello");
    assert_eq!(env.app_exec, "hello");
    assert_eq!(env.app_label, "Hello");
    assert_eq!(env.app_ui_type, "capp");
    assert_eq!(env.tizen_bin, "/s/tools/ide/bin/tizen");
    assert_eq!(env.cargo_pkg_name, "hello");
    assert_eq!(env.sync_files, strings(&["res", "shared"]));
    assert_eq!(env.raw_config_values.len(), 20);
    assert!(matches!(env.raw_config_values[0].config_type, ConfigType::StudioPath));
    assert!(matches!(env.raw_config_values[0].from, ConfigFrom::Env));

    assert_eq!(env.rust_output_dir(false), "/work/hello/target/armv7-unknown-linux-gnueabi/debug");
    assert_eq!(env.rust_output_dir(true), "/work/hello/target/armv7-unknown-linux-gnueabi/release");
    assert_eq!(env.tizen_output_dir(true), "/work/hello/target/armv7-unknown-linux-gnueabi/release/tizen-tpk");
    assert_eq!(env.arch_alias(), "arm");

    let build = env.get_additional_build_env();
    let root = "/s/platforms/tizen-5.5/wearable/rootstraps/wearable-5.5-device.core";
    let expected: Vec<(String, String)> = vec![
        ("PKG_CONFIG_SYSROOT_DIR".to_string(), root.to_string()),
        ("PKG_CONFIG_LIBDIR".to_string(), format!("{}/usr/lib/pkgconfig", root)),
        ("PKG_CONFIG_PATH".to_string(), "".to_string()),
        ("PKG_CONFIG_ALLOW_CROSS".to_string(), "1".to_string()),
        ("RUSTFLAGS".to_string(), format!("-C link-args=--sysroot={}", root)),
        ("CARGO_TARGET_ARMV7_UNKNOWN_LINUX_GNUEABI_LINKER".to_string(), env.rust_linker.clone()),
    ];
    assert_eq!(build, expected);

    let process = make_process_env(&env);
    assert_eq!(process.len(), 6 + 20);
    assert!(process.contains(&("TIZEN_APP_ID".to_string(), "org.example.hello".to_string())));
    assert!(process.contains(&("TIZEN_SYNC_FILES".to_string(), "res,shared".to_string())));
}

#[test]
fn missing_package_name_is_an_error() {
    let mut p = full_provider();
    p.cargo_build_file = table(vec![]);
    p.env.push(("TIZEN_SYNC_FILES".to_string(), "res".to_string()));
    let e = TizenEnv::from_cargo_config("/w", &p).err().unwrap();
    assert_eq!(e.message, "Can't get package.name from Cargo.toml");
}

#[test]
fn first_unresolved_key_is_reported() {
    let mut p = full_provider();
    p.env.clear();
    let e = TizenEnv::from_cargo_config("/w", &p).err().unwrap();
    assert_eq!(e.message, "Config 'tizen.studio_path' not found in cargo config\nConfig 'TIZEN_STUDIO_PATH' not found in env");
}

#[test]
fn upsert_replaces_or_appends() {
    let base = vec![("A".to_string(), "1".to_string()), ("B".to_string(), "2".to_string())];
    let r = upsert(&base, &"A".to_string(), &"9".to_string());
    assert_eq!(r, vec![("A".to_string(), "9".to_string()), ("B".to_string(), "2".to_string())]);
    let r = upsert(&base, &"C".to_string(), &"3".to_string());
    assert_eq!(r.len(), 3);
    assert_eq!(r[2], ("C".to_string(), "3".to_string()));
}

#[test]
fn source_labels() {
    assert_eq!(from_to_s(ConfigFrom::Env), "env");
    assert_eq!(from_to_s(ConfigFrom::Arg), "cli args");
    assert_eq!(from_to_s(ConfigFrom::Cargo), "cargo file");
    assert_eq!(from_to_s(ConfigFrom::Manifest), "manifest");
    assert_eq!(from_to_s(ConfigFrom::Default), "default");
}

#[test]
fn records_listed_in_display_order() {
    let p = full_provider();
    let env = TizenEnv::from_cargo_config("/work/hello", &p).ok().unwrap();
    let types: Vec<ConfigType> = env.raw_config_values.iter().map(|v| v.config_type).collect();
    assert_eq!(
        types,
        vec![
            ConfigType::StudioPath,
            ConfigType::IsEmulator,
            ConfigType::ApiVersion,
            ConfigType::AppProfile,
            ConfigType::RootstrapPath,
            ConfigType::SelectedTriple,
            ConfigType::DeviceTriple,
            ConfigType::EmulatorTriple,
            ConfigType::Toolchain,
            ConfigType::RustTriple,
            ConfigType::ToolchainPath,
            ConfigType::RustLinker,
            ConfigType::AppId,
            ConfigType::AppVersion,
            ConfigType::AppPackage,
            ConfigType::AppExec,
            ConfigType::TizenBin,
            ConfigType::AppLabel,
            ConfigType::SyncFiles,
            ConfigType::AppUiType,
        ]
    );
    assert_eq!(env.raw_config_values[5].value, "armv7l-tizen-linux-gnueabi");
    assert_eq!(env.raw_config_values[18].value, "res,shared");
}

#[test]
fn manifest_query_without_match_has_no_answer() {
    let text = r#"<manifest xmlns="http://tizen.org/ns/packages" version="2.0"></manifest>"#;
    let answers = read_manifest(text).ok().unwrap();
    assert_eq!(answer(&answers, "/ns:manifest/@version"), Some("2.0"));
    assert_eq!(answer(&answers, "/ns:manifest/ns:ui-application/@appid"), Some(""));
}

#[test]
fn sources_gathered_from_file_texts() {
    let cargo = "[package]\nname = \"hello\"\n\n[tizen]\nstudio_path = \"/s\"\nsync_files = [\"a/b\", \"c\"]\n";
    let configs = strings(&["[tizen]\napi_version = 6\n", "this is not toml", "[tizen]\napi_version = \"4.0\"\nprofile_ratio = 1.5\n"]);
    let p = ConfigProvider::from_texts(vec![], "/w/Cargo.toml", cargo, &configs, MANIFEST, true)
        .ok()
        .unwrap();
    assert_eq!(p.cargo_files.len(), 2);
    assert!(p.emulator_flag);
    assert_eq!(p.get_cargo_value("package.name").as_deref(), Some("hello"));
    assert_eq!(p.get_cargo_value("tizen.sync_files").as_deref(), Some("a/b,c"));
    assert_eq!(p.get_cargo_value("tizen.api_version").as_deref(), Some("6"));
    assert_eq!(p.get_cargo_value("tizen.profile_ratio").as_deref(), Some("1.5"));
    assert_eq!(get_text(&p.cargo_default_file, "tizen.device_triple").as_deref(), Some("armv7l-tizen-linux-gnueabi"));
    let v = p.get_value(ConfigType::ApiVersion).ok().unwrap();
    assert_eq!(v.value, "5.5");
    assert!(matches!(v.from, ConfigFrom::Manifest));
}

#[test]
fn unparsable_project_file_is_an_error() {
    let e = ConfigProvider::from_texts(vec![], "/w/Cargo.toml", "[package", &vec![], MANIFEST, false)
        .err()
        .unwrap();
    assert_eq!(e.message, "Can't parse /w/Cargo.toml");
    assert!(ConfigProvider::from_texts(vec![], "/w/Cargo.toml", "", &vec![], "<oops", false).is_err());
}
