use prest::build_pwa::{
    dash_to_underscore, gen_manifest, plan_pwa_build, read_lib_name, PWAOptions,
};
use prest::manifest::{DisplayMode, Icon};
use prest::out_path;
use prest::sw::compose_sw;

fn count_occurrences(text: &str, needle: &str) -> usize {
    let mut count = 0;
    let mut from = 0;
    while let Some(at) = text[from..].find(needle) {
        count += 1;
        from += at + needle.len();
    }
    count
}

#[test]
fn composed_script_registers_listeners_in_order_each_once() {
    let js = "// glue\n";
    let listeners = vec![
        ("install".to_string(), "doInstall()".to_string()),
        ("fetch".to_string(), "doFetch()".to_string()),
    ];
    let out = compose_sw(js, &listeners);
    let install = "self.addEventListener('install', event => doInstall());\n";
    let fetch = "self.addEventListener('fetch', event => doFetch());\n";
    assert_eq!(out, format!("// glue\n{install}{fetch}"));
    assert_eq!(count_occurrences(&out, "self.addEventListener("), 2);
    assert_eq!(count_occurrences(&out, install), 1);
    assert_eq!(count_occurrences(&out, fetch), 1);
    let install_at = out.find(install).unwrap();
    let fetch_at = out.find(fetch).unwrap();
    assert!(install_at < fetch_at);
}

#[test]
fn composed_script_with_no_listeners_is_the_glue_script() {
    let out = compose_sw("const a = 1;", &Vec::new());
    assert_eq!(out, "const a = 1;");
}

#[test]
fn composition_keeps_any_configured_order() {
    let js = "";
    let forward = vec![
        ("a".to_string(), "1()".to_string()),
        ("b".to_string(), "2()".to_string()),
    ];
    let backward = vec![
        ("b".to_string(), "2()".to_string()),
        ("a".to_string(), "1()".to_string()),
    ];
    assert_eq!(
        compose_sw(js, &forward),
        "self.addEventListener('a', event => 1());\nself.addEventListener('b', event => 2());\n"
    );
    assert_eq!(
        compose_sw(js, &backward),
        "self.addEventListener('b', event => 2());\nself.addEventListener('a', event => 1());\n"
    );
}

#[test]
fn repeated_runs_give_byte_identical_outputs() {
    let js = "// bindings\n";
    let listeners = vec![("install".to_string(), "doInstall()".to_string())];
    let first = compose_sw(js, &listeners);
    let second = compose_sw(js, &listeners);
    assert_eq!(first, second);
    let opts = PWAOptions::new("App".to_string(), "A description".to_string());
    let m1 = gen_manifest(&opts).expect("manifest must serialize");
    let m2 = gen_manifest(&opts).expect("manifest must serialize");
    assert_eq!(m1, m2);
}

#[test]
fn manifest_holds_exactly_one_configured_icon() {
    let opts = PWAOptions {
        listeners: Vec::new(),
        name: "App".to_string(),
        desc: "".to_string(),
        background: "#000".to_string(),
        theme: "#fff".to_string(),
        start: "/".to_string(),
        display: DisplayMode::Standalone,
        icons: vec![Icon::new("logo.png".to_string(), "512x512".to_string())],
    };
    let manifest = gen_manifest(&opts).expect("manifest must serialize");
    assert_eq!(count_occurrences(&manifest, "\"src\":"), 1);
    assert_eq!(count_occurrences(&manifest, "\"logo.png\""), 1);
    assert_eq!(count_occurrences(&manifest, "\"512x512\""), 1);
    assert!(manifest.contains("\"name\":\"App\""));
}

#[test]
fn manifest_carries_the_configured_fields() {
    let opts = PWAOptions::new("My App".to_string(), "Words".to_string());
    let manifest = gen_manifest(&opts).expect("manifest must serialize");
    assert!(manifest.contains("\"name\":\"My App\""));
    assert!(manifest.contains("\"description\":\"Words\""));
    assert!(manifest.contains("\"background_color\":\"#1e293b\""));
    assert!(manifest.contains("\"theme_color\":\"#a21caf\""));
    assert!(manifest.contains("\"start_url\":\"/\""));
    assert!(manifest.contains("\"display\":\"standalone\""));
}

#[test]
fn default_options_hold_the_stock_listeners_and_icon() {
    let opts = PWAOptions::new("App".to_string(), "Desc".to_string());
    assert_eq!(opts.listeners.len(), 3);
    assert_eq!(opts.listeners[0].0, "install");
    assert_eq!(
        opts.listeners[0].1,
        "event.waitUntil(Promise.all([__wbg_init('/sw.wasm'), self.skipWaiting()]))"
    );
    assert_eq!(opts.listeners[1].0, "activate");
    assert_eq!(opts.listeners[1].1, "event.waitUntil(self.clients.claim())");
    assert_eq!(opts.listeners[2].0, "fetch");
    assert_eq!(opts.listeners[2].1, "handle_fetch(self, event)");
    assert_eq!(opts.name, "App");
    assert_eq!(opts.desc, "Desc");
    assert_eq!(opts.start, "/");
    assert_eq!(opts.icons.len(), 1);
    assert_eq!(opts.icons[0].src, "logo.png");
    assert_eq!(opts.icons[0].sizes, "512x512");
}

#[test]
fn plan_is_declined_when_the_guard_flag_is_set() {
    assert!(plan_pwa_build(true, true, "lib", "target/service-worker", true).is_none());
}

#[test]
fn plan_is_declined_outside_a_pwa_project() {
    assert!(plan_pwa_build(false, false, "lib", "target/service-worker", true).is_none());
}

#[test]
fn release_plan_lays_out_paths_and_arguments() {
    let plan = plan_pwa_build(false, true, "my_lib", "t/service-worker", true)
        .expect("an unguarded pwa build must be planned");
    assert!(plan.release);
    assert_eq!(plan.profile_path, "t/service-worker/wasm32-unknown-unknown/release");
    assert_eq!(plan.lib_path, "t/service-worker/wasm32-unknown-unknown/release/my_lib");
    assert_eq!(plan.wasm_input, "t/service-worker/wasm32-unknown-unknown/release/my_lib.wasm");
    assert_eq!(
        plan.processed_wasm,
        "t/service-worker/wasm32-unknown-unknown/release/my_lib_bg.wasm"
    );
    assert_eq!(plan.glue_script, "t/service-worker/wasm32-unknown-unknown/release/my_lib.js");
    assert_eq!(plan.guard_env_key, "SELF_PWA_BUILD");
    assert_eq!(plan.guard_env_value, "true");
    assert_eq!(
        plan.cargo_args,
        vec![
            "rustc",
            "--lib",
            "--crate-type",
            "cdylib",
            "--target",
            "wasm32-unknown-unknown",
            "--target-dir",
            "t/service-worker",
            "--release",
        ]
    );
}

#[test]
fn debug_plan_omits_the_release_flag() {
    let plan = plan_pwa_build(false, true, "my_lib", "t/service-worker", false)
        .expect("an unguarded pwa build must be planned");
    assert!(!plan.release);
    assert_eq!(plan.profile_path, "t/service-worker/wasm32-unknown-unknown/debug");
    assert_eq!(plan.cargo_args.last().map(String::as_str), Some("t/service-worker"));
    assert_eq!(plan.cargo_args.len(), 8);
}

#[test]
fn lib_name_prefers_the_explicit_library_name() {
    let manifest = "[package]\nname = \"my-app\"\n\n[lib]\nname = \"custom-lib\"\n";
    assert_eq!(read_lib_name(manifest).as_deref(), Some("custom_lib"));
}

#[test]
fn lib_name_falls_back_to_the_package_name() {
    let manifest = "[package]\nname = \"my-app\"\nversion = \"0.1.0\"\n";
    assert_eq!(read_lib_name(manifest).as_deref(), Some("my_app"));
}

#[test]
fn lib_name_comes_from_the_lib_table_alone_when_it_is_enough() {
    assert_eq!(read_lib_name("[lib]\nname = \"x\"\n").as_deref(), Some("x"));
}

#[test]
fn lib_name_of_unparsable_or_nameless_manifest_is_none() {
    assert!(read_lib_name("not [ valid toml").is_none());
    assert!(read_lib_name("[dependencies]\nserde = \"1\"\n").is_none());
}

#[test]
fn dashes_become_underscores() {
    assert_eq!(dash_to_underscore("a-b-c"), "a_b_c");
    assert_eq!(dash_to_underscore("plain"), "plain");
    assert_eq!(dash_to_underscore(""), "");
}

#[test]
fn out_path_joins_directory_and_filename() {
    assert_eq!(out_path("dist", "sw.js"), "dist/sw.js");
    assert_eq!(out_path("a/b", ".webmanifest"), "a/b/.webmanifest");
}

#[test]
fn manifest_serialization_always_succeeds() {
    let opts = PWAOptions {
        listeners: Vec::new(),
        name: "".to_string(),
        desc: "with \"quotes\" and \\ escapes".to_string(),
        background: "".to_string(),
        theme: "".to_string(),
        start: "".to_string(),
        display: DisplayMode::Browser,
        icons: Vec::new(),
    };
    assert!(gen_manifest(&opts).is_ok());
}

#[test]
fn register_snippet_points_at_the_composed_script() {
    assert_eq!(
        prest::REGISTER_SW_SNIPPET,
        "if ('serviceWorker' in navigator) navigator.serviceWorker.register('sw.js', {type: 'module'});"
    );
}
