//! Build orchestrator planning: the nested-build guard, the exact paths
//! and compiler arguments of the nested cross-compilation, the library
//! name read from the project manifest, and the generated descriptor.

use vstd::prelude::*;

use crate::manifest::{
    DisplayMode, Icon, ManifestError, display_keyword, icons_view, lemma_manifest_deterministic,
    manifest_text_of, webmanifest_build,
};
use crate::sw::{composed_script, lemma_composition_deterministic, listeners_view};

verus! {

/// Everything the build of the installable web application is configured
/// with: the service-worker event listeners in order, the application
/// metadata, and the icon list in order.
pub struct PWAOptions {
    pub listeners: Vec<(String, String)>,
    pub name: String,
    pub desc: String,
    pub background: String,
    pub theme: String,
    pub start: String,
    pub display: DisplayMode,
    pub icons: Vec<Icon>,
}

impl PWAOptions {
    /// The default configuration for the given application name and
    /// description: the three stock service-worker listeners, the stock
    /// colors, the root start path, standalone display, and one logo
    /// icon entry.
    pub fn new(name: String, desc: String) -> (r: PWAOptions)
        ensures
            r.listeners@.len() == 3,
            r.listeners@[0].0@ == "install"@,
            r.listeners@[0].1@
                == "event.waitUntil(Promise.all([__wbg_init('/sw.wasm'), self.skipWaiting()]))"@,
            r.listeners@[1].0@ == "activate"@,
            r.listeners@[1].1@ == "event.waitUntil(self.clients.claim())"@,
            r.listeners@[2].0@ == "fetch"@,
            r.listeners@[2].1@ == "handle_fetch(self, event)"@,
            r.name@ == name@,
            r.desc@ == desc@,
            r.background@ == "#1e293b"@,
            r.theme@ == "#a21caf"@,
            r.start@ == "/"@,
            r.display == DisplayMode::Standalone,
            r.icons@.len() == 1,
            r.icons@[0].src@ == "logo.png"@,
            r.icons@[0].sizes@ == "512x512"@,
    {
        let mut listeners: Vec<(String, String)> = Vec::new();
        listeners.push(
            (
                "install".to_owned(),
                "event.waitUntil(Promise.all([__wbg_init('/sw.wasm'), self.skipWaiting()]))".to_owned(),
            ),
        );
        listeners.push(("activate".to_owned(), "event.waitUntil(self.clients.claim())".to_owned()));
        listeners.push(("fetch".to_owned(), "handle_fetch(self, event)".to_owned()));
        let mut icons: Vec<Icon> = Vec::new();
        icons.push(Icon::new("logo.png".to_owned(), "512x512".to_owned()));
        PWAOptions {
            listeners,
            name,
            desc,
            background: "#1e293b".to_owned(),
            theme: "#a21caf".to_owned(),
            start: "/".to_owned(),
            display: DisplayMode::Standalone,
            icons,
        }
    }
}

/// The profile segment of the nested build's output path.
pub open spec fn profile_dir_name(release: bool) -> Seq<char> {
    if release {
        "release"@
    } else {
        "debug"@
    }
}

/// The working directory of the nested build's compiled artifacts.
pub open spec fn profile_path_spec(target_dir: Seq<char>, release: bool) -> Seq<char> {
    target_dir + "/wasm32-unknown-unknown/"@ + profile_dir_name(release)
}

/// The path stem of the nested library's compiled artifacts.
pub open spec fn lib_path_spec(target_dir: Seq<char>, release: bool, lib_name: Seq<char>) -> Seq<
    char,
> {
    profile_path_spec(target_dir, release) + "/"@ + lib_name
}

/// The arguments of the single compiler invocation: compile the library
/// as a dynamically loadable module for the portable target, into the
/// nested target directory, mirroring the outer build's profile.
pub open spec fn cargo_args_spec(target_dir: Seq<char>, release: bool) -> Seq<Seq<char>> {
    let base = seq![
        "rustc"@,
        "--lib"@,
        "--crate-type"@,
        "cdylib"@,
        "--target"@,
        "wasm32-unknown-unknown"@,
        "--target-dir"@,
        target_dir,
    ];
    if release {
        base.push("--release"@)
    } else {
        base
    }
}

/// The plan of one nested build: where the compiler writes, which files
/// the binding generator reads and produces, the guard to set on the
/// child process, and the compiler arguments.
pub struct BuildPlan {
    /// Mirrors the outer build's profile.
    pub release: bool,
    /// The working directory of the nested build's compiled artifacts.
    pub profile_path: String,
    /// The path stem of the compiled library.
    pub lib_path: String,
    /// The raw compiled binary handed to the binding generator.
    pub wasm_input: String,
    /// The processed binary the binding generator leaves behind.
    pub processed_wasm: String,
    /// The generated glue script read back for composition.
    pub glue_script: String,
    /// The environment flag to set on the child process.
    pub guard_env_key: String,
    /// The value to set the flag to.
    pub guard_env_value: String,
    /// The compiler invocation's arguments.
    pub cargo_args: Vec<String>,
}

/// Plans the nested cross-compilation, or declines it. The build is a
/// no-op exactly when the nested-build guard flag is already set — the
/// plan itself would otherwise re-enter this very build step and
/// deadlock on the shared output lock — or when the enclosing project is
/// not an installable web application.
pub fn plan_pwa_build(
    guard_flag_set: bool,
    is_pwa: bool,
    lib_name: &str,
    target_dir: &str,
    release: bool,
) -> (r: Option<BuildPlan>)
    ensures
        (r is None) == (guard_flag_set || !is_pwa),
        r matches Some(p) ==> ({
            let lib_path = lib_path_spec(target_dir@, release, lib_name@);
            &&& p.release == release
            &&& p.profile_path@ == profile_path_spec(target_dir@, release)
            &&& p.lib_path@ == lib_path
            &&& p.wasm_input@ == lib_path + ".wasm"@
            &&& p.processed_wasm@ == lib_path + "_bg.wasm"@
            &&& p.glue_script@ == lib_path + ".js"@
            &&& p.guard_env_key@ == "SELF_PWA_BUILD"@
            &&& p.guard_env_value@ == "true"@
            &&& p.cargo_args@.map_values(|s: String| s@) == cargo_args_spec(target_dir@, release)
        }),
{
    if guard_flag_set || !is_pwa {
        return None;
    }
    let mut profile_path = target_dir.to_owned();
    profile_path.append("/wasm32-unknown-unknown/");
    if release {
        profile_path.append("release");
    } else {
        profile_path.append("debug");
    }
    let mut lib_path = profile_path.clone();
    lib_path.append("/");
    lib_path.append(lib_name);
    let wasm_input = lib_path.clone().concat(".wasm");
    let processed_wasm = lib_path.clone().concat("_bg.wasm");
    let glue_script = lib_path.clone().concat(".js");
    let mut cargo_args: Vec<String> = Vec::new();
    cargo_args.push("rustc".to_owned());
    cargo_args.push("--lib".to_owned());
    cargo_args.push("--crate-type".to_owned());
    cargo_args.push("cdylib".to_owned());
    cargo_args.push("--target".to_owned());
    cargo_args.push("wasm32-unknown-unknown".to_owned());
    cargo_args.push("--target-dir".to_owned());
    cargo_args.push(target_dir.to_owned());
    if release {
        cargo_args.push("--release".to_owned());
    }
    proof {
        assert(cargo_args@.map_values(|s: String| s@) =~= cargo_args_spec(target_dir@, release));
    }
    Some(
        BuildPlan {
            release,
            profile_path,
            lib_path,
            wasm_input,
            processed_wasm,
            glue_script,
            guard_env_key: "SELF_PWA_BUILD".to_owned(),
            guard_env_value: "true".to_owned(),
            cargo_args,
        },
    )
}

/// What the project manifest text yields for the nested library's name:
/// the `lib` table's `name` entry and the `package` table's `name`
/// entry, each absent when the text does not parse as a manifest or
/// does not declare it. A function of the manifest text alone.
pub uninterp spec fn manifest_names_of(text: Seq<char>) -> (Option<Seq<char>>, Option<Seq<char>>);

/// The parsed name pair as character sequences.
spec fn names_view(r: (Option<String>, Option<String>)) -> (Option<Seq<char>>, Option<Seq<char>>) {
    (
        match r.0 {
            None => None,
            Some(l) => Some(l@),
        },
        match r.1 {
            None => None,
            Some(p) => Some(p@),
        },
    )
}

/// Relies on toml's parser: parses the project manifest text and reads
/// the `lib` table's `name` entry and the `package` table's `name`
/// entry, each absent when the text does not parse or does not declare
/// it as a string.
#[verifier::external_body]
fn toml_manifest_names(text: &str) -> (r: (Option<String>, Option<String>))
    ensures
        names_view(r) == manifest_names_of(text@),
{
    let table: toml::Table = match text.parse() {
        Ok(t) => t,
        Err(_) => return (None, None),
    };
    let lib = table.get("lib").and_then(|l| l.get("name")).and_then(|n| n.as_str()).map(|s| s.to_owned());
    let package =
        table.get("package").and_then(|p| p.get("name")).and_then(|n| n.as_str()).map(|s| s.to_owned());
    (lib, package)
}

/// The name with every dash replaced by an underscore, as the compiler
/// names library artifacts.
pub open spec fn underscored(s: Seq<char>) -> Seq<char> {
    s.map_values(
        |c: char|
            if c == '-' {
                '_'
            } else {
                c
            },
    )
}

/// Relies on String::push: appends exactly the one character.
#[verifier::external_body]
fn push_char(s: &mut String, c: char)
    ensures
        final(s)@ == old(s)@.push(c),
{
    s.push(c);
}

/// Replaces every dash of the name by an underscore.
pub fn dash_to_underscore(s: &str) -> (r: String)
    ensures
        r@ == underscored(s@),
{
    let n = s.unicode_len();
    let mut out = String::new();
    let mut i: usize = 0;
    while i < n
        invariant
            n == s@.len(),
            i <= n,
            out@ == underscored(s@).take(i as int),
        decreases n - i,
    {
        let c = s.get_char(i);
        if c == '-' {
            push_char(&mut out, '_');
        } else {
            push_char(&mut out, c);
        }
        proof {
            assert(out@ =~= underscored(s@).take(i as int + 1));
        }
        i = i + 1;
    }
    proof {
        assert(underscored(s@).take(n as int) =~= underscored(s@));
    }
    out
}

/// The library name the nested build compiles under, for the given
/// parsed name pair: the explicit library name when one is declared,
/// else the package name, dashes replaced by underscores either way;
/// nothing when the manifest declares neither.
pub open spec fn lib_name_of(names: (Option<Seq<char>>, Option<Seq<char>>)) -> Option<Seq<char>> {
    match names {
        (Some(l), _) => Some(underscored(l)),
        (None, Some(package)) => Some(underscored(package)),
        (None, None) => None,
    }
}

/// Reads the nested library's name out of the project manifest text: the
/// explicit library name when the manifest declares one, else the
/// package name, with dashes replaced by underscores; nothing when the
/// manifest does not parse or declares no name at all.
pub fn read_lib_name(manifest_text: &str) -> (r: Option<String>)
    ensures
        match r {
            Some(s) => lib_name_of(manifest_names_of(manifest_text@)) == Some(s@),
            None => lib_name_of(manifest_names_of(manifest_text@)) is None,
        },
{
    let (lib, package) = toml_manifest_names(manifest_text);
    let base = match lib {
        Some(l) => l,
        None => match package {
            Some(p) => p,
            None => {
                return None;
            },
        },
    };
    Some(dash_to_underscore(base.as_str()))
}

/// Serializes the configured metadata into the installable-web-app
/// descriptor; required fields come straight from the options and the
/// icon list keeps configuration order. Serialization succeeds on every
/// configuration, since the descriptor holds only plain strings,
/// enumerations and lists; were the serializer ever to fail, the error
/// would propagate rather than a partial descriptor.
pub fn gen_manifest(opts: &PWAOptions) -> (r: Result<String, ManifestError>)
    ensures
        r is Ok,
        r matches Ok(s) ==> s@ == manifest_text_of(
            opts.name@,
            opts.desc@,
            opts.background@,
            opts.theme@,
            opts.start@,
            display_keyword(opts.display),
            icons_view(opts.icons@),
        ),
{
    webmanifest_build(
        opts.name.as_str(),
        opts.desc.as_str(),
        opts.background.as_str(),
        opts.theme.as_str(),
        opts.start.as_str(),
        &opts.display,
        &opts.icons,
    )
}

/// Re-running the full pipeline on unchanged inputs in either profile
/// yields byte-identical outputs: the composed service-worker script and
/// the serialized descriptor are functions of the glue script and the
/// configured options alone.
pub proof fn lemma_pipeline_deterministic(
    js1: Seq<char>,
    js2: Seq<char>,
    o1: PWAOptions,
    o2: PWAOptions,
)
    requires
        js1 == js2,
        listeners_view(o1.listeners@) == listeners_view(o2.listeners@),
        o1.name@ == o2.name@,
        o1.desc@ == o2.desc@,
        o1.background@ == o2.background@,
        o1.theme@ == o2.theme@,
        o1.start@ == o2.start@,
        o1.display == o2.display,
        icons_view(o1.icons@) == icons_view(o2.icons@),
    ensures
        composed_script(js1, listeners_view(o1.listeners@)) == composed_script(
            js2,
            listeners_view(o2.listeners@),
        ),
        manifest_text_of(
            o1.name@,
            o1.desc@,
            o1.background@,
            o1.theme@,
            o1.start@,
            display_keyword(o1.display),
            icons_view(o1.icons@),
        ) == manifest_text_of(
            o2.name@,
            o2.desc@,
            o2.background@,
            o2.theme@,
            o2.start@,
            display_keyword(o2.display),
            icons_view(o2.icons@),
        ),
{
    lemma_composition_deterministic(
        js1,
        js2,
        listeners_view(o1.listeners@),
        listeners_view(o2.listeners@),
    );
    lemma_manifest_deterministic(
        o1.name@,
        o2.name@,
        o1.desc@,
        o2.desc@,
        o1.background@,
        o2.background@,
        o1.theme@,
        o2.theme@,
        o1.start@,
        o2.start@,
        o1.display,
        o2.display,
        icons_view(o1.icons@),
        icons_view(o2.icons@),
    );
}

} // verus!
