use test_project_builder::bigint::{bigint_step, BigintStep, BigintSupport};
use test_project_builder::declarations::typescript_declarations;
use test_project_builder::identity::IdentityAllocator;
use test_project_builder::pipeline::{
    bundle_command, cargo_build_command, dev_server_command, BindgenOptions, Stage,
};
use test_project_builder::plan::BuildError;
use test_project_builder::project::{project, Project};
use test_project_builder::templates::{INDEX_HTML, TEST_ENTRY, TS_CONFIG};
use test_project_builder::text::{parent_dir, path_extension, with_extension, without_extension};

fn fresh() -> Project {
    project(7, "/src/wasm-bindgen/crates/test-project-builder", "# lock\n", "// runner\n")
}

fn paths(plan: &[(String, String)]) -> Vec<String> {
    plan.iter().map(|e| e.0.clone()).collect()
}

fn contents<'a>(plan: &'a [(String, String)], path: &str) -> &'a str {
    let found: Vec<&(String, String)> = plan.iter().filter(|e| e.0 == path).collect();
    assert_eq!(found.len(), 1, "expected exactly one {}", path);
    &found[0].1
}

fn run_stages(p: &Project, outcomes: &[bool]) -> Vec<Stage> {
    let mut stage = Stage::Start;
    let mut seen = Vec::new();
    let mut k = 0;
    while stage != Stage::Done && stage != Stage::Failed {
        let ok = if stage == Stage::Start { true } else { let o = outcomes.get(k).copied().unwrap_or(true); k += 1; o };
        stage = p.next_stage(stage, ok);
        seen.push(stage);
    }
    seen
}

#[test]
fn default_project_writes_module_files() {
    let mut p = fresh();
    let plan = p.build().unwrap();
    assert_eq!(paths(&plan), vec!["Cargo.lock", "test.mjs", "run.mjs", "Cargo.toml"]);
    assert_eq!(contents(&plan, "Cargo.lock"), "# lock\n");
    assert_eq!(contents(&plan, "test.mjs"), TEST_ENTRY);
    let run = contents(&plan, "run.mjs");
    assert!(run.starts_with("import * as process from 'process';\n"));
    assert!(run.contains("import('./out')"));
    assert!(run.contains("process.exit(1);"));
    assert!(!run.contains("TEST_DONE"));
}

#[test]
fn every_build_has_one_manifest_and_one_run_script() {
    for flags in 0..32u32 {
        let mut p = fresh();
        p.file("lib.rs", "pub fn f() {}")
            .file("extra/helper.js", "export const x = 1;")
            .debug(flags & 1 != 0)
            .webpack(flags & 2 != 0)
            .headless(flags & 4 != 0)
            .nodejs_experimental_modules(flags & 8 != 0)
            .rlib(flags & 16 != 0);
        let plan = match p.build() {
            Ok(plan) => plan,
            Err(e) => {
                assert_eq!(e, BuildError::ClassicLoaderUnsupported);
                continue;
            }
        };
        let names = paths(&plan);
        assert_eq!(names.iter().filter(|n| n.as_str() == "Cargo.toml").count(), 1);
        let runs = names.iter().filter(|n| n.as_str() == "run.js" || n.as_str() == "run.mjs").count();
        assert_eq!(runs, 1);
        let mut sorted = names.clone();
        sorted.sort();
        sorted.dedup();
        assert_eq!(sorted.len(), names.len());
    }
}

#[test]
fn one_description_file_gives_one_stub_and_one_build_script() {
    let mut p = fresh();
    p.file("x.webidl", "interface X {};");
    let plan = p.build().unwrap();
    assert_eq!(
        contents(&plan, "src/x.rs"),
        "include!(concat!(env!(\"OUT_DIR\"), \"/x.rs\"));"
    );
    let script = contents(&plan, "build.rs");
    assert_eq!(script.matches("compile_file(Path::new(").count(), 1);
    assert!(script.contains("compile_file(Path::new(\"x.webidl\"))"));
    assert!(script.contains("fs::create_dir_all(\"\")"));
    assert!(script.contains(".join(\"x.rs\")"));
    assert!(script.ends_with('}'));
    let run = contents(&plan, "run.mjs");
    assert!(run.contains("modules.push(import('./x'))"));
}

#[test]
fn short_description_extension_is_recognised() {
    let mut p = fresh();
    p.file("x.widl", "interface X {};");
    let plan = p.build().unwrap();
    assert_eq!(
        contents(&plan, "src/x.rs"),
        "include!(concat!(env!(\"OUT_DIR\"), \"/x.rs\"));"
    );
    assert_eq!(contents(&plan, "build.rs").matches("compile_file").count(), 2);
}

#[test]
fn nested_description_file_keeps_its_directory() {
    let mut p = fresh();
    p.file("idl/a.webidl", "").file("b.webidl", "");
    let plan = p.build().unwrap();
    let script = contents(&plan, "build.rs");
    assert!(script.contains("fs::create_dir_all(\"idl\")"));
    assert!(script.find("idl/a.webidl").unwrap() < script.find("\"b.webidl\"").unwrap());
    contents(&plan, "src/idl/a.rs");
    contents(&plan, "src/b.rs");
    let run = contents(&plan, "run.mjs");
    assert!(run.contains("modules.push(import('./idl/a'));\nmodules.push(import('./b'));\n"));
}

#[test]
fn no_description_file_gives_no_build_script() {
    let mut p = fresh();
    let plan = p.build().unwrap();
    assert!(!paths(&plan).iter().any(|n| n == "build.rs"));
}

#[test]
fn typescript_without_bundler_is_refused() {
    let mut p = fresh();
    p.file("test.ts", "export function test() {}");
    assert_eq!(p.build(), Err(BuildError::TypescriptWithoutBundler));
}

#[test]
fn typescript_with_bundler_is_configured() {
    let mut p = fresh();
    p.webpack(true).file("test.ts", "export function test() {}");
    let plan = p.build().unwrap();
    let config = contents(&plan, "webpack.config.js");
    assert!(config.contains("use: 'ts-loader'"));
    assert!(config.contains("extensions: ['.js', '.wasm', '.ts']"));
    assert!(config.contains("target: 'node'"));
    assert_eq!(contents(&plan, "tsconfig.json"), TS_CONFIG);
    assert!(!paths(&plan).iter().any(|n| n == "test.js"));
}

#[test]
fn bundler_without_typescript_has_no_type_config() {
    let mut p = fresh();
    p.webpack(true);
    let plan = p.build().unwrap();
    let config = contents(&plan, "webpack.config.js");
    assert!(config.contains("rules: []"));
    assert!(config.contains("extensions: ['.js', '.wasm']"));
    assert!(!paths(&plan).iter().any(|n| n == "tsconfig.json"));
    assert_eq!(contents(&plan, "test.js"), TEST_ENTRY);
}

#[test]
fn headless_forces_bundler_flags() {
    let mut p = fresh();
    p.headless(true).webpack(false).nodejs_experimental_modules(true);
    let plan = p.build().unwrap();
    assert_eq!(
        p.bindgen_options(),
        BindgenOptions { typescript: true, debug: true, nodejs: false, nodejs_experimental_modules: false }
    );
    assert_eq!(contents(&plan, "index.html"), INDEX_HTML);
    assert_eq!(contents(&plan, "run-headless.js"), "// runner\n");
    assert!(contents(&plan, "webpack.config.js").contains("target: 'web'"));
    let run = contents(&plan, "run.js");
    assert!(run.contains("TEST_START"));
    assert!(run.contains("innerHTML = 'good'"));
    assert!(run.contains("TEST_DONE"));
    assert!(run.contains("${error.message}"));
    assert!(!run.contains("${e."));
}

#[test]
fn classic_loader_in_debug_is_refused() {
    let mut p = fresh();
    p.nodejs_experimental_modules(false);
    assert_eq!(p.build(), Err(BuildError::ClassicLoaderUnsupported));
}

#[test]
fn classic_loader_requires_synchronously() {
    let mut p = fresh();
    p.nodejs_experimental_modules(false).debug(false);
    let plan = p.build().unwrap();
    let run = contents(&plan, "run.js");
    assert!(run.starts_with("const process = require('process');\n"));
    assert!(run.contains("const test = require('./test');"));
    assert_eq!(p.node_command(), vec!["run.js"]);
}

#[test]
fn release_mode_skips_main_module() {
    let mut p = fresh();
    p.debug(false);
    let plan = p.build().unwrap();
    let run = contents(&plan, "run.mjs");
    assert!(run.contains("new Promise((a, b) => a({}))"));
    assert!(!run.contains("import('./out')"));
}

#[test]
fn manifest_lists_identity_dependencies_and_features() {
    let mut p = fresh();
    p.depend("serde = '1.0'").add_local_dependency("foo", "../foo").no_std(true).serde(true);
    let plan = p.build().unwrap();
    let expected = String::from(
        "\n            [package]\n            name = \"test7\"\n            version = \"0.0.1\"\n            authors = []\n\n            [workspace]\n\n            [lib]\n        ",
    ) + "crate-type = [\"cdylib\"]\n"
        + "[build-dependencies]\nwasm-bindgen-webidl = { path = '/src/wasm-bindgen/crates/test-project-builder/../webidl' }\n"
        + "[dependencies]\nserde = '1.0'\nfoo = { path = '../foo' }\n"
        + "wasm-bindgen = { path = '/src/wasm-bindgen/crates/test-project-builder/../..', default-features = false, features = ['serde-serialize'] }\n";
    assert_eq!(contents(&plan, "Cargo.toml"), expected);
}

#[test]
fn rlib_manifest_has_no_crate_type() {
    let mut p = fresh();
    p.rlib(true);
    let plan = p.build().unwrap();
    let manifest = contents(&plan, "Cargo.toml");
    assert!(!manifest.contains("cdylib"));
    assert!(manifest.ends_with("wasm-bindgen = { path = '/src/wasm-bindgen/crates/test-project-builder/../..' }\n"));
}

#[test]
fn later_file_with_same_path_is_kept_in_order() {
    let mut p = fresh();
    p.file("a.txt", "one").file("a.txt", "two");
    let plan = p.build().unwrap();
    let both: Vec<&str> = plan.iter().filter(|e| e.0 == "a.txt").map(|e| e.1.as_str()).collect();
    assert_eq!(both, vec!["one", "two"]);
}

#[test]
fn identities_are_distinct() {
    let mut ids = IdentityAllocator::new();
    let a = ids.allocate();
    let b = ids.allocate();
    assert_eq!((a, b), (0, 1));
    let pa = project(a, "d", "", "");
    let pb = project(b, "d", "", "");
    assert_eq!(pa.crate_name(), "test0");
    assert_eq!(pb.crate_name(), "test1");
    assert_eq!(project(1234, "d", "", "").crate_name(), "test1234");
    assert_eq!(pa.project_dir(), "generated-tests/test0");
    assert_eq!(project(12, "d", "", "").project_dir(), "generated-tests/test12");
}

#[test]
fn default_run_uses_module_entry_point() {
    let mut p = fresh();
    p.build().unwrap();
    assert_eq!(p.node_command(), vec!["--experimental-modules", "run.mjs"]);
    assert_eq!(
        run_stages(&p, &[]),
        vec![Stage::CargoBuild, Stage::GenerateBindings, Stage::RunNode, Stage::Done]
    );
}

#[test]
fn failed_native_build_stops_before_bindings() {
    let mut p = fresh();
    p.build().unwrap();
    assert_eq!(run_stages(&p, &[false]), vec![Stage::CargoBuild, Stage::Failed]);
}

#[test]
fn headless_run_serialises_and_stops_server() {
    let mut p = fresh();
    p.headless(true).depend("js-sys = '0.3'");
    let plan = p.build().unwrap();
    assert!(contents(&plan, "Cargo.toml").contains("js-sys = '0.3'\n"));
    assert_eq!(
        run_stages(&p, &[]),
        vec![
            Stage::CargoBuild,
            Stage::GenerateBindings,
            Stage::WriteDeclarations,
            Stage::LinkNodeModules,
            Stage::AcquireLock,
            Stage::StartDevServer,
            Stage::WaitForServer,
            Stage::RunHeadless,
            Stage::StopDevServer { failed: false },
            Stage::ReleaseLock { failed: false },
            Stage::Done,
        ]
    );
    let failing = run_stages(&p, &[true, true, true, true, true, true, true, false]);
    assert_eq!(
        &failing[7..],
        &[
            Stage::RunHeadless,
            Stage::StopDevServer { failed: true },
            Stage::ReleaseLock { failed: true },
            Stage::Failed,
        ]
    );
    assert_eq!(p.headless_command(), vec!["run-headless.js"]);
    assert_eq!(
        dev_server_command(),
        vec!["run", "run-webpack-dev-server", "--", "--quiet", "--watch-stdin"]
    );
}

#[test]
fn bundled_run_builds_then_runs_bundle() {
    let mut p = fresh();
    p.webpack(true);
    p.build().unwrap();
    assert_eq!(
        run_stages(&p, &[]),
        vec![
            Stage::CargoBuild,
            Stage::GenerateBindings,
            Stage::WriteDeclarations,
            Stage::LinkNodeModules,
            Stage::Bundle,
            Stage::RunBundle,
            Stage::Done,
        ]
    );
    assert_eq!(run_stages(&p, &[true, true, true, false]).last(), Some(&Stage::Failed));
    assert_eq!(bundle_command(), vec!["run", "run-webpack"]);
    assert_eq!(cargo_build_command(), vec!["build", "--target", "wasm32-unknown-unknown"]);
    assert_eq!(p.bundle_run_command(), vec!["bundle.js"]);
}

#[test]
fn bigint_detection_steps() {
    match bigint_step(&vec![]) {
        BigintStep::Probe(args) => assert_eq!(args, vec!["-e", "BigInt"]),
        other => panic!("unexpected {:?}", other),
    }
    assert_eq!(bigint_step(&vec![true]), BigintStep::Decided(BigintSupport::Native));
    match bigint_step(&vec![false]) {
        BigintStep::Probe(args) => assert_eq!(args, vec!["-e", "BigInt", "--harmony-bigint"]),
        other => panic!("unexpected {:?}", other),
    }
    assert_eq!(bigint_step(&vec![false, true]), BigintStep::Decided(BigintSupport::Flagged));
    assert_eq!(bigint_step(&vec![false, false]), BigintStep::Decided(BigintSupport::Unsupported));
}

#[test]
fn requires_bigint_adds_flag_only_when_needed() {
    let mut p = fresh();
    p.requires_bigint(BigintSupport::Native);
    p.build().unwrap();
    assert_eq!(p.node_command(), vec!["--experimental-modules", "run.mjs"]);
    let mut q = fresh();
    q.requires_bigint(BigintSupport::Flagged);
    q.build().unwrap();
    assert_eq!(q.node_command(), vec!["--harmony-bigint", "--experimental-modules", "run.mjs"]);
}

#[test]
fn artifact_and_output_names() {
    let mut p = fresh();
    assert_eq!(p.artifact_path(), "wasm32-unknown-unknown/debug/test7.wasm");
    assert_eq!(p.js_output_name(), "out.mjs");
    p.webpack(true);
    p.build().unwrap();
    assert_eq!(p.js_output_name(), "out.js");
}

#[test]
fn declarations_of_empty_module() {
    let wasm = vec![0u8, b'a', b's', b'm', 1, 0, 0, 0];
    assert_eq!(
        typescript_declarations(&wasm).unwrap(),
        "/* tslint:disable */\n/* eslint-disable */\nexport const booted: Promise<boolean>;\n"
    );
}

#[test]
fn declarations_of_garbage_fail() {
    assert_eq!(typescript_declarations(&vec![1, 2, 3]), Err(BuildError::UnreadableModule));
}

#[test]
fn path_helpers() {
    assert_eq!(path_extension("a/b.c.js"), Some("js"));
    assert_eq!(path_extension(".js"), None);
    assert_eq!(path_extension("a.d/b"), None);
    assert_eq!(path_extension(".."), None);
    assert_eq!(path_extension("a/.."), None);
    assert_eq!(path_extension("a/..b"), Some("b"));
    assert_eq!(path_extension("a."), Some(""));
    assert_eq!(with_extension("dir/x.webidl", "rs"), "dir/x.rs");
    assert_eq!(with_extension("x", "rs"), "x.rs");
    assert_eq!(without_extension("dir/x.rs"), "dir/x");
    assert_eq!(parent_dir("a/b/c.rs"), "a/b");
    assert_eq!(parent_dir("c.rs"), "");
}
