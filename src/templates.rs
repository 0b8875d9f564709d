//! Fixed text of the files synthesised into every project. Each constant is
//! one piece; the pieces are joined in `synth` around the parts that vary.
use vstd::prelude::*;

verus! {

/// The generated project's manifest.
pub const MANIFEST_NAME: &'static str = "Cargo.toml";

/// The generated run script, before any extension rewrite.
pub const RUN_SCRIPT_NAME: &'static str = "run.js";

/// The bundler's configuration file.
pub const WEBPACK_CONFIG_NAME: &'static str = "webpack.config.js";

/// The type checker's configuration file.
pub const TS_CONFIG_NAME: &'static str = "tsconfig.json";

/// Default test entry point.
pub const TEST_JS_NAME: &'static str = "test.js";

/// Strongly-typed test entry point.
pub const TEST_TS_NAME: &'static str = "test.ts";

/// The page a headless run loads.
pub const INDEX_HTML_NAME: &'static str = "index.html";

/// The script that drives the headless browser.
pub const RUN_HEADLESS_NAME: &'static str = "run-headless.js";

/// The generated build script.
pub const BUILD_SCRIPT_NAME: &'static str = "build.rs";

/// Directory of the generated crate's sources, with its separator.
pub const SRC_DIR: &'static str = "src/";

/// Execution target of a headless bundle.
pub const TARGET_WEB: &'static str = "web";

/// Execution target of a runtime bundle.
pub const TARGET_NODE: &'static str = "node";

/// Extension of a plain script.
pub const EXT_JS: &'static str = "js";

/// Extension a plain script gets under the experimental module format.
pub const EXT_MJS: &'static str = "mjs";

/// Extension of a strongly-typed source.
pub const EXT_TS: &'static str = "ts";

/// Suffix that marks a strongly-typed source for the bundler.
pub const TS_SUFFIX: &'static str = ".ts";

/// Extension of an interface-description file.
pub const EXT_WEBIDL: &'static str = "webidl";

/// Short extension of an interface-description file.
pub const EXT_WIDL: &'static str = "widl";

/// Extension of a generated source stub.
pub const EXT_RS: &'static str = "rs";

/// Source extensions every bundle resolves.
pub const BASE_EXTENSIONS: &'static str = "'.js', '.wasm'";

/// The extra source extension of a strongly-typed project.
pub const TS_EXTENSION: &'static str = ", '.ts'";

/// Default test entry: re-exports `test` from the binding module.
pub const TEST_ENTRY: &'static str = "export {test} from './out';";

/// Source stub, up to the generated file's path.
pub const STUB_HEAD: &'static str = "include!(concat!(env!(\"OUT_DIR\"), \"/";

/// Source stub, after the generated file's path.
pub const STUB_TAIL: &'static str = "\"));";

/// Closes the build script's `main`.
pub const BUILD_SCRIPT_CLOSE: &'static str = "}";

/// Imports the process facility as a module.
pub const ESM_PROCESS: &'static str = "import * as process from 'process';\n";

/// Requires the process facility synchronously.
pub const REQUIRE_PROCESS: &'static str = "const process = require('process');\n";

/// Opens the asynchronous module loading.
pub const MODULES_START: &'static str = "console.log('importing modules...');\nconst modules = [];\n";

/// Imports one description-derived module, up to its path.
pub const IMPORT_OPEN: &'static str = "modules.push(import('./";

/// Imports one description-derived module, after its path: ends the statement.
pub const IMPORT_CLOSE: &'static str = "'));\n";

/// Imports the main binding module.
pub const IMPORT_OUT: &'static str = "import('./out')";

/// An already-resolved empty module, in place of the main binding module.
pub const EMPTY_MODULE: &'static str = "new Promise((a, b) => a({}))";

/// Routes any failure to the error handler.
pub const CATCH: &'static str = ".catch(onerror)\n";

/// Declares the generated crate a dynamic library.
pub const CDYLIB: &'static str = "crate-type = [\"cdylib\"]\n";

/// Opens the build dependencies, up to the builder's directory.
pub const BUILD_DEPS_OPEN: &'static str = "[build-dependencies]\nwasm-bindgen-webidl = { path = '";

/// Closes the build dependencies and opens the dependencies.
pub const BUILD_DEPS_CLOSE: &'static str = "/../webidl' }\n[dependencies]\n";

/// Ends one dependency line.
pub const LINE_END: &'static str = "\n";

/// Opens the core tool's dependency, up to the builder's directory.
pub const CORE_DEP_OPEN: &'static str = "wasm-bindgen = { path = '";

/// The core tool's path relative to the builder's directory.
pub const CORE_DEP_PATH: &'static str = "/../..'";

/// Switches off the core tool's standard library feature.
pub const NO_STD_FEATURE: &'static str = ", default-features = false";

/// Switches on the core tool's serialisation feature.
pub const SERDE_FEATURE: &'static str = ", features = ['serde-serialize']";

/// Closes the core tool's dependency.
pub const CORE_DEP_CLOSE: &'static str = " }\n";

/// Bundler configuration, up to the execution target.
pub const WEBPACK_0: &'static str = r#"
                const path = require('path');
                const fs = require('fs');

                let nodeModules = {};

                // Webpack bundles the modules from node_modules.
                // For node target, we will not have `fs` module
                // inside the `node_modules` folder.
                // This reads the directories in `node_modules`
                // and give that to externals and webpack ignores
                // to bundle the modules listed as external.
                if ('"#;

/// Bundler configuration, from the execution target to the loader rules.
pub const WEBPACK_1: &'static str = r#"' == 'node') {
                    fs.readdirSync('node_modules')
                        .filter(module => module !== '.bin')
                        .forEach(mod => {
                            // External however,expects browser environment.
                            // To make it work in `node` target we
                            // prefix commonjs here.
                            nodeModules[mod] = 'commonjs ' + mod;
                        });
                }

                module.exports = {
                  entry: './run.js',
                  mode: "development",
                  devtool: "source-map",
                  module: {
                    rules: ["#;

/// Bundler configuration, from the loader rules to the extensions.
pub const WEBPACK_2: &'static str = r#"]
                  },
                  resolve: {
                    extensions: ["#;

/// Bundler configuration, from the extensions to the execution target.
pub const WEBPACK_3: &'static str = r#"]
                  },
                  output: {
                    filename: 'bundle.js',
                    path: path.resolve(__dirname, '.')
                  },
                  target: '"#;

/// Bundler configuration, after the execution target.
pub const WEBPACK_4: &'static str = r#"',
                  externals: nodeModules
                };
            "#;

/// Loader rule for strongly-typed sources.
pub const TS_RULE: &'static str = r#"
                {
                    test: /.ts$/,
                    use: 'ts-loader',
                    exclude: /node_modules/,
                }
            "#;

/// Type-checker configuration: a fixed set of strict options.
pub const TS_CONFIG: &'static str = r#"
                    {
                      "compilerOptions": {
                        "noEmitOnError": true,
                        "noImplicitAny": true,
                        "noImplicitThis": true,
                        "noUnusedParameters": true,
                        "noUnusedLocals": true,
                        "noImplicitReturns": true,
                        "strictFunctionTypes": true,
                        "strictNullChecks": true,
                        "alwaysStrict": true,
                        "strict": true,
                        "target": "es5",
                        "lib": ["es2015"]
                      }
                    }
                "#;

/// The page a headless run loads, with its error, log and status regions.
pub const INDEX_HTML: &'static str = r#"
                <!DOCTYPE html>
                <html>
                    <body>
                        <div id="error"></div>
                        <div id="logs"></div>
                        <div id="status"></div>
                        <script src="bundle.js"></script>
                    </body>
                </html>
            "#;

/// Head of the generated build script, up to its compile steps.
pub const BUILD_SCRIPT_HEAD: &'static str = r#"
            extern crate wasm_bindgen_webidl;

            use wasm_bindgen_webidl::compile_file;
            use std::env;
            use std::fs::{self, File};
            use std::io::Write;
            use std::path::Path;

            fn main() {
                let dest = env::var("OUT_DIR").unwrap();
        "#;

/// A compile step, up to the output directory.
pub const COMPILE_0: &'static str = r#"
                fs::create_dir_all(""#;

/// A compile step, from the output directory to the output file.
pub const COMPILE_1: &'static str = r#"").unwrap();
                File::create(&Path::new(&dest).join(""#;

/// A compile step, from the output file to the description file.
pub const COMPILE_2: &'static str = r#""))
                    .unwrap()
                    .write_all(
                        compile_file(Path::new(""#;

/// A compile step, after the description file.
pub const COMPILE_3: &'static str = r#""))
                            .unwrap()
                            .as_bytes()
                    )
                    .unwrap();
                "#;

/// Opening of a headless run script: marks the start and routes logging into the page.
pub const HEADLESS_PRELUDE: &'static str = r#"
                    window.document.body.innerHTML += "\nTEST_START\n";
                    console.log = function(...args) {
                        const logs = document.getElementById('logs');
                        for (let msg of args) {
                            logs.innerHTML += `${msg}<br/>\n`;
                        }
                    };
                "#;

/// The `run` helper: calls the test, then the binding module's consistency checks.
pub const RUN_FN: &'static str = r#"
            function run(test, wasm) {
                test.test();

                if (wasm.assertStackEmpty)
                    wasm.assertStackEmpty();
                if (wasm.assertSlabEmpty)
                    wasm.assertSlabEmpty();
            }
        "#;

/// Error handler of a headless run: writes into the page's error region.
pub const ONERROR_HEADLESS: &'static str = r#"
                function onerror(error) {
                    const errors = document.getElementById('error');
                    let content = `exception: ${error.message}\nstack: ${error.stack}`;
                    errors.innerHTML = `<pre>${content}</pre>`;
                }
            "#;

/// Error handler of a runtime run: logs and exits with a failure status.
pub const ONERROR_NODE: &'static str = r#"
                function onerror(error) {
                    console.error(error);
                    process.exit(1);
                }
            "#;

/// Module loading, up to the main binding module's import.
pub const PROMISE_0: &'static str = r#"
                Promise.all(modules)
                    .then(results => {
                        results.map(module => Object.assign(global, module));
                        return Promise.all([import('./test'), "#;

/// Module loading, after the main binding module's import.
pub const PROMISE_1: &'static str = r#"])
                    })
                    .then(result => run(result[0], result[1]))
            "#;

/// Marks the page's status region good after a headless success.
pub const MARK_GOOD: &'static str = r#".then(() => {
                    document.getElementById('status').innerHTML = 'good';
                })"#;

/// Appends the completion marker to a headless page.
pub const FINALLY: &'static str = r#"
                    .finally(() => {
                        window.document.body.innerHTML += "\nTEST_DONE";
                    })
                "#;

/// Classic tail: requires the test entry and runs it synchronously.
pub const CLASSIC_RUN: &'static str = r#"
                const test = require('./test');
                try {
                    run(test, {});
                } catch (e) {
                    onerror(e);
                }
            "#;

/// Manifest head, up to the identity in the package name.
pub const MANIFEST_0: &'static str = r#"
            [package]
            name = "test"#;

/// Manifest head, after the identity.
pub const MANIFEST_1: &'static str = r#""
            version = "0.0.1"
            authors = []

            [workspace]

            [lib]
        "#;

} // verus!
