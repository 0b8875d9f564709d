//! The order in which a project's tools run: after each stage the outcome
//! decides the next one, and a headless run always stops its dev-server and
//! releases the shared lock once the server has started.
use vstd::prelude::*;
use crate::project::{Project, strings_view};
use crate::text::{decimal, push_decimal};

verus! {

/// One stage of a test run.
#[derive(Debug, Clone, Copy, PartialEq, Eq, Structural)]
pub enum Stage {
    /// Nothing has run yet.
    Start,
    /// Compile the project natively for the wasm target.
    CargoBuild,
    /// Link the compiled artifact into the project and generate bindings.
    GenerateBindings,
    /// Run the runtime on the run script.
    RunNode,
    /// Write type declarations for the compiled module.
    WriteDeclarations,
    /// Link the shared package descriptor and dependency directory in.
    LinkNodeModules,
    /// Build the bundle.
    Bundle,
    /// Run the runtime on the bundle.
    RunBundle,
    /// Take the lock that serialises headless runs.
    AcquireLock,
    /// Start the dev-server in the background.
    StartDevServer,
    /// Wait until the dev-server accepts connections.
    WaitForServer,
    /// Run the headless browser driver.
    RunHeadless,
    /// Close the dev-server's input, wait for it and collect its output;
    /// `failed` records an earlier failure.
    StopDevServer { failed: bool },
    /// Release the lock; `failed` records an earlier failure.
    ReleaseLock { failed: bool },
    /// The run succeeded.
    Done,
    /// The run failed.
    Failed,
}

/// The stage after `stage`, given whether it succeeded.
pub open spec fn next_stage_of(webpack: bool, headless: bool, stage: Stage, ok: bool) -> Stage {
    match stage {
        Stage::Start => Stage::CargoBuild,
        Stage::CargoBuild => if ok {
            Stage::GenerateBindings
        } else {
            Stage::Failed
        },
        Stage::GenerateBindings => if !ok {
            Stage::Failed
        } else if webpack {
            Stage::WriteDeclarations
        } else {
            Stage::RunNode
        },
        Stage::RunNode => if ok {
            Stage::Done
        } else {
            Stage::Failed
        },
        Stage::WriteDeclarations => if ok {
            Stage::LinkNodeModules
        } else {
            Stage::Failed
        },
        Stage::LinkNodeModules => if !ok {
            Stage::Failed
        } else if headless {
            Stage::AcquireLock
        } else {
            Stage::Bundle
        },
        Stage::Bundle => if ok {
            Stage::RunBundle
        } else {
            Stage::Failed
        },
        Stage::RunBundle => if ok {
            Stage::Done
        } else {
            Stage::Failed
        },
        Stage::AcquireLock => if ok {
            Stage::StartDevServer
        } else {
            Stage::Failed
        },
        Stage::StartDevServer => if ok {
            Stage::WaitForServer
        } else {
            Stage::ReleaseLock { failed: true }
        },
        Stage::WaitForServer => if ok {
            Stage::RunHeadless
        } else {
            Stage::StopDevServer { failed: true }
        },
        Stage::RunHeadless => Stage::StopDevServer { failed: !ok },
        Stage::StopDevServer { failed } => Stage::ReleaseLock { failed: failed || !ok },
        Stage::ReleaseLock { failed } => if failed {
            Stage::Failed
        } else {
            Stage::Done
        },
        Stage::Done => Stage::Done,
        Stage::Failed => Stage::Failed,
    }
}

/// The stages a run passes through from `stage` when each of the next `n`
/// stages succeeds.
pub open spec fn trace_ok(webpack: bool, headless: bool, stage: Stage, n: nat) -> Seq<Stage>
    decreases n,
{
    if n == 0 {
        Seq::empty()
    } else {
        let next = next_stage_of(webpack, headless, stage, true);
        seq![next] + trace_ok(webpack, headless, next, (n - 1) as nat)
    }
}

/// Options handed to the binding generator.
#[derive(Debug, Clone, Copy, PartialEq, Eq, Structural)]
pub struct BindgenOptions {
    /// Emit type declarations.
    pub typescript: bool,
    /// Debug mode.
    pub debug: bool,
    /// Target the runtime directly.
    pub nodejs: bool,
    /// Target the runtime's experimental module format.
    pub nodejs_experimental_modules: bool,
}

/// Runtime option that enables the experimental module format.
pub const EXPERIMENTAL_MODULES_OPTION: &'static str = "--experimental-modules";

/// The run script under the experimental module format.
pub const RUN_MJS: &'static str = "run.mjs";

/// The run script.
pub const RUN_JS: &'static str = "run.js";

/// The bundle the bundler writes.
pub const BUNDLE_JS: &'static str = "bundle.js";

/// The script that drives the headless browser.
pub const RUN_HEADLESS_JS: &'static str = "run-headless.js";

/// The package-script runner's subcommand.
pub const NPM_RUN: &'static str = "run";

/// The package script that builds the bundle.
pub const WEBPACK_SCRIPT: &'static str = "run-webpack";

/// The package script that serves the bundle.
pub const DEV_SERVER_SCRIPT: &'static str = "run-webpack-dev-server";

/// Separates the package script's own options.
pub const SCRIPT_ARGS: &'static str = "--";

/// Keeps the dev-server quiet.
pub const QUIET: &'static str = "--quiet";

/// Makes the dev-server exit when its input closes.
pub const WATCH_STDIN: &'static str = "--watch-stdin";

/// The address the dev-server listens on.
pub const SERVER_ADDRESS: &'static str = "127.0.0.1:8080";

/// Pause between two connection attempts, in milliseconds.
pub const POLL_INTERVAL_MS: u64 = 100;

/// The native build's target triple.
pub const TARGET_TRIPLE: &'static str = "wasm32-unknown-unknown";

/// The build tool's subcommand.
pub const CARGO_BUILD: &'static str = "build";

/// The build tool's option that selects the target.
pub const TARGET_OPTION: &'static str = "--target";

/// Compiler flags of the native build: every warning is an error.
pub const WARNINGS_AS_ERRORS: &'static str = "-Dwarnings";

/// The compiled artifact's directory under the build output root.
pub const ARTIFACT_DIR: &'static str = "wasm32-unknown-unknown/debug/test";

/// The compiled artifact's extension, with its dot.
pub const ARTIFACT_EXT: &'static str = ".wasm";

/// Generated bindings under the experimental module format.
pub const OUT_MJS: &'static str = "out.mjs";

/// Generated bindings.
pub const OUT_JS: &'static str = "out.js";

/// Appends `a` to `args`.
fn push_str_arg(args: &mut Vec<String>, a: &str)
    ensures
        strings_view(final(args)@) == strings_view(old(args)@).push(a@),
{
    args.push(String::from_str(a));
    assert(strings_view(args@) =~= strings_view(old(args)@).push(a@));
}

/// The runtime arguments of the project followed by `tail`.
pub open spec fn node_invocation(node_args: Seq<Seq<char>>, tail: Seq<Seq<char>>) -> Seq<Seq<char>> {
    node_args + tail
}

impl Project {
    fn node_args_copy(&self) -> (r: Vec<String>)
        ensures
            strings_view(r@) == strings_view(self.node_args@),
    {
        let mut r: Vec<String> = Vec::new();
        let mut i: usize = 0;
        while i < self.node_args.len()
            invariant
                i <= self.node_args.len(),
                strings_view(r@) == strings_view(self.node_args@).subrange(0, i as int),
            decreases self.node_args.len() - i,
        {
            let ghost before = strings_view(r@);
            r.push(self.node_args[i].clone());
            assert(strings_view(r@) =~= before.push(strings_view(self.node_args@)[i as int]));
            assert(strings_view(self.node_args@).subrange(0, i + 1) =~= before.push(
                strings_view(self.node_args@)[i as int],
            ));
            i = i + 1;
        }
        assert(strings_view(self.node_args@).subrange(0, self.node_args.len() as int)
            =~= strings_view(self.node_args@));
        r
    }

    /// The stage after `stage` of this project's test run, given whether
    /// `stage` succeeded. Meant for a project whose flags `build` settled.
    pub fn next_stage(&self, stage: Stage, ok: bool) -> (r: Stage)
        ensures
            r == next_stage_of(self@.webpack, self@.headless, stage, ok),
    {
        match stage {
            Stage::Start => Stage::CargoBuild,
            Stage::CargoBuild => if ok {
                Stage::GenerateBindings
            } else {
                Stage::Failed
            },
            Stage::GenerateBindings => if !ok {
                Stage::Failed
            } else if self.webpack {
                Stage::WriteDeclarations
            } else {
                Stage::RunNode
            },
            Stage::RunNode => if ok {
                Stage::Done
            } else {
                Stage::Failed
            },
            Stage::WriteDeclarations => if ok {
                Stage::LinkNodeModules
            } else {
                Stage::Failed
            },
            Stage::LinkNodeModules => if !ok {
                Stage::Failed
            } else if self.headless {
                Stage::AcquireLock
            } else {
                Stage::Bundle
            },
            Stage::Bundle => if ok {
                Stage::RunBundle
            } else {
                Stage::Failed
            },
            Stage::RunBundle => if ok {
                Stage::Done
            } else {
                Stage::Failed
            },
            Stage::AcquireLock => if ok {
                Stage::StartDevServer
            } else {
                Stage::Failed
            },
            Stage::StartDevServer => if ok {
                Stage::WaitForServer
            } else {
                Stage::ReleaseLock { failed: true }
            },
            Stage::WaitForServer => if ok {
                Stage::RunHeadless
            } else {
                Stage::StopDevServer { failed: true }
            },
            Stage::RunHeadless => Stage::StopDevServer { failed: !ok },
            Stage::StopDevServer { failed } => Stage::ReleaseLock { failed: failed || !ok },
            Stage::ReleaseLock { failed } => if failed {
                Stage::Failed
            } else {
                Stage::Done
            },
            Stage::Done => Stage::Done,
            Stage::Failed => Stage::Failed,
        }
    }

    /// The binding generator's options: declarations only for a bundle.
    pub fn bindgen_options(&self) -> (r: BindgenOptions)
        ensures
            r == (BindgenOptions {
                typescript: self@.webpack,
                debug: self@.debug,
                nodejs: self@.node,
                nodejs_experimental_modules: self@.nodejs_experimental_modules,
            }),
    {
        BindgenOptions {
            typescript: self.webpack,
            debug: self.debug,
            nodejs: self.node,
            nodejs_experimental_modules: self.nodejs_experimental_modules,
        }
    }

    /// The runtime's arguments for running the run script directly.
    pub fn node_command(&self) -> (r: Vec<String>)
        ensures
            strings_view(r@) == node_invocation(
                self@.node_args,
                if self@.nodejs_experimental_modules {
                    seq![EXPERIMENTAL_MODULES_OPTION@, RUN_MJS@]
                } else {
                    seq![RUN_JS@]
                },
            ),
    {
        let mut r = self.node_args_copy();
        if self.nodejs_experimental_modules {
            push_str_arg(&mut r, EXPERIMENTAL_MODULES_OPTION);
            push_str_arg(&mut r, RUN_MJS);
        } else {
            push_str_arg(&mut r, RUN_JS);
        }
        assert(strings_view(r@) =~= node_invocation(
            self@.node_args,
            if self@.nodejs_experimental_modules {
                seq![EXPERIMENTAL_MODULES_OPTION@, RUN_MJS@]
            } else {
                seq![RUN_JS@]
            },
        ));
        r
    }

    /// The runtime's arguments for running the bundle.
    pub fn bundle_run_command(&self) -> (r: Vec<String>)
        ensures
            strings_view(r@) == node_invocation(self@.node_args, seq![BUNDLE_JS@]),
    {
        let mut r = self.node_args_copy();
        push_str_arg(&mut r, BUNDLE_JS);
        assert(strings_view(r@) =~= node_invocation(self@.node_args, seq![BUNDLE_JS@]));
        r
    }

    /// The runtime's arguments for running the headless browser driver.
    pub fn headless_command(&self) -> (r: Vec<String>)
        ensures
            strings_view(r@) == node_invocation(self@.node_args, seq![RUN_HEADLESS_JS@]),
    {
        let mut r = self.node_args_copy();
        push_str_arg(&mut r, RUN_HEADLESS_JS);
        assert(strings_view(r@) =~= node_invocation(self@.node_args, seq![RUN_HEADLESS_JS@]));
        r
    }

    /// The compiled artifact's path under the build output root.
    pub fn artifact_path(&self) -> (r: String)
        ensures
            r@ == ARTIFACT_DIR@ + decimal(self@.identity) + ARTIFACT_EXT@,
    {
        let mut r = String::from_str(ARTIFACT_DIR);
        push_decimal(&mut r, self.identity);
        r.append(ARTIFACT_EXT);
        r
    }

    /// The file the binding generator writes its main bindings to.
    pub fn js_output_name(&self) -> (r: &'static str)
        ensures
            r@ == if self@.nodejs_experimental_modules {
                OUT_MJS@
            } else {
                OUT_JS@
            },
    {
        if self.nodejs_experimental_modules {
            OUT_MJS
        } else {
            OUT_JS
        }
    }
}

/// The build tool's arguments for compiling a project natively.
pub fn cargo_build_command() -> (r: Vec<String>)
    ensures
        strings_view(r@) == seq![CARGO_BUILD@, TARGET_OPTION@, TARGET_TRIPLE@],
{
    let mut r: Vec<String> = Vec::new();
    push_str_arg(&mut r, CARGO_BUILD);
    push_str_arg(&mut r, TARGET_OPTION);
    push_str_arg(&mut r, TARGET_TRIPLE);
    assert(strings_view(r@) =~= seq![CARGO_BUILD@, TARGET_OPTION@, TARGET_TRIPLE@]);
    r
}

/// The package-script runner's arguments for building the bundle.
pub fn bundle_command() -> (r: Vec<String>)
    ensures
        strings_view(r@) == seq![NPM_RUN@, WEBPACK_SCRIPT@],
{
    let mut r: Vec<String> = Vec::new();
    push_str_arg(&mut r, NPM_RUN);
    push_str_arg(&mut r, WEBPACK_SCRIPT);
    assert(strings_view(r@) =~= seq![NPM_RUN@, WEBPACK_SCRIPT@]);
    r
}

/// The package-script runner's arguments for serving the bundle.
pub fn dev_server_command() -> (r: Vec<String>)
    ensures
        strings_view(r@) == seq![NPM_RUN@, DEV_SERVER_SCRIPT@, SCRIPT_ARGS@, QUIET@, WATCH_STDIN@],
{
    let mut r: Vec<String> = Vec::new();
    push_str_arg(&mut r, NPM_RUN);
    push_str_arg(&mut r, DEV_SERVER_SCRIPT);
    push_str_arg(&mut r, SCRIPT_ARGS);
    push_str_arg(&mut r, QUIET);
    push_str_arg(&mut r, WATCH_STDIN);
    assert(strings_view(r@) =~= seq![NPM_RUN@, DEV_SERVER_SCRIPT@, SCRIPT_ARGS@, QUIET@, WATCH_STDIN@]);
    r
}

} // verus!
