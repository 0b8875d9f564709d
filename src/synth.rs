//! The files synthesised from a project's flags and its own files.
use vstd::prelude::*;
use crate::project::{Project, entries_view, strings_view};
use crate::templates as tpl;
use crate::text::{
    decimal, ends_with, extension, has_extension, parent, parent_dir, push_decimal,
    replace_extension, str_ends_with, str_equal, strip_extension, with_extension,
    without_extension,
};

verus! {

/// Some file of `files` is a strongly-typed source.
pub open spec fn needs_typescript(files: Seq<(Seq<char>, Seq<char>)>) -> bool {
    exists|i: int| 0 <= i < files.len() && ends_with(#[trigger] files[i].0, tpl::TS_SUFFIX@)
}

/// The bundle's execution target: a browser page when headless.
pub open spec fn target_label(headless: bool) -> Seq<char> {
    if headless {
        tpl::TARGET_WEB@
    } else {
        tpl::TARGET_NODE@
    }
}

/// The bundler configuration.
pub open spec fn webpack_config(ts: bool, headless: bool) -> Seq<char> {
    let target = target_label(headless);
    let rules = if ts {
        tpl::TS_RULE@
    } else {
        Seq::empty()
    };
    let exts = if ts {
        tpl::BASE_EXTENSIONS@ + tpl::TS_EXTENSION@
    } else {
        tpl::BASE_EXTENSIONS@
    };
    tpl::WEBPACK_0@ + target + tpl::WEBPACK_1@ + rules + tpl::WEBPACK_2@ + exts + tpl::WEBPACK_3@
        + target + tpl::WEBPACK_4@
}

/// The bundler's files: its configuration, and the type checker's when
/// strongly-typed sources are present.
pub open spec fn webpack_files(files: Seq<(Seq<char>, Seq<char>)>, headless: bool) -> Seq<
    (Seq<char>, Seq<char>),
> {
    let ts = needs_typescript(files);
    let config = seq![(tpl::WEBPACK_CONFIG_NAME@, webpack_config(ts, headless))];
    if ts {
        config.push((tpl::TS_CONFIG_NAME@, tpl::TS_CONFIG@))
    } else {
        config
    }
}

/// Some file of `files` is a test entry point.
pub open spec fn has_test_entry(files: Seq<(Seq<char>, Seq<char>)>) -> bool {
    exists|i: int|
        0 <= i < files.len() && (#[trigger] files[i].0 == tpl::TEST_TS_NAME@ || files[i].0
            == tpl::TEST_JS_NAME@)
}

/// `files` with the default test entry added where none is present.
pub open spec fn with_test_entry(files: Seq<(Seq<char>, Seq<char>)>) -> Seq<(Seq<char>, Seq<char>)> {
    if has_test_entry(files) {
        files
    } else {
        files.push((tpl::TEST_JS_NAME@, tpl::TEST_ENTRY@))
    }
}

/// The page and the driver script of a headless run.
pub open spec fn headless_files(runner: Seq<char>) -> Seq<(Seq<char>, Seq<char>)> {
    seq![(tpl::INDEX_HTML_NAME@, tpl::INDEX_HTML@), (tpl::RUN_HEADLESS_NAME@, runner)]
}

/// `p` names an interface-description file.
pub open spec fn is_description_path(p: Seq<char>) -> bool {
    extension(p) == Some(tpl::EXT_WEBIDL@) || extension(p) == Some(tpl::EXT_WIDL@)
}

/// The paths of the interface-description files among `files`, in order.
pub open spec fn description_sources(files: Seq<(Seq<char>, Seq<char>)>) -> Seq<Seq<char>>
    decreases files.len(),
{
    if files.len() == 0 {
        Seq::empty()
    } else {
        let rest = description_sources(files.drop_last());
        if is_description_path(files.last().0) {
            rest.push(files.last().0)
        } else {
            rest
        }
    }
}

/// The generated module of the description file `src`.
pub open spec fn generated_module(src: Seq<char>) -> Seq<char> {
    replace_extension(src, tpl::EXT_RS@)
}

/// The source stub of the description file `src`: it pulls in the module
/// that the build script writes to the tool-managed output directory.
pub open spec fn stub_entry(src: Seq<char>) -> (Seq<char>, Seq<char>) {
    (tpl::SRC_DIR@ + generated_module(src), tpl::STUB_HEAD@ + generated_module(src) + tpl::STUB_TAIL@)
}

/// The build script's step that compiles the description file `src`.
pub open spec fn compile_step(src: Seq<char>) -> Seq<char> {
    let m = generated_module(src);
    tpl::COMPILE_0@ + parent(m) + tpl::COMPILE_1@ + m + tpl::COMPILE_2@ + src + tpl::COMPILE_3@
}

/// The compile steps of `srcs`, in order.
pub open spec fn compile_steps(srcs: Seq<Seq<char>>) -> Seq<char>
    decreases srcs.len(),
{
    if srcs.len() == 0 {
        Seq::empty()
    } else {
        compile_steps(srcs.drop_last()) + compile_step(srcs.last())
    }
}

/// The build script that compiles every description file of `srcs`.
pub open spec fn build_script(srcs: Seq<Seq<char>>) -> Seq<char> {
    tpl::BUILD_SCRIPT_HEAD@ + compile_steps(srcs) + tpl::BUILD_SCRIPT_CLOSE@
}

/// The stubs of `srcs`, in order.
pub open spec fn stub_entries(srcs: Seq<Seq<char>>) -> Seq<(Seq<char>, Seq<char>)> {
    srcs.map_values(|s: Seq<char>| stub_entry(s))
}

/// The files synthesised for the description files `srcs`: one stub each,
/// then the build script; nothing when there are none.
pub open spec fn description_files(srcs: Seq<Seq<char>>) -> Seq<(Seq<char>, Seq<char>)> {
    if srcs.len() == 0 {
        Seq::empty()
    } else {
        stub_entries(srcs).push((tpl::BUILD_SCRIPT_NAME@, build_script(srcs)))
    }
}

/// The run script loads modules asynchronously, by dynamic import.
pub open spec fn uses_esm(webpack: bool, node: bool, experimental: bool) -> bool {
    webpack || !node || experimental
}

/// Opening of the run script.
pub open spec fn script_prelude(headless: bool, esm: bool) -> Seq<char> {
    if headless {
        tpl::HEADLESS_PRELUDE@
    } else if esm {
        tpl::ESM_PROCESS@
    } else {
        tpl::REQUIRE_PROCESS@
    }
}

/// The run script's error handler.
pub open spec fn error_handler(headless: bool) -> Seq<char> {
    if headless {
        tpl::ONERROR_HEADLESS@
    } else {
        tpl::ONERROR_NODE@
    }
}

/// One dynamic import per generated module, in order.
pub open spec fn module_imports(modules: Seq<Seq<char>>) -> Seq<char>
    decreases modules.len(),
{
    if modules.len() == 0 {
        Seq::empty()
    } else {
        module_imports(modules.drop_last()) + tpl::IMPORT_OPEN@ + strip_extension(modules.last())
            + tpl::IMPORT_CLOSE@
    }
}

/// The asynchronous tail of the run script.
pub open spec fn esm_loader(headless: bool, debug: bool, modules: Seq<Seq<char>>) -> Seq<char> {
    tpl::MODULES_START@ + module_imports(modules) + tpl::PROMISE_0@ + (if debug {
        tpl::IMPORT_OUT@
    } else {
        tpl::EMPTY_MODULE@
    }) + tpl::PROMISE_1@ + (if headless {
        tpl::MARK_GOOD@
    } else {
        Seq::empty()
    }) + tpl::CATCH@ + (if headless {
        tpl::FINALLY@
    } else {
        Seq::empty()
    })
}

/// The run script.
pub open spec fn run_script(headless: bool, esm: bool, debug: bool, modules: Seq<Seq<char>>) -> Seq<
    char,
> {
    script_prelude(headless, esm) + tpl::RUN_FN@ + error_handler(headless) + (if esm {
        esm_loader(headless, debug, modules)
    } else {
        tpl::CLASSIC_RUN@
    })
}

/// One line per extra dependency, verbatim.
pub open spec fn dependency_lines(deps: Seq<Seq<char>>) -> Seq<char>
    decreases deps.len(),
{
    if deps.len() == 0 {
        Seq::empty()
    } else {
        dependency_lines(deps.drop_last()) + deps.last() + tpl::LINE_END@
    }
}

/// The generated crate's manifest.
pub open spec fn manifest_text(
    identity: nat,
    builder_dir: Seq<char>,
    rlib: bool,
    deps: Seq<Seq<char>>,
    no_std: bool,
    serde: bool,
) -> Seq<char> {
    tpl::MANIFEST_0@ + decimal(identity) + tpl::MANIFEST_1@ + (if rlib {
        Seq::empty()
    } else {
        tpl::CDYLIB@
    }) + tpl::BUILD_DEPS_OPEN@ + builder_dir + tpl::BUILD_DEPS_CLOSE@ + dependency_lines(deps)
        + tpl::CORE_DEP_OPEN@ + builder_dir + tpl::CORE_DEP_PATH@ + (if no_std {
        tpl::NO_STD_FEATURE@
    } else {
        Seq::empty()
    }) + (if serde {
        tpl::SERDE_FEATURE@
    } else {
        Seq::empty()
    }) + tpl::CORE_DEP_CLOSE@
}

/// Appends a (path, contents) pair.
fn push_entry(files: &mut Vec<(String, String)>, path: &str, contents: &str)
    ensures
        entries_view(final(files)@) == entries_view(old(files)@).push((path@, contents@)),
{
    files.push((String::from_str(path), String::from_str(contents)));
    assert(entries_view(files@) =~= entries_view(old(files)@).push((path@, contents@)));
}

/// Whether some file of `files` is a strongly-typed source.
fn any_typescript(files: &Vec<(String, String)>) -> (r: bool)
    ensures
        r == needs_typescript(entries_view(files@)),
{
    let ghost v = entries_view(files@);
    let mut i: usize = 0;
    while i < files.len()
        invariant
            v == entries_view(files@),
            i <= files.len(),
            forall|j: int| 0 <= j < i ==> !ends_with(#[trigger] v[j].0, tpl::TS_SUFFIX@),
        decreases files.len() - i,
    {
        if str_ends_with(files[i].0.as_str(), tpl::TS_SUFFIX) {
            assert(ends_with(v[i as int].0, tpl::TS_SUFFIX@));
            return true;
        }
        i = i + 1;
    }
    false
}

/// Whether some file of `files` is a test entry point.
fn any_test_entry(files: &Vec<(String, String)>) -> (r: bool)
    ensures
        r == has_test_entry(entries_view(files@)),
{
    let ghost v = entries_view(files@);
    let mut i: usize = 0;
    while i < files.len()
        invariant
            v == entries_view(files@),
            i <= files.len(),
            forall|j: int|
                0 <= j < i ==> !(#[trigger] v[j].0 == tpl::TEST_TS_NAME@ || v[j].0
                    == tpl::TEST_JS_NAME@),
        decreases files.len() - i,
    {
        let p = files[i].0.as_str();
        if str_equal(p, tpl::TEST_TS_NAME) || str_equal(p, tpl::TEST_JS_NAME) {
            assert(v[i as int].0 == tpl::TEST_TS_NAME@ || v[i as int].0 == tpl::TEST_JS_NAME@);
            return true;
        }
        i = i + 1;
    }
    false
}

impl Project {
    /// Adds the bundler's files when the bundler is enabled.
    pub(crate) fn ensure_webpack_config(&self, files: &mut Vec<(String, String)>)
        ensures
            entries_view(final(files)@) == if self.webpack {
                entries_view(old(files)@) + webpack_files(entries_view(old(files)@), self.headless)
            } else {
                entries_view(old(files)@)
            },
    {
        let ghost v0 = entries_view(files@);
        if !self.webpack {
            return;
        }
        let ts = any_typescript(files);
        let target = if self.headless {
            tpl::TARGET_WEB
        } else {
            tpl::TARGET_NODE
        };
        let mut config = String::from_str(tpl::WEBPACK_0);
        config.append(target);
        config.append(tpl::WEBPACK_1);
        if ts {
            config.append(tpl::TS_RULE);
        }
        config.append(tpl::WEBPACK_2);
        config.append(tpl::BASE_EXTENSIONS);
        if ts {
            config.append(tpl::TS_EXTENSION);
        }
        config.append(tpl::WEBPACK_3);
        config.append(target);
        config.append(tpl::WEBPACK_4);
        assert(config@ =~= webpack_config(ts, self.headless));
        push_entry(files, tpl::WEBPACK_CONFIG_NAME, config.as_str());
        if ts {
            push_entry(files, tpl::TS_CONFIG_NAME, tpl::TS_CONFIG);
        }
        assert(entries_view(files@) =~= v0 + webpack_files(v0, self.headless));
    }

    /// Adds the default test entry unless a test entry is present.
    pub(crate) fn ensure_test_entry(&self, files: &mut Vec<(String, String)>)
        ensures
            entries_view(final(files)@) == with_test_entry(entries_view(old(files)@)),
    {
        if !any_test_entry(files) {
            push_entry(files, tpl::TEST_JS_NAME, tpl::TEST_ENTRY);
        }
    }

    /// Adds the page of a headless run.
    pub(crate) fn ensure_index_html(&self, files: &mut Vec<(String, String)>)
        ensures
            entries_view(final(files)@) == entries_view(old(files)@).push(
                (tpl::INDEX_HTML_NAME@, tpl::INDEX_HTML@),
            ),
    {
        push_entry(files, tpl::INDEX_HTML_NAME, tpl::INDEX_HTML);
    }

    /// Adds the script that drives the headless browser.
    pub(crate) fn ensure_run_headless_js(&self, files: &mut Vec<(String, String)>)
        ensures
            entries_view(final(files)@) == entries_view(old(files)@).push(
                (tpl::RUN_HEADLESS_NAME@, self.headless_runner@),
            ),
    {
        push_entry(files, tpl::RUN_HEADLESS_NAME, self.headless_runner.as_str());
    }
}


/// The compile step of the description file `src`.
fn compile_step_text(src: &str) -> (r: String)
    ensures
        r@ == compile_step(src@),
{
    let m = with_extension(src, tpl::EXT_RS);
    let dir = parent_dir(m.as_str());
    let mut r = String::from_str(tpl::COMPILE_0);
    r.append(dir.as_str());
    r.append(tpl::COMPILE_1);
    r.append(m.as_str());
    r.append(tpl::COMPILE_2);
    r.append(src);
    r.append(tpl::COMPILE_3);
    r
}

/// The stub of the description file `src`, as a (path, contents) pair.
fn stub_pair(src: &str) -> (r: (String, String))
    ensures
        (r.0@, r.1@) == stub_entry(src@),
{
    let m = with_extension(src, tpl::EXT_RS);
    let mut path = String::from_str(tpl::SRC_DIR);
    path.append(m.as_str());
    let mut text = String::from_str(tpl::STUB_HEAD);
    text.append(m.as_str());
    text.append(tpl::STUB_TAIL);
    (path, text)
}

proof fn lemma_description_sources_step(v: Seq<(Seq<char>, Seq<char>)>, i: int)
    requires
        0 <= i < v.len(),
    ensures
        description_sources(v.subrange(0, i + 1)) == if is_description_path(v[i].0) {
            description_sources(v.subrange(0, i)).push(v[i].0)
        } else {
            description_sources(v.subrange(0, i))
        },
{
    assert(v.subrange(0, i + 1).drop_last() =~= v.subrange(0, i));
}

impl Project {
    /// Adds a source stub for every interface-description file, then a build
    /// script that compiles them all; returns the paths of the generated
    /// modules, in order.
    pub(crate) fn generate_webidl_bindings(&self, files: &mut Vec<(String, String)>) -> (r: Vec<String>)
        ensures
            strings_view(r@) == description_sources(entries_view(old(files)@)).map_values(
                |s: Seq<char>| generated_module(s),
            ),
            entries_view(final(files)@) == entries_view(old(files)@) + description_files(
                description_sources(entries_view(old(files)@)),
            ),
    {
        let ghost v0 = entries_view(files@);
        let mut srcs: Vec<String> = Vec::new();
        let mut i: usize = 0;
        while i < files.len()
            invariant
                v0 == entries_view(files@),
                i <= files.len(),
                strings_view(srcs@) == description_sources(v0.subrange(0, i as int)),
            decreases files.len() - i,
        {
            proof {
                lemma_description_sources_step(v0, i as int);
            }
            let p = files[i].0.as_str();
            if has_extension(p, tpl::EXT_WEBIDL) || has_extension(p, tpl::EXT_WIDL) {
                srcs.push(String::from_str(p));
                assert(strings_view(srcs@) =~= description_sources(v0.subrange(0, i + 1)));
            }
            i = i + 1;
        }
        assert(v0.subrange(0, files.len() as int) =~= v0);
        let ghost sv = strings_view(srcs@);
        let mut modules: Vec<String> = Vec::new();
        if srcs.len() == 0 {
            assert(strings_view(modules@) =~= sv.map_values(|s: Seq<char>| generated_module(s)));
            return modules;
        }
        let mut script = String::from_str(tpl::BUILD_SCRIPT_HEAD);
        let mut k: usize = 0;
        while k < srcs.len()
            invariant
                sv == strings_view(srcs@),
                k <= srcs.len(),
                entries_view(files@) == v0 + stub_entries(sv.subrange(0, k as int)),
                script@ == tpl::BUILD_SCRIPT_HEAD@ + compile_steps(sv.subrange(0, k as int)),
                strings_view(modules@) == sv.subrange(0, k as int).map_values(
                    |s: Seq<char>| generated_module(s),
                ),
            decreases srcs.len() - k,
        {
            let src = srcs[k].as_str();
            let step = compile_step_text(src);
            script.append(step.as_str());
            let pair = stub_pair(src);
            let ghost before = entries_view(files@);
            let ghost before_modules = strings_view(modules@);
            files.push(pair);
            let module = with_extension(src, tpl::EXT_RS);
            modules.push(module);
            proof {
                let next = sv.subrange(0, k + 1);
                assert(src@ == sv[k as int]);
                assert(strings_view(modules@) =~= before_modules.push(generated_module(src@)));
                assert(next.map_values(|s: Seq<char>| generated_module(s)) =~= sv.subrange(
                    0,
                    k as int,
                ).map_values(|s: Seq<char>| generated_module(s)).push(generated_module(src@)));
                assert(next.drop_last() =~= sv.subrange(0, k as int));
                assert(entries_view(files@) =~= before.push(stub_entry(src@)));
                assert(stub_entries(next) =~= stub_entries(sv.subrange(0, k as int)).push(
                    stub_entry(src@),
                ));
                assert(strings_view(modules@) =~= next.map_values(
                    |s: Seq<char>| generated_module(s),
                ));
            }
            k = k + 1;
        }
        assert(sv.subrange(0, srcs.len() as int) =~= sv);
        script.append(tpl::BUILD_SCRIPT_CLOSE);
        let ghost before = entries_view(files@);
        files.push((String::from_str(tpl::BUILD_SCRIPT_NAME), script));
        assert(sv.len() > 0);
        assert(entries_view(files@) =~= before.push((tpl::BUILD_SCRIPT_NAME@, build_script(sv))));
        assert(entries_view(files@) =~= v0 + description_files(sv));
        modules
    }

    /// Adds the run script: it loads the test entry and the binding module
    /// and reports the outcome.
    pub(crate) fn generate_js_entry(&self, files: &mut Vec<(String, String)>, modules: &Vec<String>)
        requires
            uses_esm(self.webpack, self.node, self.nodejs_experimental_modules) || (!self.debug
                && modules.len() == 0),
        ensures
            entries_view(final(files)@) == entries_view(old(files)@).push(
                (
                    tpl::RUN_SCRIPT_NAME@,
                    run_script(
                        self.headless,
                        uses_esm(self.webpack, self.node, self.nodejs_experimental_modules),
                        self.debug,
                        strings_view(modules@),
                    ),
                ),
            ),
    {
        let esm = self.webpack || !self.node || self.nodejs_experimental_modules;
        let ghost mv = strings_view(modules@);
        let mut run = if self.headless {
            String::from_str(tpl::HEADLESS_PRELUDE)
        } else if esm {
            String::from_str(tpl::ESM_PROCESS)
        } else {
            String::from_str(tpl::REQUIRE_PROCESS)
        };
        run.append(tpl::RUN_FN);
        if self.headless {
            run.append(tpl::ONERROR_HEADLESS);
        } else {
            run.append(tpl::ONERROR_NODE);
        }
        let ghost head = run@;
        if esm {
            run.append(tpl::MODULES_START);
            let ghost start = run@;
            let mut i: usize = 0;
            while i < modules.len()
                invariant
                    mv == strings_view(modules@),
                    i <= modules.len(),
                    run@ == start + module_imports(mv.subrange(0, i as int)),
                decreases modules.len() - i,
            {
                run.append(tpl::IMPORT_OPEN);
                let stem = without_extension(modules[i].as_str());
                run.append(stem.as_str());
                run.append(tpl::IMPORT_CLOSE);
                assert(mv.subrange(0, i + 1).drop_last() =~= mv.subrange(0, i as int));
                i = i + 1;
            }
            assert(mv.subrange(0, modules.len() as int) =~= mv);
            run.append(tpl::PROMISE_0);
            if self.debug {
                run.append(tpl::IMPORT_OUT);
            } else {
                run.append(tpl::EMPTY_MODULE);
            }
            run.append(tpl::PROMISE_1);
            if self.headless {
                run.append(tpl::MARK_GOOD);
            }
            run.append(tpl::CATCH);
            if self.headless {
                run.append(tpl::FINALLY);
            }
            assert(run@ =~= head + esm_loader(self.headless, self.debug, mv));
        } else {
            run.append(tpl::CLASSIC_RUN);
        }
        assert(run@ =~= run_script(self.headless, esm, self.debug, mv));
        push_entry(files, tpl::RUN_SCRIPT_NAME, run.as_str());
    }

    /// The generated crate's manifest.
    pub(crate) fn manifest(&self) -> (r: String)
        ensures
            r@ == manifest_text(
                self.identity as nat,
                self.builder_dir@,
                self.rlib,
                strings_view(self.deps@),
                self.no_std,
                self.serde,
            ),
    {
        let ghost dv = strings_view(self.deps@);
        let mut m = String::from_str(tpl::MANIFEST_0);
        push_decimal(&mut m, self.identity);
        m.append(tpl::MANIFEST_1);
        if !self.rlib {
            m.append(tpl::CDYLIB);
        }
        m.append(tpl::BUILD_DEPS_OPEN);
        m.append(self.builder_dir.as_str());
        m.append(tpl::BUILD_DEPS_CLOSE);
        let ghost start = m@;
        let mut i: usize = 0;
        while i < self.deps.len()
            invariant
                dv == strings_view(self.deps@),
                i <= self.deps.len(),
                m@ == start + dependency_lines(dv.subrange(0, i as int)),
            decreases self.deps.len() - i,
        {
            m.append(self.deps[i].as_str());
            m.append(tpl::LINE_END);
            assert(dv.subrange(0, i + 1).drop_last() =~= dv.subrange(0, i as int));
            i = i + 1;
        }
        assert(dv.subrange(0, self.deps.len() as int) =~= dv);
        m.append(tpl::CORE_DEP_OPEN);
        m.append(self.builder_dir.as_str());
        m.append(tpl::CORE_DEP_PATH);
        if self.no_std {
            m.append(tpl::NO_STD_FEATURE);
        }
        if self.serde {
            m.append(tpl::SERDE_FEATURE);
        }
        m.append(tpl::CORE_DEP_CLOSE);
        assert(m@ =~= manifest_text(
            self.identity as nat,
            self.builder_dir@,
            self.rlib,
            dv,
            self.no_std,
            self.serde,
        ));
        m
    }
}

} // verus!
