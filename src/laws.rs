//! Properties that relate several of the library's functions.
use vstd::prelude::*;
use crate::pipeline::{Stage, next_stage_of, trace_ok};
use crate::plan::{
    classic_conflict, disk_of, files_before_descriptions, generated_files, normalized, on_disk_path,
    project_manifest, project_run_script, typescript_conflict, write_plan,
};
use crate::project::{ProjectView, crate_name_of, project_dir_of};
use crate::synth::{
    build_script, compile_step, compile_steps, description_files, description_sources,
    generated_module, has_test_entry, headless_files, stub_entry, stub_entries, webpack_files,
    with_test_entry,
};
use crate::templates as tpl;
use crate::text::{
    decimal, ext_dot, extension, is_last_mark, lemma_decimal_injective, lemma_decimal_no_slash,
    lemma_ext_dot_at,
};

verus! {

/// The on-disk name of the run script.
pub open spec fn run_script_path(experimental: bool) -> Seq<char> {
    if experimental {
        "run.mjs"@
    } else {
        "run.js"@
    }
}

proof fn lemma_fixed_paths(experimental: bool)
    ensures
        on_disk_path(tpl::RUN_SCRIPT_NAME@, experimental) == run_script_path(experimental),
        on_disk_path(tpl::MANIFEST_NAME@, experimental) == tpl::MANIFEST_NAME@,
        run_script_path(experimental) != tpl::MANIFEST_NAME@,
{
    reveal_strlit("run.js");
    reveal_strlit("run.mjs");
    reveal_strlit("Cargo.toml");
    reveal_strlit("js");
    reveal_strlit("mjs");
    let run = tpl::RUN_SCRIPT_NAME@;
    assert(is_last_mark(run, 3));
    lemma_ext_dot_at(run, 3);
    assert(run.subrange(4, 6) =~= tpl::EXT_JS@);
    assert(run.subrange(0, 4) + tpl::EXT_MJS@ =~= "run.mjs"@);
    let manifest = tpl::MANIFEST_NAME@;
    assert(is_last_mark(manifest, 5));
    lemma_ext_dot_at(manifest, 5);
    assert(extension(manifest) != Some(tpl::EXT_JS@)) by {
        assert(manifest.subrange(6, 10).len() != tpl::EXT_JS@.len());
    }
    assert(run_script_path(experimental).len() != manifest.len());
}

/// Every configuration that `build` accepts writes one manifest and one run
/// script: the manifest last and the run script just before it, at two
/// different paths, so the directory ends up holding both with the
/// synthesised contents whatever the project's own files are.
pub proof fn law_build_layout(v: ProjectView)
    requires
        !classic_conflict(normalized(v)),
        !typescript_conflict(normalized(v)),
    ensures
        ({
            let n = normalized(v);
            let plan = write_plan(n);
            let run = run_script_path(n.nodejs_experimental_modules);
            &&& plan.len() >= 2
            &&& plan[plan.len() - 1] == (tpl::MANIFEST_NAME@, project_manifest(n))
            &&& plan[plan.len() - 2] == (run, project_run_script(n))
            &&& run != tpl::MANIFEST_NAME@
            &&& disk_of(plan).contains_key(tpl::MANIFEST_NAME@)
            &&& disk_of(plan)[tpl::MANIFEST_NAME@] == project_manifest(n)
            &&& disk_of(plan).contains_key(run)
            &&& disk_of(plan)[run] == project_run_script(n)
        }),
{
    let n = normalized(v);
    let plan = write_plan(n);
    let run = run_script_path(n.nodejs_experimental_modules);
    lemma_fixed_paths(n.nodejs_experimental_modules);
    let g = generated_files(n);
    assert(plan.len() == g.len());
    assert(plan[plan.len() - 1] == (tpl::MANIFEST_NAME@, project_manifest(n)));
    assert(plan[plan.len() - 2] == (run, project_run_script(n)));
    assert(plan.drop_last().last() == (run, project_run_script(n)));
    assert(disk_of(plan) == disk_of(plan.drop_last()).insert(tpl::MANIFEST_NAME@, project_manifest(n)));
    assert(disk_of(plan.drop_last()) == disk_of(plan.drop_last().drop_last()).insert(
        run,
        project_run_script(n),
    ));
}

/// The on-disk name the run script does not get.
pub open spec fn other_run_script_path(experimental: bool) -> Seq<char> {
    run_script_path(!experimental)
}

/// No pair of `s` lands at `k` on disk.
pub open spec fn avoids(s: Seq<(Seq<char>, Seq<char>)>, k: Seq<char>, experimental: bool) -> bool {
    forall|i: int| 0 <= i < s.len() ==> on_disk_path(#[trigger] s[i].0, experimental) != k
}

proof fn lemma_on_disk_first(p: Seq<char>, experimental: bool)
    requires
        p.len() > 0,
    ensures
        on_disk_path(p, experimental).len() > 0,
        on_disk_path(p, experimental)[0] == p[0],
{
    if experimental && extension(p) == Some(tpl::EXT_JS@) {
        let i = ext_dot(p)->0;
        assert(p.subrange(0, i + 1)[0] == p[0]);
    }
}

proof fn lemma_avoids_concat(
    a: Seq<(Seq<char>, Seq<char>)>,
    b: Seq<(Seq<char>, Seq<char>)>,
    k: Seq<char>,
    experimental: bool,
)
    requires
        avoids(a, k, experimental),
        avoids(b, k, experimental),
    ensures
        avoids(a + b, k, experimental),
{
    assert forall|i: int| 0 <= i < (a + b).len() implies on_disk_path(
        #[trigger] (a + b)[i].0,
        experimental,
    ) != k by {
        if i < a.len() {
            assert((a + b)[i] == a[i]);
        } else {
            assert((a + b)[i] == b[i - a.len()]);
        }
    }
}

proof fn lemma_avoids_push(
    a: Seq<(Seq<char>, Seq<char>)>,
    e: (Seq<char>, Seq<char>),
    k: Seq<char>,
    experimental: bool,
)
    requires
        avoids(a, k, experimental),
        on_disk_path(e.0, experimental) != k,
    ensures
        avoids(a.push(e), k, experimental),
{
    assert forall|i: int| 0 <= i < a.push(e).len() implies on_disk_path(
        #[trigger] a.push(e)[i].0,
        experimental,
    ) != k by {
        if i < a.len() {
            assert(a.push(e)[i] == a[i]);
        }
    }
}

/// A path that starts otherwise than `k` never lands at `k`.
proof fn lemma_first_differs(p: Seq<char>, k: Seq<char>, experimental: bool)
    requires
        p.len() > 0,
        k.len() > 0,
        p[0] != k[0],
    ensures
        on_disk_path(p, experimental) != k,
{
    lemma_on_disk_first(p, experimental);
}

proof fn lemma_disk_keys(plan: Seq<(Seq<char>, Seq<char>)>, k: Seq<char>)
    requires
        forall|i: int| 0 <= i < plan.len() ==> (#[trigger] plan[i]).0 != k,
    ensures
        !disk_of(plan).contains_key(k),
    decreases plan.len(),
{
    if plan.len() > 0 {
        let rest = plan.drop_last();
        assert forall|i: int| 0 <= i < rest.len() implies (#[trigger] rest[i]).0 != k by {
            assert(rest[i] == plan[i]);
        }
        lemma_disk_keys(rest, k);
        assert(plan.last() == plan[plan.len() - 1]);
    }
}

proof fn lemma_webpack_files_avoid(
    files: Seq<(Seq<char>, Seq<char>)>,
    headless: bool,
    k: Seq<char>,
    e: bool,
)
    requires
        k.len() > 0,
        k[0] == 'r',
    ensures
        avoids(webpack_files(files, headless), k, e),
{
    reveal_strlit("webpack.config.js");
    reveal_strlit("tsconfig.json");
    lemma_first_differs(tpl::WEBPACK_CONFIG_NAME@, k, e);
    lemma_first_differs(tpl::TS_CONFIG_NAME@, k, e);
}

proof fn lemma_headless_files_avoid(runner: Seq<char>, k: Seq<char>)
    requires
        k.len() > 0,
        k[0] == 'r',
        k.len() < 10,
    ensures
        avoids(headless_files(runner), k, false),
{
    reveal_strlit("index.html");
    reveal_strlit("run-headless.js");
    lemma_first_differs(tpl::INDEX_HTML_NAME@, k, false);
    assert(on_disk_path(tpl::RUN_HEADLESS_NAME@, false) == tpl::RUN_HEADLESS_NAME@);
}

proof fn lemma_own_and_synthesised_avoid(n: ProjectView, k: Seq<char>)
    requires
        k.len() > 0,
        k[0] == 'r',
        k.len() < 10,
        n.headless ==> !n.nodejs_experimental_modules,
        avoids(n.files, k, n.nodejs_experimental_modules),
    ensures
        avoids(files_before_descriptions(n), k, n.nodejs_experimental_modules),
{
    let e = n.nodejs_experimental_modules;
    let f0 = n.files;
    let f1 = if n.webpack {
        f0 + webpack_files(f0, n.headless)
    } else {
        f0
    };
    if n.webpack {
        lemma_webpack_files_avoid(f0, n.headless, k, e);
        lemma_avoids_concat(f0, webpack_files(f0, n.headless), k, e);
    }
    let f2 = with_test_entry(f1);
    if !has_test_entry(f1) {
        reveal_strlit("test.js");
        lemma_first_differs(tpl::TEST_JS_NAME@, k, e);
        lemma_avoids_push(f1, (tpl::TEST_JS_NAME@, tpl::TEST_ENTRY@), k, e);
    }
    if n.headless {
        lemma_headless_files_avoid(n.headless_runner, k);
        lemma_avoids_concat(f2, headless_files(n.headless_runner), k, e);
    }
}

proof fn lemma_description_files_avoid(srcs: Seq<Seq<char>>, k: Seq<char>, e: bool)
    requires
        k.len() > 0,
        k[0] == 'r',
    ensures
        avoids(description_files(srcs), k, e),
{
    if srcs.len() > 0 {
        reveal_strlit("src/");
        reveal_strlit("build.rs");
        let st = stub_entries(srcs);
        assert forall|i: int| 0 <= i < st.len() implies on_disk_path(#[trigger] st[i].0, e)
            != k by {
            let p = st[i].0;
            assert(p == tpl::SRC_DIR@ + generated_module(srcs[i]));
            assert(p[0] == 's');
            lemma_first_differs(p, k, e);
        }
        lemma_first_differs(tpl::BUILD_SCRIPT_NAME@, k, e);
        lemma_avoids_push(st, (tpl::BUILD_SCRIPT_NAME@, build_script(srcs)), k, e);
    }
}

/// Every configuration that `build` accepts, whose own files do not land
/// at the run script's other name, leaves exactly one run script on disk:
/// the directory holds no file at the name the run script does not get.
pub proof fn law_single_run_script(v: ProjectView)
    requires
        !classic_conflict(normalized(v)),
        !typescript_conflict(normalized(v)),
        avoids(
            v.files,
            other_run_script_path(normalized(v).nodejs_experimental_modules),
            normalized(v).nodejs_experimental_modules,
        ),
    ensures
        !disk_of(write_plan(normalized(v))).contains_key(
            other_run_script_path(normalized(v).nodejs_experimental_modules),
        ),
{
    let n = normalized(v);
    let e = n.nodejs_experimental_modules;
    let k = other_run_script_path(e);
    reveal_strlit("run.js");
    reveal_strlit("run.mjs");
    assert(k.len() > 0 && k[0] == 'r' && k.len() < 10);
    lemma_own_and_synthesised_avoid(n, k);
    let f3 = files_before_descriptions(n);
    let d = description_files(description_sources(f3));
    lemma_description_files_avoid(description_sources(f3), k, e);
    lemma_avoids_concat(f3, d, k, e);
    lemma_fixed_paths(e);
    assert(run_script_path(e).len() != k.len());
    lemma_avoids_push(f3 + d, (tpl::RUN_SCRIPT_NAME@, project_run_script(n)), k, e);
    reveal_strlit("Cargo.toml");
    lemma_first_differs(tpl::MANIFEST_NAME@, k, e);
    lemma_avoids_push(
        (f3 + d).push((tpl::RUN_SCRIPT_NAME@, project_run_script(n))),
        (tpl::MANIFEST_NAME@, project_manifest(n)),
        k,
        e,
    );
    let g = generated_files(n);
    let plan = write_plan(n);
    assert(avoids(g, k, e));
    assert forall|i: int| 0 <= i < plan.len() implies (#[trigger] plan[i]).0 != k by {
        assert(plan[i].0 == on_disk_path(g[i].0, e));
    }
    lemma_disk_keys(plan, k);
}

/// A project with exactly one interface-description file `src` gets exactly
/// two synthesised files for it: the source stub `src/<name>.rs`, which pulls
/// in the module compiled to the tool-managed output directory, and a build
/// script with exactly one compile step, for `src`.
pub proof fn law_single_description(files: Seq<(Seq<char>, Seq<char>)>, src: Seq<char>)
    requires
        description_sources(files) == seq![src],
    ensures
        description_files(description_sources(files)) == seq![
            stub_entry(src),
            (tpl::BUILD_SCRIPT_NAME@, build_script(seq![src])),
        ],
        build_script(seq![src]) == tpl::BUILD_SCRIPT_HEAD@ + compile_step(src)
            + tpl::BUILD_SCRIPT_CLOSE@,
        stub_entry(src) == (
            tpl::SRC_DIR@ + generated_module(src),
            tpl::STUB_HEAD@ + generated_module(src) + tpl::STUB_TAIL@,
        ),
{
    let s = seq![src];
    assert(s.drop_last() =~= Seq::<Seq<char>>::empty());
    assert(compile_steps(s.drop_last()) =~= Seq::<char>::empty());
    assert(compile_steps(s) =~= compile_step(src));
    assert(stub_entries(s) =~= seq![stub_entry(src)]);
    assert(description_files(s) =~= seq![
        stub_entry(src),
        (tpl::BUILD_SCRIPT_NAME@, build_script(s)),
    ]);
}

/// A headless run forces the bundler on and both runtime-facing flags off,
/// whatever they were set to.
pub proof fn law_headless_forces_bundler(v: ProjectView)
    requires
        v.headless,
    ensures
        normalized(v).webpack,
        !normalized(v).node,
        !normalized(v).nodejs_experimental_modules,
        normalized(v).headless,
{
}

/// `p` lies inside the directory `d`.
pub open spec fn is_inside(d: Seq<char>, p: Seq<char>) -> bool {
    p.len() > d.len() && p.subrange(0, d.len() as int) == d && p[d.len() as int] == '/'
}

/// Runs with different identities get different crate names and different
/// project directories, neither of which lies inside the other, so two runs
/// never write to the same place.
pub proof fn law_distinct_identities(a: nat, b: nat)
    requires
        a != b,
    ensures
        crate_name_of(a) != crate_name_of(b),
        project_dir_of(a) != project_dir_of(b),
        !is_inside(project_dir_of(a), project_dir_of(b)),
        !is_inside(project_dir_of(b), project_dir_of(a)),
{
    lemma_names_differ(a, b);
    lemma_not_inside(a, b);
    lemma_not_inside(b, a);
    let p = crate::project::GENERATED_DIR@;
    if project_dir_of(a) == project_dir_of(b) {
        assert(project_dir_of(a).subrange(p.len() as int, project_dir_of(a).len() as int)
            =~= crate_name_of(a));
        assert(project_dir_of(b).subrange(p.len() as int, project_dir_of(b).len() as int)
            =~= crate_name_of(b));
    }
}

proof fn lemma_names_differ(a: nat, b: nat)
    requires
        a != b,
    ensures
        crate_name_of(a) != crate_name_of(b),
{
    if crate_name_of(a) == crate_name_of(b) {
        let p = crate::project::CRATE_PREFIX@;
        assert(crate_name_of(a).subrange(p.len() as int, crate_name_of(a).len() as int)
            =~= decimal(a));
        assert(crate_name_of(b).subrange(p.len() as int, crate_name_of(b).len() as int)
            =~= decimal(b));
        lemma_decimal_injective(a, b);
    }
}

proof fn lemma_not_inside(a: nat, b: nat)
    ensures
        !is_inside(project_dir_of(a), project_dir_of(b)),
{
    let da = project_dir_of(a);
    let db = project_dir_of(b);
    let head = crate::project::GENERATED_DIR@ + crate::project::CRATE_PREFIX@;
    if is_inside(da, db) {
        reveal_strlit("generated-tests/");
        reveal_strlit("test");
        assert(db =~= head + decimal(b));
        assert(da =~= head + decimal(a));
        let k = da.len() as int - head.len();
        assert(db[da.len() as int] == decimal(b)[k]);
        lemma_decimal_no_slash(b, k);
    }
}

/// A failed native build ends the run at once: the binding generator never
/// runs, and a failed run stays failed.
pub proof fn law_failed_build_stops(webpack: bool, headless: bool, ok: bool)
    ensures
        next_stage_of(webpack, headless, Stage::CargoBuild, false) == Stage::Failed,
        next_stage_of(webpack, headless, Stage::Failed, ok) == Stage::Failed,
{
}

/// A headless run takes the lock before it starts the dev-server, waits for
/// the server's port before it runs the browser driver, and releases the lock
/// only after the server has been stopped, on every outcome once the server
/// has started. When every stage succeeds the run goes through exactly these
/// stages.
pub proof fn law_headless_sequence(v: ProjectView, ok: bool, failed: bool)
    requires
        v.headless,
    ensures
        ({
            let n = normalized(v);
            &&& trace_ok(n.webpack, n.headless, Stage::Start, 11) == seq![
                Stage::CargoBuild,
                Stage::GenerateBindings,
                Stage::WriteDeclarations,
                Stage::LinkNodeModules,
                Stage::AcquireLock,
                Stage::StartDevServer,
                Stage::WaitForServer,
                Stage::RunHeadless,
                Stage::StopDevServer { failed: false },
                Stage::ReleaseLock { failed: false },
                Stage::Done,
            ]
            &&& next_stage_of(n.webpack, n.headless, Stage::LinkNodeModules, true)
                == Stage::AcquireLock
            &&& next_stage_of(n.webpack, n.headless, Stage::AcquireLock, true)
                == Stage::StartDevServer
            &&& next_stage_of(n.webpack, n.headless, Stage::StartDevServer, true)
                == Stage::WaitForServer
            &&& next_stage_of(n.webpack, n.headless, Stage::WaitForServer, true)
                == Stage::RunHeadless
            &&& next_stage_of(n.webpack, n.headless, Stage::WaitForServer, false)
                == Stage::StopDevServer { failed: true }
            &&& next_stage_of(n.webpack, n.headless, Stage::RunHeadless, ok)
                == Stage::StopDevServer { failed: !ok }
            &&& next_stage_of(n.webpack, n.headless, Stage::StopDevServer { failed }, ok)
                == Stage::ReleaseLock { failed: failed || !ok }
        }),
{
    let n = normalized(v);
    reveal_with_fuel(trace_ok, 12);
    assert(trace_ok(n.webpack, n.headless, Stage::Start, 11) =~= seq![
        Stage::CargoBuild,
        Stage::GenerateBindings,
        Stage::WriteDeclarations,
        Stage::LinkNodeModules,
        Stage::AcquireLock,
        Stage::StartDevServer,
        Stage::WaitForServer,
        Stage::RunHeadless,
        Stage::StopDevServer { failed: false },
        Stage::ReleaseLock { failed: false },
        Stage::Done,
    ]);
}

} // verus!
