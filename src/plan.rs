//! What `build` writes: the flags it settles, the full file list, the paths
//! the files get on disk, and the configurations it refuses.
use vstd::prelude::*;
use crate::project::{Project, ProjectView, entries_view};
use crate::synth::{
    description_files, description_sources, generated_module, headless_files, manifest_text,
    run_script, uses_esm, webpack_files, with_test_entry,
};
use crate::templates as tpl;
use crate::text::{extension, has_extension, replace_extension, with_extension};

verus! {

/// A configuration that `build` refuses before anything is written.
#[derive(Debug, Clone, Copy, PartialEq, Eq, Structural)]
pub enum BuildError {
    /// A strongly-typed source is present but the bundler is not enabled.
    TypescriptWithoutBundler,
    /// The classic, synchronous run script was asked to load the main binding
    /// module in debug mode, or description-derived modules: it loads neither.
    ClassicLoaderUnsupported,
    /// The compiled module could not be read for its type declarations.
    UnreadableModule,
}

/// The flags as `build` settles them: a headless run needs the bundler, and a
/// bundled run targets neither the runtime directly nor its module format.
pub open spec fn normalized(v: ProjectView) -> ProjectView {
    let webpack = v.webpack || v.headless;
    ProjectView {
        webpack,
        node: v.node && !webpack,
        nodejs_experimental_modules: v.nodejs_experimental_modules && !webpack,
        ..v
    }
}

/// The project's own files followed by the bundler, test entry and headless
/// files that its flags call for.
pub open spec fn files_before_descriptions(v: ProjectView) -> Seq<(Seq<char>, Seq<char>)> {
    let f1 = if v.webpack {
        v.files + webpack_files(v.files, v.headless)
    } else {
        v.files
    };
    let f2 = with_test_entry(f1);
    if v.headless {
        f2 + headless_files(v.headless_runner)
    } else {
        f2
    }
}

/// The description files among the files of `v`.
pub open spec fn project_descriptions(v: ProjectView) -> Seq<Seq<char>> {
    description_sources(files_before_descriptions(v))
}

/// The run script of `v`.
pub open spec fn project_run_script(v: ProjectView) -> Seq<char> {
    run_script(
        v.headless,
        uses_esm(v.webpack, v.node, v.nodejs_experimental_modules),
        v.debug,
        project_descriptions(v).map_values(|s: Seq<char>| generated_module(s)),
    )
}

/// The manifest of `v`.
pub open spec fn project_manifest(v: ProjectView) -> Seq<char> {
    manifest_text(v.identity, v.builder_dir, v.rlib, v.deps, v.no_std, v.serde)
}

/// Every file of the project, synthesised ones included, in write order: the
/// run script and then the manifest come last.
pub open spec fn generated_files(v: ProjectView) -> Seq<(Seq<char>, Seq<char>)> {
    let f3 = files_before_descriptions(v);
    (f3 + description_files(description_sources(f3))).push(
        (tpl::RUN_SCRIPT_NAME@, project_run_script(v)),
    ).push((tpl::MANIFEST_NAME@, project_manifest(v)))
}

/// Where a file goes on disk: under the experimental module format a plain
/// script takes the module extension.
pub open spec fn on_disk_path(p: Seq<char>, experimental: bool) -> Seq<char> {
    if experimental && extension(p) == Some(tpl::EXT_JS@) {
        replace_extension(p, tpl::EXT_MJS@)
    } else {
        p
    }
}

/// The (path, contents) pairs written, in order.
pub open spec fn write_plan(v: ProjectView) -> Seq<(Seq<char>, Seq<char>)> {
    generated_files(v).map_values(
        |e: (Seq<char>, Seq<char>)| (on_disk_path(e.0, v.nodejs_experimental_modules), e.1),
    )
}

/// The classic run script cannot serve these flags.
pub open spec fn classic_conflict(v: ProjectView) -> bool {
    !uses_esm(v.webpack, v.node, v.nodejs_experimental_modules) && (v.debug
        || project_descriptions(v).len() > 0)
}

/// A strongly-typed source would be written without the bundler.
pub open spec fn typescript_conflict(v: ProjectView) -> bool {
    !v.webpack && exists|i: int|
        0 <= i < write_plan(v).len() && extension(#[trigger] write_plan(v)[i].0) == Some(
            tpl::EXT_TS@,
        )
}

/// What a directory holds after the pairs of `plan` are written in order: a
/// later pair with the same path overwrites an earlier one.
pub open spec fn disk_of(plan: Seq<(Seq<char>, Seq<char>)>) -> Map<Seq<char>, Seq<char>>
    decreases plan.len(),
{
    if plan.len() == 0 {
        Map::empty()
    } else {
        disk_of(plan.drop_last()).insert(plan.last().0, plan.last().1)
    }
}

/// Copies of the pairs of `files`.
fn copy_entries(files: &Vec<(String, String)>) -> (r: Vec<(String, String)>)
    ensures
        entries_view(r@) == entries_view(files@),
{
    let mut r: Vec<(String, String)> = Vec::new();
    let mut i: usize = 0;
    while i < files.len()
        invariant
            i <= files.len(),
            entries_view(r@) == entries_view(files@).subrange(0, i as int),
        decreases files.len() - i,
    {
        let ghost before = entries_view(r@);
        r.push((files[i].0.clone(), files[i].1.clone()));
        assert(entries_view(r@) =~= before.push(entries_view(files@)[i as int]));
        assert(entries_view(files@).subrange(0, i + 1) =~= entries_view(files@).subrange(
            0,
            i as int,
        ).push(entries_view(files@)[i as int]));
        i = i + 1;
    }
    assert(entries_view(files@).subrange(0, files.len() as int) =~= entries_view(files@));
    r
}

/// The pairs of `files` with their on-disk paths.
fn rewrite_paths(files: &Vec<(String, String)>, experimental: bool) -> (r: Vec<(String, String)>)
    ensures
        entries_view(r@) == entries_view(files@).map_values(
            |e: (Seq<char>, Seq<char>)| (on_disk_path(e.0, experimental), e.1),
        ),
{
    let ghost target = entries_view(files@).map_values(
        |e: (Seq<char>, Seq<char>)| (on_disk_path(e.0, experimental), e.1),
    );
    let mut r: Vec<(String, String)> = Vec::new();
    let mut i: usize = 0;
    while i < files.len()
        invariant
            i <= files.len(),
            target.len() == files.len(),
            target == entries_view(files@).map_values(
                |e: (Seq<char>, Seq<char>)| (on_disk_path(e.0, experimental), e.1),
            ),
            entries_view(r@) == target.subrange(0, i as int),
        decreases files.len() - i,
    {
        let p = files[i].0.as_str();
        let dst = if experimental && has_extension(p, tpl::EXT_JS) {
            with_extension(p, tpl::EXT_MJS)
        } else {
            String::from_str(p)
        };
        let ghost before = entries_view(r@);
        r.push((dst, files[i].1.clone()));
        assert(entries_view(r@) =~= before.push(target[i as int]));
        assert(target.subrange(0, i + 1) =~= target.subrange(0, i as int).push(target[i as int]));
        i = i + 1;
    }
    assert(target.subrange(0, files.len() as int) =~= target);
    r
}

/// Whether some path of `plan` is a strongly-typed source.
fn any_typescript_path(plan: &Vec<(String, String)>) -> (r: bool)
    ensures
        r == exists|i: int|
            0 <= i < entries_view(plan@).len() && extension(#[trigger] entries_view(plan@)[i].0)
                == Some(tpl::EXT_TS@),
{
    let ghost v = entries_view(plan@);
    let mut i: usize = 0;
    while i < plan.len()
        invariant
            v == entries_view(plan@),
            i <= plan.len(),
            forall|j: int| 0 <= j < i ==> extension(#[trigger] v[j].0) != Some(tpl::EXT_TS@),
        decreases plan.len() - i,
    {
        if has_extension(plan[i].0.as_str(), tpl::EXT_TS) {
            assert(extension(v[i as int].0) == Some(tpl::EXT_TS@));
            return true;
        }
        i = i + 1;
    }
    false
}

impl Project {
    /// Settles the flags and returns every file of the project, synthesised
    /// ones included, with the path each gets on disk, in write order. A
    /// configuration that cannot be built is refused before anything is
    /// written; the flags are settled either way.
    pub fn build(&mut self) -> (r: Result<Vec<(String, String)>, BuildError>)
        ensures
            final(self)@ == normalized(old(self)@),
            classic_conflict(normalized(old(self)@)) ==> r == Err::<Vec<(String, String)>, BuildError>(
                BuildError::ClassicLoaderUnsupported,
            ),
            !classic_conflict(normalized(old(self)@)) && typescript_conflict(normalized(old(self)@))
                ==> r == Err::<Vec<(String, String)>, BuildError>(
                BuildError::TypescriptWithoutBundler,
            ),
            !classic_conflict(normalized(old(self)@)) && !typescript_conflict(
                normalized(old(self)@),
            ) ==> r is Ok && entries_view(r->Ok_0@) == write_plan(normalized(old(self)@)),
    {
        if self.headless {
            self.webpack = true;
        }
        if self.webpack {
            self.node = false;
            self.nodejs_experimental_modules = false;
        }
        let ghost v = self@;
        assert(v == normalized(old(self)@));
        let mut files = copy_entries(&self.files);
        self.ensure_webpack_config(&mut files);
        self.ensure_test_entry(&mut files);
        if self.headless {
            self.ensure_index_html(&mut files);
            self.ensure_run_headless_js(&mut files);
        }
        assert(entries_view(files@) =~= files_before_descriptions(v));
        let modules = self.generate_webidl_bindings(&mut files);
        let esm = self.webpack || !self.node || self.nodejs_experimental_modules;
        if !esm && (self.debug || modules.len() > 0) {
            return Err(BuildError::ClassicLoaderUnsupported);
        }
        self.generate_js_entry(&mut files, &modules);
        let manifest = self.manifest();
        let ghost before = entries_view(files@);
        files.push((String::from_str(tpl::MANIFEST_NAME), manifest));
        assert(entries_view(files@) =~= before.push((tpl::MANIFEST_NAME@, project_manifest(v))));
        assert(entries_view(files@) =~= generated_files(v));
        let plan = rewrite_paths(&files, self.nodejs_experimental_modules);
        if !self.webpack && any_typescript_path(&plan) {
            return Err(BuildError::TypescriptWithoutBundler);
        }
        Ok(plan)
    }
}

} // verus!
