//! A project's configuration and the setters that build it up.
use vstd::prelude::*;
use crate::bigint::{BigintSupport, BIGINT_FLAG};
use crate::text::{decimal, push_decimal};

verus! {

/// The abstract state of a [`Project`]: every field as a mathematical value.
pub struct ProjectView {
    /// The project's own files, (path, contents), in the order they were added.
    pub files: Seq<(Seq<char>, Seq<char>)>,
    /// The binding generator runs in debug mode.
    pub debug: bool,
    /// The bindings target the runtime directly.
    pub node: bool,
    /// Scripts use the runtime's experimental module format.
    pub nodejs_experimental_modules: bool,
    /// The core tool is used without its standard library feature.
    pub no_std: bool,
    /// The core tool's serialisation feature is on.
    pub serde: bool,
    /// The crate is a plain library rather than a dynamic one.
    pub rlib: bool,
    /// The run goes through the bundler.
    pub webpack: bool,
    /// Extra runtime arguments.
    pub node_args: Seq<Seq<char>>,
    /// Extra dependency lines of the manifest, verbatim.
    pub deps: Seq<Seq<char>>,
    /// The run happens in a headless browser.
    pub headless: bool,
    /// The identity of the test run.
    pub identity: nat,
    /// This builder's directory inside the binding generator's source tree.
    pub builder_dir: Seq<char>,
    /// The script that drives the headless browser.
    pub headless_runner: Seq<char>,
}

/// The views of a list of (path, contents) pairs.
pub open spec fn entries_view(v: Seq<(String, String)>) -> Seq<(Seq<char>, Seq<char>)> {
    v.map_values(|e: (String, String)| (e.0@, e.1@))
}

/// The views of a list of strings.
pub open spec fn strings_view(v: Seq<String>) -> Seq<Seq<char>> {
    v.map_values(|s: String| s@)
}

/// One throwaway example project: its files, its flags and the identity of the
/// test run it belongs to.
pub struct Project {
    pub(crate) files: Vec<(String, String)>,
    pub(crate) debug: bool,
    pub(crate) node: bool,
    pub(crate) nodejs_experimental_modules: bool,
    pub(crate) no_std: bool,
    pub(crate) serde: bool,
    pub(crate) rlib: bool,
    pub(crate) webpack: bool,
    pub(crate) node_args: Vec<String>,
    pub(crate) deps: Vec<String>,
    pub(crate) headless: bool,
    pub(crate) identity: usize,
    pub(crate) builder_dir: String,
    pub(crate) headless_runner: String,
}

impl View for Project {
    type V = ProjectView;

    open(crate) spec fn view(&self) -> ProjectView {
        ProjectView {
            files: entries_view(self.files@),
            debug: self.debug,
            node: self.node,
            nodejs_experimental_modules: self.nodejs_experimental_modules,
            no_std: self.no_std,
            serde: self.serde,
            rlib: self.rlib,
            webpack: self.webpack,
            node_args: strings_view(self.node_args@),
            deps: strings_view(self.deps@),
            headless: self.headless,
            identity: self.identity as nat,
            builder_dir: self.builder_dir@,
            headless_runner: self.headless_runner@,
        }
    }
}

/// A fresh project for the test run `identity`. It starts with one file, the
/// workspace's lock file, so that every generated project resolves the same
/// dependency versions. `builder_dir` is the directory of this builder inside
/// the binding generator's source tree; `headless_runner` is the script that
/// drives a headless browser.
pub fn project(identity: usize, builder_dir: &str, lockfile: &str, headless_runner: &str) -> (r: Project)
    ensures
        r@ == (ProjectView {
            files: seq![(LOCKFILE_NAME@, lockfile@)],
            debug: true,
            node: true,
            nodejs_experimental_modules: true,
            no_std: false,
            serde: false,
            rlib: false,
            webpack: false,
            node_args: Seq::empty(),
            deps: Seq::empty(),
            headless: false,
            identity: identity as nat,
            builder_dir: builder_dir@,
            headless_runner: headless_runner@,
        }),
{
    let mut files: Vec<(String, String)> = Vec::new();
    files.push((String::from_str(LOCKFILE_NAME), String::from_str(lockfile)));
    let r = Project {
        files,
        debug: true,
        node: true,
        nodejs_experimental_modules: true,
        no_std: false,
        serde: false,
        rlib: false,
        webpack: false,
        node_args: Vec::new(),
        deps: Vec::new(),
        headless: false,
        identity,
        builder_dir: String::from_str(builder_dir),
        headless_runner: String::from_str(headless_runner),
    };
    proof {
        assert(entries_view(r.files@) =~= seq![(LOCKFILE_NAME@, lockfile@)]);
        assert(strings_view(r.node_args@) =~= Seq::<Seq<char>>::empty());
        assert(strings_view(r.deps@) =~= Seq::<Seq<char>>::empty());
    }
    r
}

/// Prefix of every generated crate's name.
pub const CRATE_PREFIX: &'static str = "test";

/// Local dependency line, between the crate's name and its path.
pub const LOCAL_DEP_OPEN: &'static str = " = { path = '";

/// Local dependency line, after the path.
pub const LOCAL_DEP_CLOSE: &'static str = "' }";

/// The name of the crate generated for the run `identity`.
pub open spec fn crate_name_of(identity: nat) -> Seq<char> {
    CRATE_PREFIX@ + decimal(identity)
}

/// Directory under the build output root that holds every generated project,
/// with its separator.
pub const GENERATED_DIR: &'static str = "generated-tests/";

/// The directory of the project of the run `identity`, relative to the build
/// output root.
pub open spec fn project_dir_of(identity: nat) -> Seq<char> {
    GENERATED_DIR@ + crate_name_of(identity)
}

/// The manifest line of a dependency on the local crate `name` at `path`.
pub open spec fn local_dependency(name: Seq<char>, path: Seq<char>) -> Seq<char> {
    name + LOCAL_DEP_OPEN@ + path + LOCAL_DEP_CLOSE@
}

/// Name of the lock file every project starts with.
pub const LOCKFILE_NAME: &'static str = "Cargo.lock";

impl Project {
    /// Adds a file with the given contents; `name` may hold slashes for files
    /// in subdirectories. A later file with the same name wins on disk.
    pub fn file(&mut self, name: &str, contents: &str) -> (r: &mut Project)
        ensures
            (*r)@ == (ProjectView { files: old(self)@.files.push((name@, contents@)), ..old(self)@ }),
            *final(self) == *final(r),
    {
        self.files.push((String::from_str(name), String::from_str(contents)));
        proof {
            assert(entries_view(self.files@) =~= old(self)@.files.push((name@, contents@)));
        }
        self
    }

    /// Turns the binding generator's debug mode on or off.
    pub fn debug(&mut self, debug: bool) -> (r: &mut Project)
        ensures
            (*r)@ == (ProjectView { debug, ..old(self)@ }),
            *final(self) == *final(r),
    {
        self.debug = debug;
        self
    }

    /// Depends on the core tool without its standard library feature.
    pub fn no_std(&mut self, no_std: bool) -> (r: &mut Project)
        ensures
            (*r)@ == (ProjectView { no_std, ..old(self)@ }),
            *final(self) == *final(r),
    {
        self.no_std = no_std;
        self
    }

    /// Depends on the core tool's serialisation feature.
    pub fn serde(&mut self, serde: bool) -> (r: &mut Project)
        ensures
            (*r)@ == (ProjectView { serde, ..old(self)@ }),
            *final(self) == *final(r),
    {
        self.serde = serde;
        self
    }

    /// Builds a plain library instead of a dynamic library.
    pub fn rlib(&mut self, rlib: bool) -> (r: &mut Project)
        ensures
            (*r)@ == (ProjectView { rlib, ..old(self)@ }),
            *final(self) == *final(r),
    {
        self.rlib = rlib;
        self
    }

    /// Adds a dependency line to the manifest, verbatim.
    pub fn depend(&mut self, dep: &str) -> (r: &mut Project)
        ensures
            (*r)@ == (ProjectView { deps: old(self)@.deps.push(dep@), ..old(self)@ }),
            *final(self) == *final(r),
    {
        self.deps.push(String::from_str(dep));
        proof {
            assert(strings_view(self.deps@) =~= old(self)@.deps.push(dep@));
        }
        self
    }

    /// Turns the runtime's experimental module format on or off.
    pub fn nodejs_experimental_modules(&mut self, node: bool) -> (r: &mut Project)
        ensures
            (*r)@ == (ProjectView { nodejs_experimental_modules: node, ..old(self)@ }),
            *final(self) == *final(r),
    {
        self.nodejs_experimental_modules = node;
        self
    }

    /// Turns the bundler on or off.
    pub fn webpack(&mut self, webpack: bool) -> (r: &mut Project)
        ensures
            (*r)@ == (ProjectView { webpack, ..old(self)@ }),
            *final(self) == *final(r),
    {
        self.webpack = webpack;
        self
    }

    /// Adds a dependency on the crate `name` at the local directory `path`.
    pub fn add_local_dependency(&mut self, name: &str, path: &str) -> (r: &mut Project)
        ensures
            (*r)@ == (ProjectView {
                deps: old(self)@.deps.push(local_dependency(name@, path@)),
                ..old(self)@
            }),
            *final(self) == *final(r),
    {
        let mut line = String::from_str(name);
        line.append(LOCAL_DEP_OPEN);
        line.append(path);
        line.append(LOCAL_DEP_CLOSE);
        self.deps.push(line);
        proof {
            assert(strings_view(self.deps@) =~= old(self)@.deps.push(local_dependency(name@, path@)));
        }
        self
    }

    /// The name of the generated crate: `test` and the run's identity.
    pub fn crate_name(&self) -> (r: String)
        ensures
            r@ == crate_name_of(self@.identity),
    {
        let mut r = String::from_str(CRATE_PREFIX);
        push_decimal(&mut r, self.identity);
        r
    }

    /// The project's directory, relative to the build output root.
    pub fn project_dir(&self) -> (r: String)
        ensures
            r@ == project_dir_of(self@.identity),
    {
        let mut r = String::from_str(GENERATED_DIR);
        r.append(CRATE_PREFIX);
        push_decimal(&mut r, self.identity);
        r
    }

    /// Marks the project as needing the runtime's numeric bigint support,
    /// adding the runtime flag that `support` calls for.
    pub fn requires_bigint(&mut self, support: BigintSupport) -> (r: &mut Project)
        requires
            !(support is Unsupported),
        ensures
            (*r)@ == (ProjectView {
                node_args: match support {
                    BigintSupport::Flagged => old(self)@.node_args.push(BIGINT_FLAG@),
                    _ => old(self)@.node_args,
                },
                ..old(self)@
            }),
            *final(self) == *final(r),
    {
        if let BigintSupport::Flagged = support {
            self.node_args.push(String::from_str(BIGINT_FLAG));
            proof {
                assert(strings_view(self.node_args@) =~= old(self)@.node_args.push(BIGINT_FLAG@));
            }
        }
        self
    }

    /// Marks the project as a headless browser run.
    pub fn headless(&mut self, headless: bool) -> (r: &mut Project)
        ensures
            (*r)@ == (ProjectView { headless, ..old(self)@ }),
            *final(self) == *final(r),
    {
        self.headless = headless;
        self
    }
}

} // verus!
