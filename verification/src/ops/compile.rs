//! Compiling a module's native code in place: which directories are built,
//! into which `.lib/` directory, under which artifact name, and which
//! `.lib/` directories are cleared first. The compiler runs outside the
//! library.

use vstd::prelude::*;

use crate::baler_toml::BalerToml;
use crate::paths::{join_path, path_file_name, path_parent, spec_join, std_file_name, std_parent};
use crate::text::{concat3, owned, str_eq};

verus! {

/// How `run` treats a module's cache and `.lib/` before compiling.
#[derive(Debug, Clone, Copy, PartialEq, Eq, Structural)]
pub enum CompileMode {
    /// Compile normally, a cache hit may skip the compiler.
    Normal,
    /// Remove cached and compiled artifacts and stop. Never compiles.
    Clean,
    /// Evict the cache first, then compile, so the build cannot be a cache hit.
    Rebuild,
}

/// What compiling one native directory produced.
pub struct CompiledArtifact {
    pub native_dir: String,
    pub artifact_path: String,
    pub target_triple: String,
    pub r_version: String,
    pub source_hash: String,
    pub from_cache: bool,
}

/// The name of a native directory's compiled artifact: the directory's own
/// name (`cpp`, `c`), so several native directories under one parent do not
/// collide, except that a generic `src` (or a path with no final name) falls
/// back to the module's name.
pub open spec fn spec_binary_name(native_dir: Seq<char>, module_name: Seq<char>) -> Seq<char> {
    match std_file_name(native_dir) {
        Some(f) => if f == "src"@ {
            module_name
        } else {
            f
        },
        None => module_name,
    }
}

/// Names the compiled artifact of `native_dir`.
pub fn binary_name<'a>(native_dir: &'a str, module_name: &'a str) -> (res: &'a str)
    ensures
        res@ == spec_binary_name(native_dir@, module_name@),
{
    match path_file_name(native_dir) {
        Some(f) => if str_eq(f, "src") {
            module_name
        } else {
            f
        },
        None => module_name,
    }
}

/// The directory a native directory's artifact is built into: its parent,
/// or the module's own directory when it has none.
pub open spec fn spec_target_dir(native_dir: Seq<char>, module_root: Seq<char>) -> Seq<char> {
    match std_parent(native_dir) {
        Some(p) => p,
        None => module_root,
    }
}

/// The work for one native directory.
pub struct NativeStep {
    pub native_dir: String,
    /// Where the artifact is built: the native directory's parent.
    pub target_dir: String,
    /// `{target_dir}/.lib`, where compiled artifacts live.
    pub lib_dir: String,
    /// Whether `lib_dir` is cleared before this step: only the first step
    /// that builds into a given `.lib/` clears it.
    pub clear_lib_dir: bool,
    pub binary_name: String,
    /// Whether the native directory is removed once it is built (an
    /// installed module keeps no native source; compiling in place does).
    pub remove_native_dir: bool,
}

/// `s` is the step for `native_dir` in a module at `module_root` named
/// `module_name`.
pub open spec fn step_for(
    s: NativeStep,
    native_dir: Seq<char>,
    module_root: Seq<char>,
    module_name: Seq<char>,
    remove: bool,
) -> bool {
    &&& s.remove_native_dir == remove
    &&& s.native_dir@ == native_dir
    &&& s.target_dir@ == spec_target_dir(native_dir, module_root)
    &&& s.lib_dir@ == spec_join(spec_target_dir(native_dir, module_root), ".lib"@)
    &&& s.binary_name@ == spec_binary_name(native_dir, module_name)
}

/// Whether one of the first `upto` steps builds into `lib_dir`.
pub open spec fn lib_dir_seen(steps: Seq<NativeStep>, lib_dir: Seq<char>, upto: int) -> bool {
    exists|j: int| 0 <= j < upto && (#[trigger] steps[j]).lib_dir@ == lib_dir
}

/// The steps for `native_dirs`, in order, with each `.lib/` cleared by the
/// first step that builds into it and by no other, and each native
/// directory removed after its build when `remove`.
pub open spec fn native_steps_ok(
    steps: Seq<NativeStep>,
    native_dirs: Seq<Seq<char>>,
    module_root: Seq<char>,
    module_name: Seq<char>,
    remove: bool,
) -> bool {
    &&& steps.len() == native_dirs.len()
    &&& forall|i: int|
        0 <= i < steps.len() ==> step_for(#[trigger] steps[i], native_dirs[i], module_root, module_name, remove)
    &&& forall|i: int|
        0 <= i < steps.len() ==> ((#[trigger] steps[i]).clear_lib_dir <==> !lib_dir_seen(
            steps,
            steps[i].lib_dir@,
            i,
        ))
}

/// Whether one of `steps` builds into `lib_dir`.
fn seen_lib_dir(steps: &Vec<NativeStep>, lib_dir: &str) -> (res: bool)
    ensures
        res == lib_dir_seen(steps@, lib_dir@, steps@.len() as int),
{
    let mut i: usize = 0;
    while i < steps.len()
        invariant
            i <= steps@.len(),
            forall|j: int| 0 <= j < i ==> steps@[j].lib_dir@ != lib_dir@,
        decreases steps@.len() - i,
    {
        if str_eq(steps[i].lib_dir.as_str(), lib_dir) {
            return true;
        }
        i = i + 1;
    }
    false
}

/// Plans the work for each native directory of a module at `module_root`
/// named `module_name`: where it is built, into which `.lib/`, under which
/// artifact name, and whether that `.lib/` is cleared first (only by the
/// first step that builds into it), and whether the native directory is
/// removed once built.
pub fn native_steps(module_root: &str, module_name: &str, native_dirs: &Vec<String>, remove: bool) -> (res:
    Vec<NativeStep>)
    ensures
        native_steps_ok(
            res@,
            native_dirs@.map_values(|s: String| s@),
            module_root@,
            module_name@,
            remove,
        ),
{
    let ghost dirs = native_dirs@.map_values(|s: String| s@);
    let mut steps: Vec<NativeStep> = Vec::new();
    let mut i: usize = 0;
    while i < native_dirs.len()
        invariant
            i <= native_dirs@.len(),
            dirs == native_dirs@.map_values(|s: String| s@),
            steps@.len() == i,
            forall|k: int|
                0 <= k < i ==> step_for(#[trigger] steps@[k], dirs[k], module_root@, module_name@, remove),
            forall|k: int|
                0 <= k < i ==> ((#[trigger] steps@[k]).clear_lib_dir <==> !lib_dir_seen(
                    steps@,
                    steps@[k].lib_dir@,
                    k,
                )),
        decreases native_dirs@.len() - i,
    {
        let dir = native_dirs[i].as_str();
        let target_dir = match path_parent(dir) {
            Some(p) => p,
            None => owned(module_root),
        };
        let lib_dir = join_path(target_dir.as_str(), ".lib");
        let first = !seen_lib_dir(&steps, lib_dir.as_str());
        let name = owned(binary_name(dir, module_name));
        let ghost prev = steps@;
        steps.push(
            NativeStep {
                native_dir: owned(dir),
                target_dir,
                lib_dir,
                clear_lib_dir: first,
                binary_name: name,
                remove_native_dir: remove,
            },
        );
        proof {
            assert forall|k: int| 0 <= k <= i implies ((#[trigger] steps@[k]).clear_lib_dir
                <==> !lib_dir_seen(steps@, steps@[k].lib_dir@, k)) by {
                assert(steps@[k] == if k < i {
                    prev[k]
                } else {
                    steps@[k]
                });
                if lib_dir_seen(steps@, steps@[k].lib_dir@, k) {
                    let j = choose|j: int| 0 <= j < k && (#[trigger] steps@[j]).lib_dir@ == steps@[k].lib_dir@;
                    assert(steps@[j] == prev[j]);
                }
                if lib_dir_seen(prev, steps@[k].lib_dir@, if k < i { k } else { i as int }) {
                    let j = choose|j: int| 0 <= j < (if k < i { k } else { i as int }) && (#[trigger] prev[j]).lib_dir@ == steps@[k].lib_dir@;
                    assert(steps@[j] == prev[j]);
                }
            }
        }
        i = i + 1;
    }
    steps
}

/// What `run` does before and instead of compiling.
pub struct CompilePlan {
    /// Evict the module's native build cache first.
    pub clear_cache: bool,
    /// Compile the steps (otherwise only clear the `.lib/` they name).
    pub build: bool,
    /// Before building, install those of `[compiled-code].build_deps` that
    /// are not already installed in a matching version.
    pub install_build_deps: bool,
    pub steps: Vec<NativeStep>,
}

/// `[compiled-code].build_deps` is given and not empty.
pub open spec fn has_build_deps(toml: BalerToml) -> bool {
    toml.compiled_code matches Some(c) && c.build_deps matches Some(d) && d@.len() > 0
}

/// Whether `[compiled-code].build_deps` is given and not empty.
pub fn declares_build_deps(toml: &BalerToml) -> (res: bool)
    ensures
        res == has_build_deps(*toml),
{
    match &toml.compiled_code {
        Some(c) => match &c.build_deps {
            Some(d) => d.len() > 0,
            None => false,
        },
        None => false,
    }
}

/// Plans compiling in place, in `mode`, the native directories of the
/// module at `project_root` whose manifest is `toml`. With no native
/// directories there is nothing to do at all; `Clean` and `Rebuild` evict
/// the cache; `Clean` only clears each `.lib/` and never compiles; a build
/// first sees to the declared build dependencies. Native source is kept.
pub fn compile_plan(mode: CompileMode, project_root: &str, toml: &BalerToml, native_dirs: &Vec<String>) -> (res:
    CompilePlan)
    ensures
        native_dirs@.len() == 0 ==> !res.clear_cache && !res.build && !res.install_build_deps
            && res.steps@.len() == 0,
        native_dirs@.len() > 0 ==> {
            &&& res.clear_cache == (mode == CompileMode::Clean || mode == CompileMode::Rebuild)
            &&& res.build == (mode != CompileMode::Clean)
            &&& res.install_build_deps == (mode != CompileMode::Clean && has_build_deps(*toml))
            &&& native_steps_ok(
                res.steps@,
                native_dirs@.map_values(|s: String| s@),
                project_root@,
                toml.project.name@,
                false,
            )
        },
{
    if native_dirs.len() == 0 {
        return CompilePlan { clear_cache: false, build: false, install_build_deps: false, steps: Vec::new() };
    }
    let clear_cache = match mode {
        CompileMode::Normal => false,
        _ => true,
    };
    let build = match mode {
        CompileMode::Clean => false,
        _ => true,
    };
    let install_build_deps = build && declares_build_deps(toml);
    CompilePlan {
        clear_cache,
        build,
        install_build_deps,
        steps: native_steps(project_root, toml.project.name.as_str(), native_dirs, false),
    }
}

/// Why native code cannot be compiled.
pub enum CompileError {
    /// A configured native directory is not a directory.
    NativeDirMissing(String),
}

impl CompileError {
    pub open spec fn spec_message(self) -> Seq<char> {
        match self {
            CompileError::NativeDirMissing(d) => "Configured native dir '"@ + d@ + "' does not exist."@,
        }
    }

    /// The text that tells a user what went wrong.
    pub fn message(&self) -> (res: String)
        ensures
            res@ == self.spec_message(),
    {
        match self {
            CompileError::NativeDirMissing(d) => concat3("Configured native dir '", d.as_str(), "' does not exist."),
        }
    }
}

/// Checks, in order, that each native directory is a directory, given for
/// each whether the disk says it is: the first that is not is the error.
pub fn check_native_dirs(dirs: &Vec<(String, bool)>) -> (res: Result<(), CompileError>)
    ensures
        res is Ok <==> forall|i: int| 0 <= i < dirs@.len() ==> (#[trigger] dirs@[i]).1,
        res matches Err(CompileError::NativeDirMissing(d)) ==> exists|i: int|
            0 <= i < dirs@.len() && !(#[trigger] dirs@[i]).1 && dirs@[i].0@ == d@ && forall|j: int|
                0 <= j < i ==> (#[trigger] dirs@[j]).1,
{
    let mut i: usize = 0;
    while i < dirs.len()
        invariant
            i <= dirs@.len(),
            forall|j: int| 0 <= j < i ==> (#[trigger] dirs@[j]).1,
        decreases dirs@.len() - i,
    {
        if !dirs[i].1 {
            let d = owned(dirs[i].0.as_str());
            proof {
                assert(!dirs@[i as int].1);
            }
            return Err(CompileError::NativeDirMissing(d));
        }
        i = i + 1;
    }
    Ok(())
}

} // verus!
