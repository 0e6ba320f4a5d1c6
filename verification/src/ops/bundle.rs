//! The decisions behind `baler bundle`: which flags go together, what the
//! archive is called, and which paths are left out of it or forced into it.

use vstd::prelude::*;

use crate::baler_toml::BalerToml;
use crate::formats::tar::{
    bundle_plan, entry_views, selected, spec_bundle_entries, walked_under, ArchiveEntry, TarError,
};
use crate::paths::{join_path, path_is_dir, path_parent, spec_join, std_parent, views};
use crate::text::{concat2, concat3, owned};

verus! {

/// Why a bundle cannot be made.
pub enum BundleError {
    /// `--keep-source` was given without `--binary`.
    KeepSourceWithoutBinary,
    /// The project path does not exist.
    PathMissing(String),
    /// The project path is not a directory.
    NotADirectory(String),
    /// The module's source directory is not a directory.
    SrcDirMissing(String),
    /// The archive could not be laid out.
    Archive(TarError),
}

impl BundleError {
    pub open spec fn spec_message(self) -> Seq<char> {
        match self {
            BundleError::KeepSourceWithoutBinary => "--keep-source only applies together with --binary."@,
            BundleError::PathMissing(p) => "Path does not exist: "@ + p@,
            BundleError::NotADirectory(p) => "Path is not a directory: "@ + p@,
            BundleError::SrcDirMissing(p) => "Module source directory not found: "@ + p@,
            BundleError::Archive(e) => e.spec_message(),
        }
    }

    /// The text that tells a user what went wrong.
    pub fn message(&self) -> (res: String)
        ensures
            res@ == self.spec_message(),
    {
        match self {
            BundleError::PathMissing(p) => concat2("Path does not exist: ", p.as_str()),
            BundleError::NotADirectory(p) => concat2("Path is not a directory: ", p.as_str()),
            BundleError::SrcDirMissing(p) => concat2("Module source directory not found: ", p.as_str()),
            BundleError::Archive(e) => e.message(),
            BundleError::KeepSourceWithoutBinary => owned("--keep-source only applies together with --binary."),
        }
    }
}

/// `--keep-source` only makes sense together with `--binary`.
pub fn check_flags(binary: bool, keep_source: bool) -> (res: Result<(), BundleError>)
    ensures
        keep_source && !binary ==> res == Err::<(), BundleError>(BundleError::KeepSourceWithoutBinary),
        !(keep_source && !binary) ==> res is Ok,
{
    if keep_source && !binary {
        Err(BundleError::KeepSourceWithoutBinary)
    } else {
        Ok(())
    }
}

/// The archive a module is bundled into: `{name}_{version}.tar.gz`.
pub open spec fn spec_archive_file_name(name: Seq<char>, version: Seq<char>) -> Seq<char> {
    name + "_"@ + version + ".tar.gz"@
}

/// Names the archive of a module.
pub fn archive_file_name(name: &str, version: &str) -> (res: String)
    ensures
        res@ == spec_archive_file_name(name@, version@),
{
    let mut r = concat3(name, "_", version);
    r.append(".tar.gz");
    r
}

/// The `.lib/` beside each native directory that has a parent, in order.
pub open spec fn lib_dirs(native_dirs: Seq<Seq<char>>) -> Seq<Seq<char>>
    decreases native_dirs.len(),
{
    if native_dirs.len() == 0 {
        Seq::empty()
    } else {
        let rest = lib_dirs(native_dirs.drop_last());
        match std_parent(native_dirs.last()) {
            Some(p) => rest.push(spec_join(p, ".lib"@)),
            None => rest,
        }
    }
}

/// The paths left out of the archive and the paths forced into it despite
/// their dot-prefixed names. A plain bundle does neither; `--binary` forces
/// in the `.lib/` beside each native directory and, unless `--keep-source`,
/// leaves the native source out.
pub struct BundleFilters {
    pub exclude: Vec<String>,
    pub force_include: Vec<String>,
}

/// Works out the bundle filters for the module's native directories.
pub fn bundle_filters(binary: bool, keep_source: bool, native_dirs: &Vec<String>) -> (res: BundleFilters)
    ensures
        !binary ==> res.exclude@.len() == 0 && res.force_include@.len() == 0,
        binary ==> res.force_include@.map_values(|s: String| s@) == lib_dirs(
            native_dirs@.map_values(|s: String| s@),
        ),
        binary && keep_source ==> res.exclude@.len() == 0,
        binary && !keep_source ==> res.exclude@.map_values(|s: String| s@) == native_dirs@.map_values(
            |s: String| s@,
        ),
{
    if !binary {
        return BundleFilters { exclude: Vec::new(), force_include: Vec::new() };
    }
    let ghost dirs = native_dirs@.map_values(|s: String| s@);
    let mut libs: Vec<String> = Vec::new();
    let mut excl: Vec<String> = Vec::new();
    let mut i: usize = 0;
    while i < native_dirs.len()
        invariant
            i <= native_dirs@.len(),
            dirs == native_dirs@.map_values(|s: String| s@),
            libs@.map_values(|s: String| s@) == lib_dirs(dirs.subrange(0, i as int)),
            excl@.map_values(|s: String| s@) == dirs.subrange(0, i as int),
        decreases native_dirs@.len() - i,
    {
        assert(dirs.subrange(0, i + 1).drop_last() =~= dirs.subrange(0, i as int));
        let ghost prev_l = libs@;
        let ghost prev_e = excl@;
        match path_parent(native_dirs[i].as_str()) {
            Some(p) => {
                libs.push(join_path(p.as_str(), ".lib"));
                assert(libs@.map_values(|s: String| s@) =~= prev_l.map_values(|s: String| s@).push(
                    libs@.last()@,
                ));
            },
            None => {},
        }
        excl.push(owned(native_dirs[i].as_str()));
        assert(excl@.map_values(|s: String| s@) =~= dirs.subrange(0, i + 1));
        i = i + 1;
    }
    assert(dirs.subrange(0, native_dirs@.len() as int) =~= dirs);
    if keep_source {
        BundleFilters { exclude: Vec::new(), force_include: libs }
    } else {
        BundleFilters { exclude: excl, force_include: libs }
    }
}

/// Checks a `baler bundle` request before anything is read: the flags go
/// together, and the project path exists and is a directory.
pub fn check_request(path: &str, binary: bool, keep_source: bool, exists: bool, is_dir: bool) -> (res:
    Result<(), BundleError>)
    ensures
        keep_source && !binary ==> res == Err::<(), BundleError>(BundleError::KeepSourceWithoutBinary),
        !(keep_source && !binary) && !exists ==> (res matches Err(BundleError::PathMissing(p)) && p@
            == path@),
        !(keep_source && !binary) && exists && !is_dir ==> (res matches Err(BundleError::NotADirectory(p))
            && p@ == path@),
        !(keep_source && !binary) && exists && is_dir ==> res is Ok,
{
    check_flags(binary, keep_source)?;
    if !exists {
        return Err(BundleError::PathMissing(owned(path)));
    }
    if !is_dir {
        return Err(BundleError::NotADirectory(owned(path)));
    }
    Ok(())
}

/// The directory that holds a module's source: `[project].src` under the
/// project root when given, else the directory named after the module.
pub open spec fn spec_src_dir(project_root: Seq<char>, toml: BalerToml) -> Seq<char> {
    match toml.project.src {
        Some(s) => spec_join(project_root, s@),
        None => spec_join(project_root, toml.project.name@),
    }
}

/// Finds the module's source directory under `project_root`, and checks on
/// the disk that it is a directory. Whatever the disk answers, the path
/// looked at is the one `baler.toml` names.
pub fn resolve_src_dir(project_root: &str, toml: &BalerToml) -> (res: Result<String, BundleError>)
    ensures
        match res {
            Ok(d) => d@ == spec_src_dir(project_root@, *toml),
            Err(e) => e matches BundleError::SrcDirMissing(d) && d@ == spec_src_dir(project_root@, *toml),
        },
{
    let dir = match &toml.project.src {
        Some(s) => join_path(project_root, s.as_str()),
        None => join_path(project_root, toml.project.name.as_str()),
    };
    if path_is_dir(dir.as_str()) {
        Ok(dir)
    } else {
        Err(BundleError::SrcDirMissing(dir))
    }
}

/// `res` is the archive of the module whose source is `src`, laid out from
/// some walk of `src` (every entry under `src`; nothing excluded, nothing
/// forced in) and some answer
/// on whether the project has a `baler.lock`.
pub open spec fn archive_of(
    res: Result<Vec<ArchiveEntry>, BundleError>,
    src: Seq<char>,
    project_root: Seq<char>,
    toml: BalerToml,
) -> bool {
    exists|walked: Seq<Option<(String, bool)>>, lock_exists: bool|
        walked_under(walked, src) && match #[trigger] spec_bundle_entries(
            selected(walked, src, Seq::empty(), Seq::empty()),
            src,
            project_root,
            toml.project.name@,
            toml.project.version@,
            lock_exists,
        ) {
            Ok(entries) => res matches Ok(v) && entry_views(v@) == entries,
            Err(p) => res matches Err(BundleError::Archive(TarError::StripPrefix(e))) && e@ == p,
        }
}

/// Lays out the archive of the project at `project_root`, whose manifest is
/// `toml`, with nothing left out or forced in (how a downloaded module is
/// bundled before it is installed).
pub fn bundle_to(project_root: &str, toml: &BalerToml) -> (res: Result<Vec<ArchiveEntry>, BundleError>)
    ensures
        match res {
            Err(BundleError::SrcDirMissing(d)) => d@ == spec_src_dir(project_root@, *toml),
            _ => archive_of(res, spec_src_dir(project_root@, *toml), project_root@, *toml),
        },
        !(res matches Err(BundleError::Archive(_))),
{
    let src = resolve_src_dir(project_root, toml)?;
    let empty: Vec<String> = Vec::new();
    let planned = bundle_plan(
        src.as_str(),
        project_root,
        toml.project.name.as_str(),
        toml.project.version.as_str(),
        empty.as_slice(),
        empty.as_slice(),
    );
    proof {
        assert(views(empty@) =~= Seq::<Seq<char>>::empty());
    }
    match planned {
        Ok(v) => Ok(v),
        Err(e) => Err(BundleError::Archive(e)),
    }
}

} // verus!
