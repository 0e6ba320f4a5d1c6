//! The layout of a baler `.tar.gz` archive: which files of a module go into
//! it, under which names, and where each entry lands when it is unpacked.
//!
//! ``` text
//! tstk_0.1.0/
//! ├── tstk/
//! │   ├── __init__.R
//! │   └── ...
//! ├── baler.toml
//! └── baler.lock        (only if the project has one)
//! ```
//!
//! Unpacked into an install directory, module files land under
//! `<install_dir>/tstk/` and `baler.toml`/`baler.lock` under
//! `<install_dir>/tstk-0.1.0.dist-info/`. Writing and reading the
//! compressed archive itself happens outside the library.

use vstd::prelude::*;

use crate::paths::{
    is_prefix_of, join_path, path_components, path_exists, render, render_components, spec_join,
    starts_with_components, std_components, tail_from, views,
};
use crate::text::{backslashes_to_slashes, concat2, concat3, owned, replace_char, str_eq};

verus! {

/// Why an archive could not be planned.
pub enum TarError {
    /// A walked path does not lie under the directory that was walked.
    StripPrefix(String),
}

impl TarError {
    pub open spec fn spec_message(self) -> Seq<char> {
        match self {
            TarError::StripPrefix(p) => "Failed to strip prefix from "@ + p@,
        }
    }

    /// The text that tells a user what went wrong.
    pub fn message(&self) -> (res: String)
        ensures
            res@ == self.spec_message(),
    {
        match self {
            TarError::StripPrefix(p) => concat2("Failed to strip prefix from ", p.as_str()),
        }
    }
}

/// Every walked entry lies under `base`, component by component.
pub open spec fn walked_under(walked: Seq<Option<(String, bool)>>, base: Seq<char>) -> bool {
    forall|i: int|
        0 <= i < walked.len() ==> match #[trigger] walked[i] {
            Some((p, _)) => is_prefix_of(std_components(base), std_components(p@)),
            None => true,
        }
}

/// Walks the directory tree under `base` with `walkdir` and reports, for
/// every entry, its path and whether it is a file (`None` for an entry that
/// could not be read). Which entries it finds depends on what is on disk;
/// claimed is only what walkdir documents of every entry's path: it is
/// `base` joined with the entry's path below it, so it lies under `base`.
#[verifier::external_body]
fn walk_dir(base: &str) -> (res: Vec<Option<(String, bool)>>)
    ensures
        walked_under(res@, base@),
{
    walkdir::WalkDir::new(base).into_iter().map(
        |e| e.ok().map(|e| (e.path().to_string_lossy().into_owned(), e.file_type().is_file())),
    ).collect()
}

/// A path component that marks a hidden file or directory.
pub open spec fn hidden_component(c: Seq<char>) -> bool {
    c != "."@ && c != ".."@ && c.len() > 0 && c[0] == '.'
}

/// Some component is hidden.
pub open spec fn has_hidden(cs: Seq<Seq<char>>) -> bool {
    exists|i: int| 0 <= i < cs.len() && #[trigger] hidden_component(cs[i])
}

/// The components `p` lie under one of `roots`.
pub open spec fn under_any(p: Seq<Seq<char>>, roots: Seq<Seq<char>>) -> bool {
    exists|i: int| 0 <= i < roots.len() && is_prefix_of(std_components(#[trigger] roots[i]), p)
}

/// The components of `p` below `base`, or all of them when `p` does not lie
/// under `base`.
pub open spec fn below_or_whole(p: Seq<Seq<char>>, base: Seq<Seq<char>>) -> Seq<Seq<char>> {
    if is_prefix_of(base, p) {
        p.subrange(base.len() as int, p.len() as int)
    } else {
        p
    }
}

/// Whether a walked entry is bundled: it is a file, lies under none of the
/// excluded paths, and either lies under a forced path or has no hidden
/// component below `base`.
pub open spec fn keeps(
    p: Seq<char>,
    is_file: bool,
    base: Seq<char>,
    exclude: Seq<Seq<char>>,
    force_include: Seq<Seq<char>>,
) -> bool {
    let pc = std_components(p);
    &&& is_file
    &&& !under_any(pc, exclude)
    &&& under_any(pc, force_include) || !has_hidden(below_or_whole(pc, std_components(base)))
}

/// The paths of the walked entries that are bundled, in walk order.
pub open spec fn selected(
    walked: Seq<Option<(String, bool)>>,
    base: Seq<char>,
    exclude: Seq<Seq<char>>,
    force_include: Seq<Seq<char>>,
) -> Seq<Seq<char>>
    decreases walked.len(),
{
    if walked.len() == 0 {
        Seq::empty()
    } else {
        let rest = selected(walked.drop_last(), base, exclude, force_include);
        match walked.last() {
            Some((p, f)) => if keeps(p@, f, base, exclude, force_include) {
                rest.push(p@)
            } else {
                rest
            },
            None => rest,
        }
    }
}

/// Whether the component `c` marks a hidden file or directory.
fn is_hidden_component(c: &str) -> (res: bool)
    ensures
        res == hidden_component(c@),
{
    if str_eq(c, ".") || str_eq(c, "..") {
        false
    } else {
        c.unicode_len() > 0 && c.get_char(0) == '.'
    }
}

/// Whether one of `cs[from..]` marks a hidden file or directory.
fn any_hidden(cs: &Vec<String>, from: usize) -> (res: bool)
    requires
        from <= cs@.len(),
    ensures
        res == has_hidden(views(cs@).subrange(from as int, cs@.len() as int)),
{
    let ghost tail = views(cs@).subrange(from as int, cs@.len() as int);
    let mut i: usize = from;
    while i < cs.len()
        invariant
            from <= i <= cs@.len(),
            tail == views(cs@).subrange(from as int, cs@.len() as int),
            forall|j: int| 0 <= j < i - from ==> !hidden_component(#[trigger] tail[j]),
        decreases cs@.len() - i,
    {
        if is_hidden_component(cs[i].as_str()) {
            assert(hidden_component(tail[i - from]));
            return true;
        }
        i = i + 1;
    }
    false
}

/// Whether the components `pc` lie under one of `roots`.
fn lies_under_any(pc: &Vec<String>, roots: &[String]) -> (res: bool)
    ensures
        res == under_any(views(pc@), views(roots@)),
{
    let ghost rv = views(roots@);
    let mut i: usize = 0;
    while i < roots.len()
        invariant
            i <= roots@.len(),
            rv == views(roots@),
            forall|j: int| 0 <= j < i ==> !is_prefix_of(std_components(#[trigger] rv[j]), views(pc@)),
        decreases roots@.len() - i,
    {
        let rc = path_components(roots[i].as_str());
        if starts_with_components(pc, &rc) {
            assert(is_prefix_of(std_components(rv[i as int]), views(pc@)));
            return true;
        }
        i = i + 1;
    }
    false
}

/// The paths of the walked entries under `base` that are bundled, in walk
/// order: files under none of `exclude`, and either under one of
/// `force_include` or without a hidden component below `base`.
pub fn select_files(
    base: &str,
    walked: &Vec<Option<(String, bool)>>,
    exclude: &[String],
    force_include: &[String],
) -> (res: Vec<String>)
    ensures
        views(res@) == selected(
            walked@,
            base@,
            views(exclude@),
            views(force_include@),
        ),
{
    let ghost ex = views(exclude@);
    let ghost fi = views(force_include@);
    let bc = path_components(base);
    let mut out: Vec<String> = Vec::new();
    let mut i: usize = 0;
    while i < walked.len()
        invariant
            i <= walked@.len(),
            views(bc@) == std_components(base@),
            ex == views(exclude@),
            fi == views(force_include@),
            views(out@) == selected(walked@.subrange(0, i as int), base@, ex, fi),
        decreases walked@.len() - i,
    {
        assert(walked@.subrange(0, i + 1).drop_last() =~= walked@.subrange(0, i as int));
        match &walked[i] {
            Some((p, is_file)) => {
                if *is_file {
                    let pc = path_components(p.as_str());
                    if !lies_under_any(&pc, exclude) {
                        let keep = if lies_under_any(&pc, force_include) {
                            true
                        } else if starts_with_components(&pc, &bc) {
                            !any_hidden(&pc, bc.len())
                        } else {
                            !any_hidden(&pc, 0)
                        };
                        proof {
                            assert(views(pc@).subrange(0, pc@.len() as int) =~= views(pc@));
                        }
                        if keep {
                            let ghost prev = out@;
                            out.push(owned(p.as_str()));
                            assert(views(out@) =~= views(prev).push(p@));
                        }
                    }
                }
            },
            None => {},
        }
        i = i + 1;
    }
    assert(walked@.subrange(0, walked@.len() as int) =~= walked@);
    out
}

/// Walks `base` and keeps the files that are bundled: none under `exclude`,
/// and none with a hidden component below `base` unless it lies under
/// `force_include`. The walk's findings depend on the disk; whatever it
/// found, the result is that selection of it.
pub fn all_files(base: &str, exclude: &[String], force_include: &[String]) -> (res: Vec<String>)
    ensures
        exists|walked: Seq<Option<(String, bool)>>|
            walked_under(walked, base@) && views(res@) == #[trigger] selected(
                walked,
                base@,
                views(exclude@),
                views(force_include@),
            ),
{
    let walked = walk_dir(base);
    let res = select_files(base, &walked, exclude, force_include);
    proof {
        assert(views(res@) == selected(walked@, base@, views(exclude@), views(force_include@)));
    }
    res
}

/// Every selected path lies under `base` when every walked one does.
proof fn lemma_selected_under(
    walked: Seq<Option<(String, bool)>>,
    base: Seq<char>,
    exclude: Seq<Seq<char>>,
    force_include: Seq<Seq<char>>,
)
    requires
        walked_under(walked, base),
    ensures
        forall|i: int|
            0 <= i < selected(walked, base, exclude, force_include).len() ==> is_prefix_of(
                std_components(base),
                std_components(#[trigger] selected(walked, base, exclude, force_include)[i]),
            ),
    decreases walked.len(),
{
    if walked.len() > 0 {
        let w = walked.drop_last();
        assert forall|i: int| 0 <= i < w.len() implies match #[trigger] w[i] {
            Some((p, _)) => is_prefix_of(std_components(base), std_components(p@)),
            None => true,
        } by {
            assert(w[i] == walked[i]);
        }
        lemma_selected_under(w, base, exclude, force_include);
        let last = walked[walked.len() - 1];
        assert(match last {
            Some((p, _)) => is_prefix_of(std_components(base), std_components(p@)),
            None => true,
        });
        let rest = selected(w, base, exclude, force_include);
        let sel = selected(walked, base, exclude, force_include);
        assert forall|i: int| 0 <= i < sel.len() implies is_prefix_of(
            std_components(base),
            std_components(#[trigger] sel[i]),
        ) by {
            if i < rest.len() {
                assert(sel[i] == rest[i]);
            }
        }
    }
}

/// The relative names of files that all lie under `base` are found.
proof fn lemma_relative_names_ok(files: Seq<Seq<char>>, base: Seq<char>)
    requires
        forall|i: int|
            0 <= i < files.len() ==> is_prefix_of(std_components(base), std_components(#[trigger] files[i])),
    ensures
        relative_names(files, base) is Ok,
    decreases files.len(),
{
    if files.len() > 0 {
        let f = files.drop_last();
        assert forall|i: int| 0 <= i < f.len() implies is_prefix_of(
            std_components(base),
            std_components(#[trigger] f[i]),
        ) by {
            assert(f[i] == files[i]);
        }
        lemma_relative_names_ok(f, base);
        assert(is_prefix_of(std_components(base), std_components(files[files.len() - 1])));
    }
}

/// The `/`-separated name of the part of `p` below `base`, with any
/// backslash turned into a slash; `None` when `p` does not lie under `base`.
pub open spec fn relative_name(p: Seq<char>, base: Seq<char>) -> Option<Seq<char>> {
    let pc = std_components(p);
    let bc = std_components(base);
    if is_prefix_of(bc, pc) {
        Some(replace_char(render(pc.subrange(bc.len() as int, pc.len() as int)), '\\', '/'))
    } else {
        None
    }
}

/// The components of the part of `p` below `base`, when `p` lies under it.
fn below(p: &str, bc: &Vec<String>) -> (res: Option<Vec<String>>)
    ensures
        match res {
            Some(r) => is_prefix_of(views(bc@), std_components(p@)) && views(r@) == std_components(
                p@,
            ).subrange(bc@.len() as int, std_components(p@).len() as int),
            None => !is_prefix_of(views(bc@), std_components(p@)),
        },
{
    let pc = path_components(p);
    if starts_with_components(&pc, bc) {
        Some(tail_from(&pc, bc.len()))
    } else {
        None
    }
}

/// The relative names of `files` below `base`, in order; the first file not
/// under `base` is an error.
pub open spec fn relative_names(files: Seq<Seq<char>>, base: Seq<char>) -> Result<
    Seq<Seq<char>>,
    Seq<char>,
>
    decreases files.len(),
{
    if files.len() == 0 {
        Ok(Seq::empty())
    } else {
        match relative_names(files.drop_last(), base) {
            Err(p) => Err(p),
            Ok(names) => match relative_name(files.last(), base) {
                Some(n) => Ok(names.push(n)),
                None => Err(files.last()),
            },
        }
    }
}

/// The relative names of `files` below `base`.
pub fn relative_names_of(base: &str, files: &Vec<String>) -> (res: Result<Vec<String>, TarError>)
    ensures
        match relative_names(views(files@), base@) {
            Ok(names) => res matches Ok(v) && views(v@) == names,
            Err(p) => res matches Err(TarError::StripPrefix(e)) && e@ == p,
        },
{
    let bc = path_components(base);
    let mut out: Vec<String> = Vec::new();
    let mut i: usize = 0;
    assert(views(out@) =~= Seq::<Seq<char>>::empty());
    assert(views(files@).subrange(0, 0) =~= Seq::<Seq<char>>::empty());
    while i < files.len()
        invariant
            i <= files@.len(),
            views(bc@) == std_components(base@),
            relative_names(views(files@).subrange(0, i as int), base@) == Ok::<
                Seq<Seq<char>>,
                Seq<char>,
            >(views(out@)),
        decreases files@.len() - i,
    {
        assert(views(files@).subrange(0, i + 1).drop_last() =~= views(files@).subrange(0, i as int));
        match below(files[i].as_str(), &bc) {
            Some(rel) => {
                let joined = render_components(&rel);
                let name = backslashes_to_slashes(joined.as_str());
                let ghost prev = out@;
                out.push(name);
                assert(views(out@) =~= views(prev).push(name@));
            },
            None => {
                proof {
                    assert(relative_names(views(files@).subrange(0, i + 1), base@) == Err::<
                        Seq<Seq<char>>,
                        Seq<char>,
                    >(files@[i as int]@));
                    lemma_relative_names_err_sticks(views(files@), base@, i as int + 1);
                }
                return Err(TarError::StripPrefix(owned(files[i].as_str())));
            },
        }
        i = i + 1;
    }
    assert(views(files@).subrange(0, files@.len() as int) =~= views(files@));
    Ok(out)
}

/// Once a prefix of the files fails to resolve, every longer prefix fails
/// with the same path.
proof fn lemma_relative_names_err_sticks(files: Seq<Seq<char>>, base: Seq<char>, k: int)
    requires
        0 <= k <= files.len(),
        relative_names(files.subrange(0, k), base) is Err,
    ensures
        relative_names(files, base) == relative_names(files.subrange(0, k), base),
    decreases files.len() - k,
{
    if k < files.len() {
        assert(files.subrange(0, k + 1).drop_last() =~= files.subrange(0, k));
        lemma_relative_names_err_sticks(files, base, k + 1);
    } else {
        assert(files.subrange(0, k) =~= files);
    }
}

/// Lists the files under `base` that are bundled, as `/`-separated names
/// relative to `base`, hidden files left out. The walk's findings depend on
/// the disk; whatever it found, the result is the relative names of its
/// selection.
pub fn collect_files(base: &str) -> (res: Result<Vec<String>, TarError>)
    ensures
        exists|walked: Seq<Option<(String, bool)>>|
            walked_under(walked, base@) && match relative_names(
                #[trigger] selected(walked, base@, Seq::empty(), Seq::empty()),
                base@,
            ) {
                Ok(names) => res matches Ok(v) && views(v@) == names,
                Err(p) => res matches Err(TarError::StripPrefix(e)) && e@ == p,
            },
        res is Ok,
{
    let empty: Vec<String> = Vec::new();
    let files = all_files(base, empty.as_slice(), empty.as_slice());
    proof {
        assert(views(empty@) =~= Seq::<Seq<char>>::empty());
        let w = choose|w: Seq<Option<(String, bool)>>|
            walked_under(w, base@) && views(files@) == #[trigger] selected(w, base@, Seq::empty(), Seq::empty());
        assert(views(files@) == selected(w, base@, Seq::empty(), Seq::empty()));
        lemma_selected_under(w, base@, Seq::empty(), Seq::empty());
        lemma_relative_names_ok(views(files@), base@);
    }
    relative_names_of(base, &files)
}

/// The top-level directory of a module's archive: `{name}_{version}`.
pub open spec fn top_dir(name: Seq<char>, version: Seq<char>) -> Seq<char> {
    name + "_"@ + version
}

/// The archive name of a module file whose name relative to the module's
/// source directory is `rel`: `{name}_{version}/{name}/{rel}`.
pub open spec fn module_entry_name(name: Seq<char>, version: Seq<char>, rel: Seq<char>) -> Seq<char> {
    top_dir(name, version) + "/"@ + name + "/"@ + rel
}

/// The archive name of a project file (`baler.toml`, `baler.lock`) that sits
/// at the archive root, beside the module's directory.
pub open spec fn root_entry_name(name: Seq<char>, version: Seq<char>, file: Seq<char>) -> Seq<char> {
    top_dir(name, version) + "/"@ + file
}

/// One file to put into an archive: where it is read from, and its name in
/// the archive.
pub struct ArchiveEntry {
    pub source: String,
    pub name: String,
}

/// The entries of a module's archive, as `(source, name)` pairs: each module
/// file under its relative name inside `{name}_{version}/{name}/`, then the
/// project's `baler.toml`, then its `baler.lock` when there is one. A file
/// that does not lie under `src_path` is an error.
pub open spec fn spec_bundle_entries(
    files: Seq<Seq<char>>,
    src_path: Seq<char>,
    project_root: Seq<char>,
    name: Seq<char>,
    version: Seq<char>,
    lock_exists: bool,
) -> Result<Seq<(Seq<char>, Seq<char>)>, Seq<char>> {
    match relative_names(files, src_path) {
        Err(p) => Err(p),
        Ok(rels) => {
            let modules = Seq::new(
                files.len(),
                |i: int| (files[i], module_entry_name(name, version, rels[i])),
            );
            let with_toml = modules.push(
                (spec_join(project_root, "baler.toml"@), root_entry_name(name, version, "baler.toml"@)),
            );
            if lock_exists {
                Ok(
                    with_toml.push(
                        (
                            spec_join(project_root, "baler.lock"@),
                            root_entry_name(name, version, "baler.lock"@),
                        ),
                    ),
                )
            } else {
                Ok(with_toml)
            }
        },
    }
}

/// The `(source, name)` views of archive entries.
pub open spec fn entry_views(v: Seq<ArchiveEntry>) -> Seq<(Seq<char>, Seq<char>)> {
    v.map_values(|e: ArchiveEntry| (e.source@, e.name@))
}

/// Lemma: `relative_names` gives one name per file.
proof fn lemma_relative_names_len(files: Seq<Seq<char>>, base: Seq<char>)
    ensures
        relative_names(files, base) matches Ok(names) ==> names.len() == files.len(),
    decreases files.len(),
{
    if files.len() > 0 {
        lemma_relative_names_len(files.drop_last(), base);
    }
}

/// The `{name}_{version}/{file}` name of a project file.
fn root_entry(name: &str, version: &str, file: &str) -> (res: String)
    ensures
        res@ == root_entry_name(name@, version@, file@),
{
    let mut r = concat3(name, "_", version);
    r.append("/");
    r.append(file);
    r
}

/// Lays out the entries of a module's archive from the files to bundle,
/// given whether the project has a `baler.lock`.
pub fn bundle_entries(
    files: &Vec<String>,
    src_path: &str,
    project_root: &str,
    name: &str,
    version: &str,
    lock_exists: bool,
) -> (res: Result<Vec<ArchiveEntry>, TarError>)
    ensures
        match spec_bundle_entries(views(files@), src_path@, project_root@, name@, version@, lock_exists) {
            Ok(entries) => res matches Ok(v) && entry_views(v@) == entries,
            Err(p) => res matches Err(TarError::StripPrefix(e)) && e@ == p,
        },
{
    let rels = relative_names_of(src_path, files)?;
    proof {
        lemma_relative_names_len(views(files@), src_path@);
    }
    let ghost names = views(rels@);
    let mut prefix = concat3(name, "_", version);
    prefix.append("/");
    prefix.append(name);
    prefix.append("/");
    let mut out: Vec<ArchiveEntry> = Vec::new();
    let mut i: usize = 0;
    while i < files.len()
        invariant
            i <= files@.len(),
            rels@.len() == files@.len(),
            prefix@ == top_dir(name@, version@) + "/"@ + name@ + "/"@,
            out@.len() == i,
            forall|j: int|
                0 <= j < i ==> (#[trigger] out@[j]).source@ == files@[j]@ && out@[j].name@
                    == module_entry_name(name@, version@, rels@[j]@),
        decreases files@.len() - i,
    {
        let entry_name = concat2(prefix.as_str(), rels[i].as_str());
        out.push(ArchiveEntry { source: owned(files[i].as_str()), name: entry_name });
        i = i + 1;
    }
    let toml_src = join_path(project_root, "baler.toml");
    out.push(ArchiveEntry { source: toml_src, name: root_entry(name, version, "baler.toml") });
    if lock_exists {
        let lock_src = join_path(project_root, "baler.lock");
        out.push(ArchiveEntry { source: lock_src, name: root_entry(name, version, "baler.lock") });
    }
    proof {
        let rl = relative_names(views(files@), src_path@)->Ok_0;
        assert(rl == views(rels@));
        let modules = Seq::new(
            files@.len(),
            |i: int| (views(files@)[i], module_entry_name(name@, version@, rl[i])),
        );
        assert(entry_views(out@).subrange(0, files@.len() as int) =~= modules);
        let with_toml = modules.push(
            (spec_join(project_root@, "baler.toml"@), root_entry_name(name@, version@, "baler.toml"@)),
        );
        if lock_exists {
            assert(entry_views(out@) =~= with_toml.push(
                (spec_join(project_root@, "baler.lock"@), root_entry_name(name@, version@, "baler.lock"@)),
            ));
        } else {
            assert(entry_views(out@) =~= with_toml);
        }
    }
    Ok(out)
}

/// Plans a module's archive: walks `src_path` for the files to bundle
/// (leaving out `exclude`, hidden files only under `force_include`) and asks
/// the disk whether the project has a `baler.lock`. Whatever the walk found
/// and the disk answered, the result is the layout of that.
pub fn bundle_plan(
    src_path: &str,
    project_root: &str,
    name: &str,
    version: &str,
    exclude: &[String],
    force_include: &[String],
) -> (res: Result<Vec<ArchiveEntry>, TarError>)
    ensures
        exists|walked: Seq<Option<(String, bool)>>, lock_exists: bool|
            walked_under(walked, src_path@) && match #[trigger] spec_bundle_entries(
                selected(walked, src_path@, views(exclude@), views(force_include@)),
                src_path@,
                project_root@,
                name@,
                version@,
                lock_exists,
            ) {
                Ok(entries) => res matches Ok(v) && entry_views(v@) == entries,
                Err(p) => res matches Err(TarError::StripPrefix(e)) && e@ == p,
            },
        res is Ok,
{
    let files = all_files(src_path, exclude, force_include);
    let ghost w = choose|w: Seq<Option<(String, bool)>>|
        walked_under(w, src_path@) && views(files@) == #[trigger] selected(
            w,
            src_path@,
            views(exclude@),
            views(force_include@),
        );
    let lock_path = join_path(project_root, "baler.lock");
    let lock_exists = path_exists(lock_path.as_str());
    let res = bundle_entries(&files, src_path, project_root, name, version, lock_exists);
    proof {
        assert(views(files@) == selected(w, src_path@, views(exclude@), views(force_include@)));
        lemma_selected_under(w, src_path@, views(exclude@), views(force_include@));
        lemma_relative_names_ok(views(files@), src_path@);
        let _ = spec_bundle_entries(
            selected(w, src_path@, views(exclude@), views(force_include@)),
            src_path@,
            project_root@,
            name@,
            version@,
            lock_exists,
        );
    }
    res
}

/// The entry's components without the top-level `{name}_{version}`
/// directory.
pub open spec fn spec_strip_top_level(cs: Seq<Seq<char>>) -> Seq<Seq<char>> {
    if cs.len() > 0 {
        cs.drop_first()
    } else {
        cs
    }
}

/// Drops the first component of an archive entry's path.
pub fn strip_top_level(cs: &Vec<String>) -> (res: Vec<String>)
    ensures
        views(res@) == spec_strip_top_level(views(cs@)),
{
    if cs.len() > 0 {
        let r = tail_from(cs, 1);
        assert(views(cs@).subrange(1, cs@.len() as int) =~= views(cs@).drop_first());
        r
    } else {
        tail_from(cs, 0)
    }
}

/// `{install_dir}/{name}-{version}.dist-info`, where a module's `baler.toml`
/// and `baler.lock` are kept once it is installed.
pub open spec fn dist_info_dir(install_dir: Seq<char>, name: Seq<char>, version: Seq<char>) -> Seq<char> {
    spec_join(install_dir, name + "-"@ + version + ".dist-info"@)
}

/// Where an archive entry with path components `cs` is unpacked to; `None`
/// for the top-level directory itself. Only the root-level `baler.toml` and
/// `baler.lock` go into the dist-info directory: a module file of the same
/// name, however deep, stays in the module.
pub open spec fn spec_unpack_destination(
    install_dir: Seq<char>,
    name: Seq<char>,
    version: Seq<char>,
    cs: Seq<Seq<char>>,
) -> Option<Seq<char>> {
    let st = spec_strip_top_level(cs);
    if st.len() == 0 || st == seq!["."@] {
        None
    } else if st == seq!["baler.toml"@] {
        Some(spec_join(dist_info_dir(install_dir, name, version), "baler.toml"@))
    } else if st == seq!["baler.lock"@] {
        Some(spec_join(dist_info_dir(install_dir, name, version), "baler.lock"@))
    } else {
        Some(spec_join(install_dir, render(st)))
    }
}

/// The dist-info directory of a module.
pub fn dist_info_path(install_dir: &str, name: &str, version: &str) -> (res: String)
    ensures
        res@ == dist_info_dir(install_dir@, name@, version@),
{
    let mut d = concat3(name, "-", version);
    d.append(".dist-info");
    join_path(install_dir, d.as_str())
}

/// Whether `cs` is exactly the single component `c`.
fn is_single(cs: &Vec<String>, c: &str) -> (res: bool)
    ensures
        res == (views(cs@) == seq![c@]),
{
    if cs.len() == 1 {
        let r = str_eq(cs[0].as_str(), c);
        proof {
            if r {
                assert(views(cs@) =~= seq![c@]);
            } else {
                assert(views(cs@)[0] != seq![c@][0]);
            }
        }
        r
    } else {
        proof {
            if views(cs@) == seq![c@] {
                assert(views(cs@).len() == 1);
            }
        }
        false
    }
}

/// Where the archive entry with path components `cs` is unpacked to.
pub fn unpack_destination(install_dir: &str, name: &str, version: &str, cs: &Vec<String>) -> (res:
    Option<String>)
    ensures
        match spec_unpack_destination(install_dir@, name@, version@, views(cs@)) {
            Some(d) => res matches Some(r) && r@ == d,
            None => res is None,
        },
{
    let st = strip_top_level(cs);
    if st.len() == 0 || is_single(&st, ".") {
        return None;
    }
    if is_single(&st, "baler.toml") {
        let d = dist_info_path(install_dir, name, version);
        return Some(join_path(d.as_str(), "baler.toml"));
    }
    if is_single(&st, "baler.lock") {
        let d = dist_info_path(install_dir, name, version);
        return Some(join_path(d.as_str(), "baler.lock"));
    }
    let rel = render_components(&st);
    Some(join_path(install_dir, rel.as_str()))
}

/// Whether an archive entry with path components `cs` is the root-level
/// project file `file` (the one `read_toml`/`read_lock` look for).
pub fn is_root_file(cs: &Vec<String>, file: &str) -> (res: bool)
    ensures
        res == (spec_strip_top_level(views(cs@)) == seq![file@]),
{
    let st = strip_top_level(cs);
    is_single(&st, file)
}

/// Lemma: joining a first component onto a non-empty rest puts a `/`
/// between them.
pub proof fn lemma_render_cons(a: Seq<char>, r: Seq<Seq<char>>)
    ensures
        render(seq![a] + r) == if r.len() == 0 {
            a
        } else {
            a + "/"@ + render(r)
        },
    decreases r.len(),
{
    let x = seq![a] + r;
    if r.len() == 0 {
        assert(x =~= seq![a]);
        assert(render(x) == x[0]);
    } else if r.len() == 1 {
        assert(render(x) == render(x.drop_last()) + "/"@ + x.last());
        assert(render(seq![a]) == a);
        assert((seq![a] + r).drop_last() =~= seq![a]);
        assert((seq![a] + r).last() == r[0]);
        assert(render(r) == r[0]);
    } else {
        lemma_render_cons(a, r.drop_last());
        assert(render(x) == render(x.drop_last()) + "/"@ + x.last());
        assert((seq![a] + r).drop_last() =~= seq![a] + r.drop_last());
        assert((seq![a] + r).last() == r.last());
        assert(render(r) == render(r.drop_last()) + "/"@ + r.last());
        assert(a + "/"@ + render(r.drop_last()) + "/"@ + r.last() =~= a + "/"@ + (render(
            r.drop_last(),
        ) + "/"@ + r.last()));
    }
}

/// Round trip of a module file: the archive entry that bundling writes for
/// a module file with relative components `rel` is named by those components
/// under `{name}_{version}/{name}/`, and unpacking that entry puts the file at
/// `{install_dir}/{name}/{rel}`. This holds for a file named `baler.toml` or
/// `baler.lock` too: only the root-level project files are moved aside.
pub proof fn law_module_file_round_trip(
    install_dir: Seq<char>,
    name: Seq<char>,
    version: Seq<char>,
    rel: Seq<Seq<char>>,
)
    requires
        rel.len() > 0,
    ensures
        render(seq![top_dir(name, version), name] + rel) == module_entry_name(name, version, render(rel)),
        spec_unpack_destination(install_dir, name, version, seq![top_dir(name, version), name] + rel)
            == Some(spec_join(install_dir, name + "/"@ + render(rel))),
{
    let cs = seq![top_dir(name, version), name] + rel;
    assert(cs =~= seq![top_dir(name, version)] + (seq![name] + rel));
    lemma_render_cons(name, rel);
    lemma_render_cons(top_dir(name, version), seq![name] + rel);
    let st = spec_strip_top_level(cs);
    assert(st =~= seq![name] + rel);
    assert(st.len() >= 2);
    assert(st != seq!["."@]);
    assert(st != seq!["baler.toml"@]);
    assert(st != seq!["baler.lock"@]);
}

/// The project's `baler.toml` and `baler.lock` are written at the archive
/// root, and unpacking them puts them in the module's dist-info directory.
pub proof fn law_project_files_go_to_dist_info(install_dir: Seq<char>, name: Seq<char>, version: Seq<char>)
    ensures
        render(seq![top_dir(name, version), "baler.toml"@]) == root_entry_name(name, version, "baler.toml"@),
        spec_unpack_destination(install_dir, name, version, seq![top_dir(name, version), "baler.toml"@])
            == Some(spec_join(dist_info_dir(install_dir, name, version), "baler.toml"@)),
        render(seq![top_dir(name, version), "baler.lock"@]) == root_entry_name(name, version, "baler.lock"@),
        spec_unpack_destination(install_dir, name, version, seq![top_dir(name, version), "baler.lock"@])
            == Some(spec_join(dist_info_dir(install_dir, name, version), "baler.lock"@)),
{
    reveal_strlit("baler.toml");
    reveal_strlit("baler.lock");
    reveal_strlit(".");
    lemma_render_cons(top_dir(name, version), seq!["baler.toml"@]);
    lemma_render_cons(top_dir(name, version), seq!["baler.lock"@]);
    assert(seq![top_dir(name, version), "baler.toml"@] =~= seq![top_dir(name, version)] + seq!["baler.toml"@]);
    assert(seq![top_dir(name, version), "baler.lock"@] =~= seq![top_dir(name, version)] + seq!["baler.lock"@]);
    assert(spec_strip_top_level(seq![top_dir(name, version), "baler.toml"@]) =~= seq!["baler.toml"@]);
    assert(spec_strip_top_level(seq![top_dir(name, version), "baler.lock"@]) =~= seq!["baler.lock"@]);
    assert(seq!["baler.lock"@] != seq!["baler.toml"@]) by {
        assert("baler.lock"@[6] != "baler.toml"@[6]);
    }
    assert(seq!["baler.lock"@] != seq!["."@]) by {
        assert("baler.lock"@.len() != "."@.len());
    }
    assert(seq!["baler.toml"@] != seq!["."@]) by {
        assert("baler.toml"@.len() != "."@.len());
    }
}

/// The top-level directory entry itself is not unpacked anywhere.
pub proof fn law_top_dir_is_skipped(install_dir: Seq<char>, name: Seq<char>, version: Seq<char>)
    ensures
        spec_unpack_destination(install_dir, name, version, seq![top_dir(name, version)]) is None,
{
    assert(spec_strip_top_level(seq![top_dir(name, version)]) =~= Seq::<Seq<char>>::empty());
}

} // verus!

verus! {

/// A module file's archive name never equals that of a project file such as
/// `baler.toml` or `baler.lock`: project files sit at the archive root, and
/// every module file sits inside the `{name}/` directory, so a module file
/// that happens to be named like a project file cannot collide with it.
pub proof fn law_module_names_never_collide_with_project_files(
    name: Seq<char>,
    version: Seq<char>,
    rel: Seq<char>,
    file: Seq<char>,
)
    requires
        forall|k: int| 0 <= k < file.len() ==> file[k] != '/',
    ensures
        module_entry_name(name, version, rel) != root_entry_name(name, version, file),
{
    reveal_strlit("/");
    let t = top_dir(name, version) + "/"@;
    let a = module_entry_name(name, version, rel);
    let b = root_entry_name(name, version, file);
    assert(a =~= t + name + "/"@ + rel);
    assert(b =~= t + file);
    let idx = (t.len() + name.len()) as int;
    assert(a[idx] == '/');
    if a == b {
        assert(idx < b.len());
        assert(b[idx] == file[idx - t.len()]);
    }
}

} // verus!

verus! {

/// A bundled file that lies under no forced path has no hidden component
/// anywhere below the walked directory: no component of it below `base`
/// (or, for a file not under `base`, no component at all) is a dot-prefixed
/// name other than `.` and `..`.
pub proof fn law_bundled_files_have_no_hidden_part(
    walked: Seq<Option<(String, bool)>>,
    base: Seq<char>,
    exclude: Seq<Seq<char>>,
    force_include: Seq<Seq<char>>,
    i: int,
    k: int,
)
    requires
        0 <= i < selected(walked, base, exclude, force_include).len(),
    ensures
        ({
            let pc = std_components(selected(walked, base, exclude, force_include)[i]);
            let bc = std_components(base);
            let from = if bc.len() <= pc.len() && pc.subrange(0, bc.len() as int) == bc {
                bc.len() as int
            } else {
                0
            };
            !(exists|r: int|
                0 <= r < force_include.len() && std_components(force_include[r]).len() <= pc.len()
                    && pc.subrange(0, std_components(force_include[r]).len() as int) == std_components(
                    force_include[r],
                )) && from <= k < pc.len() ==> !(pc[k] != "."@ && pc[k] != ".."@ && pc[k].len() > 0
                && pc[k][0] == '.')
        }),
{
    let x = selected(walked, base, exclude, force_include)[i];
    law_selected_files_are_kept(walked, base, exclude, force_include, i);
    let j = choose|j: int|
        0 <= j < walked.len() && kept_entry(#[trigger] walked[j], x, base, exclude, force_include);
    let pc = std_components(x);
    let bc = std_components(base);
    let from = if bc.len() <= pc.len() && pc.subrange(0, bc.len() as int) == bc {
        bc.len() as int
    } else {
        0
    };
    let forced = exists|r: int|
        0 <= r < force_include.len() && std_components(force_include[r]).len() <= pc.len()
            && pc.subrange(0, std_components(force_include[r]).len() as int) == std_components(
            force_include[r],
        );
    if !forced && from <= k < pc.len() {
        assert(!under_any(pc, force_include)) by {
            if under_any(pc, force_include) {
                let r = choose|r: int|
                    0 <= r < force_include.len() && is_prefix_of(std_components(#[trigger] force_include[r]), pc);
                assert(std_components(force_include[r]).len() <= pc.len());
            }
        }
        let below = below_or_whole(pc, bc);
        assert(!has_hidden(below));
        assert(below[k - from] == pc[k]);
        if hidden_component(pc[k]) {
            assert(hidden_component(below[k - from]));
        }
    }
}

/// Leaving out more paths never adds a file to a bundle, and forcing more
/// paths in never drops one.
pub proof fn law_selection_monotone(
    walked: Seq<Option<(String, bool)>>,
    base: Seq<char>,
    exclude: Seq<Seq<char>>,
    more_exclude: Seq<Seq<char>>,
    force_include: Seq<Seq<char>>,
    more_force: Seq<Seq<char>>,
    x: Seq<char>,
)
    ensures
        selected(walked, base, exclude + more_exclude, force_include).contains(x) ==> selected(
            walked,
            base,
            exclude,
            force_include,
        ).contains(x),
        selected(walked, base, exclude, force_include).contains(x) ==> selected(
            walked,
            base,
            exclude,
            force_include + more_force,
        ).contains(x),
    decreases walked.len(),
{
    if walked.len() > 0 {
        let w = walked.drop_last();
        law_selection_monotone(w, base, exclude, more_exclude, force_include, more_force, x);
        match walked.last() {
            Some((p, f)) => {
                let pc = std_components(p@);
                if under_any(pc, exclude) {
                    let i = choose|i: int|
                        0 <= i < exclude.len() && is_prefix_of(std_components(#[trigger] exclude[i]), pc);
                    assert((exclude + more_exclude)[i] == exclude[i]);
                    assert(under_any(pc, exclude + more_exclude));
                }
                if under_any(pc, force_include) {
                    let i = choose|i: int|
                        0 <= i < force_include.len() && is_prefix_of(
                            std_components(#[trigger] force_include[i]),
                            pc,
                        );
                    assert((force_include + more_force)[i] == force_include[i]);
                    assert(under_any(pc, force_include + more_force));
                }
                let a = selected(walked, base, exclude + more_exclude, force_include);
                let b = selected(walked, base, exclude, force_include);
                let c = selected(walked, base, exclude, force_include + more_force);
                let ra = selected(w, base, exclude + more_exclude, force_include);
                let rb = selected(w, base, exclude, force_include);
                let rc = selected(w, base, exclude, force_include + more_force);
                if a.contains(x) {
                    let k = choose|k: int| 0 <= k < a.len() && a[k] == x;
                    if k < ra.len() {
                        assert(a[k] == ra[k]);
                        assert(ra.contains(x));
                        let j = choose|j: int| 0 <= j < rb.len() && rb[j] == x;
                        if keeps(p@, f, base, exclude, force_include) {
                            assert(b[j] == rb[j]);
                        }
                    } else {
                        assert(b.last() == x);
                    }
                }
                if b.contains(x) {
                    let k = choose|k: int| 0 <= k < b.len() && b[k] == x;
                    if k < rb.len() {
                        assert(b[k] == rb[k]);
                        assert(rb.contains(x));
                        let j = choose|j: int| 0 <= j < rc.len() && rc[j] == x;
                        if keeps(p@, f, base, exclude, force_include + more_force) {
                            assert(c[j] == rc[j]);
                        }
                    } else {
                        assert(c.last() == x);
                    }
                }
            },
            None => {},
        }
    }
}

/// A bundle of a plain walk (nothing left out, nothing forced in) lists
/// exactly the files `collect_files` names for that walk: the entry for the
/// `i`-th collected name is that file under `{name}_{version}/{name}/`, and
/// after them come only `baler.toml` and, when there is one, `baler.lock`.
pub proof fn law_bundle_lists_collected_files(
    walked: Seq<Option<(String, bool)>>,
    src: Seq<char>,
    project_root: Seq<char>,
    name: Seq<char>,
    version: Seq<char>,
    lock_exists: bool,
)
    requires
        walked_under(walked, src),
    ensures
        relative_names(selected(walked, src, Seq::empty(), Seq::empty()), src) matches Ok(names) && spec_bundle_entries(
            selected(walked, src, Seq::empty(), Seq::empty()),
            src,
            project_root,
            name,
            version,
            lock_exists,
        ) matches Ok(entries) && entries.len() == names.len() + 1 + (if lock_exists {
            1int
        } else {
            0int
        }) && (forall|i: int|
            0 <= i < names.len() ==> (#[trigger] entries[i]).1 == module_entry_name(name, version, names[i]))
            && entries[names.len() as int].1 == root_entry_name(name, version, "baler.toml"@),
{
    let files = selected(walked, src, Seq::empty(), Seq::empty());
    lemma_selected_under(walked, src, Seq::empty(), Seq::empty());
    lemma_relative_names_ok(files, src);
    lemma_relative_names_len(files, src);
}

/// The walked entry `e` is a file at `x` that the selection keeps.
pub open spec fn kept_entry(
    e: Option<(String, bool)>,
    x: Seq<char>,
    base: Seq<char>,
    exclude: Seq<Seq<char>>,
    force_include: Seq<Seq<char>>,
) -> bool {
    match e {
        Some((p, f)) => p@ == x && keeps(p@, f, base, exclude, force_include),
        None => false,
    }
}

/// Every bundled path is a walked file that the selection keeps: not under
/// an excluded path, and free of hidden components below `base` unless it
/// lies under a forced path.
pub proof fn law_selected_files_are_kept(
    walked: Seq<Option<(String, bool)>>,
    base: Seq<char>,
    exclude: Seq<Seq<char>>,
    force_include: Seq<Seq<char>>,
    i: int,
)
    requires
        0 <= i < selected(walked, base, exclude, force_include).len(),
    ensures
        exists|j: int|
            0 <= j < walked.len() && kept_entry(
                #[trigger] walked[j],
                selected(walked, base, exclude, force_include)[i],
                base,
                exclude,
                force_include,
            ),
    decreases walked.len(),
{
    let rest = selected(walked.drop_last(), base, exclude, force_include);
    if i < rest.len() {
        law_selected_files_are_kept(walked.drop_last(), base, exclude, force_include, i);
        let j = choose|j: int|
            0 <= j < walked.drop_last().len() && kept_entry(
                #[trigger] walked.drop_last()[j],
                rest[i],
                base,
                exclude,
                force_include,
            );
        assert(walked[j] == walked.drop_last()[j]);
    } else {
        let j = walked.len() - 1;
        assert(walked[j] == walked.last());
    }
}

} // verus!
