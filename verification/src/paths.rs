//! Filesystem paths, as the standard library's `std::path` reads them: a
//! path is handled as the sequence of its components, each as a string
//! (`"/"` for the root, `"."` for a leading current directory, `".."` for a
//! parent, and the name itself for a normal component).

use vstd::prelude::*;

use crate::text::{concat2, concat3, owned, str_eq};

verus! {

/// The components that `std::path::Path::components` finds in a path.
pub uninterp spec fn std_components(p: Seq<char>) -> Seq<Seq<char>>;

/// The parent that `std::path::Path::parent` finds for a path.
pub uninterp spec fn std_parent(p: Seq<char>) -> Option<Seq<char>>;

/// The final component that `std::path::Path::file_name` finds in a path.
pub uninterp spec fn std_file_name(p: Seq<char>) -> Option<Seq<char>>;

/// Calls `std::path::Path::parent` on `p`; claims only that the result is
/// the one `std` gives for this path (converted to a `String`).
#[verifier::external_body]
pub(crate) fn path_parent(p: &str) -> (res: Option<String>)
    ensures
        res.deep_view() == std_parent(p@),
{
    std::path::Path::new(p).parent().map(|q| q.to_string_lossy().into_owned())
}

/// Calls `std::path::Path::file_name` on `p`, as a `&str` borrowed from
/// `p`; claims only that the result is the one `std` gives for this path.
#[verifier::external_body]
pub(crate) fn path_file_name<'a>(p: &'a str) -> (res: Option<&'a str>)
    ensures
        match res {
            Some(f) => std_file_name(p@) == Some(f@),
            None => std_file_name(p@) is None,
        },
{
    std::path::Path::new(p).file_name().and_then(|f| f.to_str())
}

/// Calls `std::path::Path::is_dir` on `p`. Its answer depends on what is on
/// disk at the time of the call, so nothing is claimed of it.
#[verifier::external_body]
pub(crate) fn path_is_dir(p: &str) -> (res: bool) {
    std::path::Path::new(p).is_dir()
}

/// Calls `std::path::Path::exists` on `p`. Its answer depends on what is on
/// disk at the time of the call, so nothing is claimed of it.
#[verifier::external_body]
pub(crate) fn path_exists(p: &str) -> (res: bool) {
    std::path::Path::new(p).exists()
}

/// The views of a sequence of strings.
pub open spec fn views(v: Seq<String>) -> Seq<Seq<char>> {
    v.map_values(|s: String| s@)
}

/// Calls `std::path::Path::components` on `p` and turns each component into
/// the string it stands for; claims only that these are the components `std`
/// finds in this path.
#[verifier::external_body]
pub(crate) fn path_components(p: &str) -> (res: Vec<String>)
    ensures
        views(res@) == std_components(p@),
{
    std::path::Path::new(p).components().map(|c| c.as_os_str().to_string_lossy().into_owned()).collect()
}

/// `a` is a leading part of `b`, component by component (how
/// `Path::starts_with` and `Path::strip_prefix` compare paths).
pub open spec fn is_prefix_of(a: Seq<Seq<char>>, b: Seq<Seq<char>>) -> bool {
    a.len() <= b.len() && b.subrange(0, a.len() as int) == a
}

/// Whether the components `base` lead the components `p`.
pub fn starts_with_components(p: &Vec<String>, base: &Vec<String>) -> (res: bool)
    ensures
        res == is_prefix_of(views(base@), views(p@)),
{
    if base.len() > p.len() {
        return false;
    }
    let mut i: usize = 0;
    while i < base.len()
        invariant
            base@.len() <= p@.len(),
            i <= base@.len(),
            forall|j: int| 0 <= j < i ==> p@[j]@ == base@[j]@,
        decreases base@.len() - i,
    {
        if !str_eq(p[i].as_str(), base[i].as_str()) {
            assert(views(p@).subrange(0, base@.len() as int)[i as int] != views(base@)[i as int]);
            return false;
        }
        i = i + 1;
    }
    assert(views(p@).subrange(0, base@.len() as int) =~= views(base@));
    true
}

/// Copies of the strings `v[from..]`.
pub fn tail_from(v: &Vec<String>, from: usize) -> (res: Vec<String>)
    requires
        from <= v@.len(),
    ensures
        views(res@) == views(v@).subrange(from as int, v@.len() as int),
{
    let mut out: Vec<String> = Vec::new();
    let mut i: usize = from;
    while i < v.len()
        invariant
            from <= i <= v@.len(),
            views(out@) == views(v@).subrange(from as int, i as int),
        decreases v@.len() - i,
    {
        let ghost prev = out@;
        out.push(owned(v[i].as_str()));
        assert(views(out@) =~= views(prev).push(v@[i as int]@));
        assert(views(out@) =~= views(v@).subrange(from as int, i + 1));
        i = i + 1;
    }
    out
}

/// The components joined by `/`.
pub open spec fn render(cs: Seq<Seq<char>>) -> Seq<char>
    decreases cs.len(),
{
    if cs.len() == 0 {
        Seq::empty()
    } else if cs.len() == 1 {
        cs[0]
    } else {
        render(cs.drop_last()) + "/"@ + cs.last()
    }
}

/// The strings of `v` joined by `/`.
pub fn render_components(v: &Vec<String>) -> (res: String)
    ensures
        res@ == render(views(v@)),
{
    let mut out = String::new();
    let mut i: usize = 0;
    while i < v.len()
        invariant
            i <= v@.len(),
            out@ == render(views(v@).subrange(0, i as int)),
        decreases v@.len() - i,
    {
        if i > 0 {
            out.append("/");
        }
        out.append(v[i].as_str());
        assert(views(v@).subrange(0, i + 1).drop_last() =~= views(v@).subrange(0, i as int));
        i = i + 1;
    }
    assert(views(v@).subrange(0, v@.len() as int) =~= views(v@));
    out
}

/// `rel` appended to `base` the way `Path::push` appends a path: a path
/// that starts at the root replaces `base`, otherwise a `/` is put between
/// them unless `base` is empty or already ends with one.
pub open spec fn spec_join(base: Seq<char>, rel: Seq<char>) -> Seq<char> {
    if rel.len() > 0 && rel[0] == '/' {
        rel
    } else if base.len() == 0 || base.last() == '/' {
        base + rel
    } else {
        base + "/"@ + rel
    }
}

/// `rel` appended to `base` the way `Path::join` does.
pub fn join_path(base: &str, rel: &str) -> (res: String)
    ensures
        res@ == spec_join(base@, rel@),
{
    if rel.unicode_len() > 0 && rel.get_char(0) == '/' {
        return owned(rel);
    }
    let n = base.unicode_len();
    if n == 0 || base.get_char(n - 1) == '/' {
        concat2(base, rel)
    } else {
        concat3(base, "/", rel)
    }
}

} // verus!
