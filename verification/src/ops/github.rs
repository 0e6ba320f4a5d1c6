//! Reading GitHub URLs: repository URLs given with `--git`, and the
//! `source` of a `[project.dependencies.baler]` entry.

use vstd::prelude::*;

use crate::ops::install::InstallError;
use crate::paths::{join_path, spec_join};
use crate::text::{
    concat3, first_index, has_prefix, has_suffix, is_first, opt_view, owned, split_once, split_once_char, strip_prefix, trim_end_char,
    trim_end_matches_char, trim_end_matches_str, trim_end_seq,
};

verus! {

/// The part of `s` after `https://github.com/` or `http://github.com/`.
pub open spec fn after_github_host(s: Seq<char>) -> Option<Seq<char>> {
    if has_prefix(s, "https://github.com/"@) {
        Some(s.subrange("https://github.com/"@.len() as int, s.len() as int))
    } else if has_prefix(s, "http://github.com/"@) {
        Some(s.subrange("http://github.com/"@.len() as int, s.len() as int))
    } else {
        None
    }
}

/// Rust's `splitn(2, c)`: the piece before the first `c` (all of `s` when
/// there is none) and, when there is one, the rest after it.
pub open spec fn split2(s: Seq<char>, c: char) -> (Seq<char>, Option<Seq<char>>) {
    match split_once(s, c) {
        Some((a, b)) => (a, Some(b)),
        None => (s, None),
    }
}

/// Why a URL is not a GitHub repository URL.
pub enum RepoUrlProblem {
    NotGitHub,
    NotUserRepo,
}

/// The `(user, repo)` that a repository URL names: trailing slashes and
/// `.git` suffixes are dropped, the user is the first path segment and the
/// repository all that follows it; both must be non-empty.
pub open spec fn spec_github_repo(url: Seq<char>) -> Result<(Seq<char>, Seq<char>), RepoUrlProblem> {
    match after_github_host(url) {
        None => Err(RepoUrlProblem::NotGitHub),
        Some(rest) => {
            let t = trim_end_seq(trim_end_char(rest, '/'), ".git"@);
            let (user, repo) = split2(t, '/');
            if user.len() > 0 && repo is Some && repo->0.len() > 0 {
                Ok((user, repo->0))
            } else {
                Err(RepoUrlProblem::NotUserRepo)
            }
        },
    }
}

/// `s` with the GitHub host removed.
fn strip_github_host<'a>(s: &'a str) -> (res: Option<&'a str>)
    ensures
        match after_github_host(s@) {
            Some(r) => res matches Some(x) && x@ == r,
            None => res is None,
        },
{
    match strip_prefix(s, "https://github.com/") {
        Some(r) => Some(r),
        None => strip_prefix(s, "http://github.com/"),
    }
}

/// Rust's `splitn(2, c)` on `s`.
fn split_in_two<'a>(s: &'a str, c: char) -> (res: (&'a str, Option<&'a str>))
    ensures
        res.0@ == split2(s@, c).0,
        match split2(s@, c).1 {
            Some(b) => res.1 matches Some(x) && x@ == b,
            None => res.1 is None,
        },
{
    match split_once_char(s, c) {
        Some((a, b)) => (a, Some(b)),
        None => (s, None),
    }
}

/// Parses a bare GitHub repository URL (`https://github.com/user/repo`,
/// trailing slash or `.git` suffix tolerated) into `(user, repo)`.
pub fn parse_github_repo_url(url: &str) -> (res: Result<(String, String), InstallError>)
    ensures
        match spec_github_repo(url@) {
            Ok((u, r)) => res matches Ok((ru, rr)) && ru@ == u && rr@ == r,
            Err(RepoUrlProblem::NotGitHub) => res matches Err(InstallError::NotGitHubUrl(e))
                && e@ == url@,
            Err(RepoUrlProblem::NotUserRepo) => res matches Err(
                InstallError::BadGitHubRepoUrl(e),
            ) && e@ == url@,
        },
{
    let rest = match strip_github_host(url) {
        Some(r) => r,
        None => return Err(InstallError::NotGitHubUrl(owned(url))),
    };
    let rest = trim_end_matches_char(rest, '/');
    proof {
        reveal_strlit(".git");
    }
    let rest = trim_end_matches_str(rest, ".git");
    let (user, repo) = split_in_two(rest, '/');
    match repo {
        Some(r) => {
            if user.unicode_len() > 0 && r.unicode_len() > 0 {
                Ok((owned(user), owned(r)))
            } else {
                Err(InstallError::BadGitHubRepoUrl(owned(url)))
            }
        },
        None => Err(InstallError::BadGitHubRepoUrl(owned(url))),
    }
}

/// What the `source` of a module dependency names: a repository URL, a
/// directory inside that repository, and a git ref.
pub struct ModuleSource {
    pub repo_url: String,
    pub subpath: Option<String>,
    pub git_ref: Option<String>,
}

/// `Some(s)` when `s` is non-empty.
pub open spec fn non_empty(s: Seq<char>) -> Option<Seq<char>> {
    if s.len() > 0 {
        Some(s)
    } else {
        None
    }
}

/// The `(ref, subpath)` that the part of a source after the repository names:
/// `tree/<ref>/<subpath>` names both, anything else names a subpath alone.
pub open spec fn spec_ref_and_subpath(after_repo: Option<Seq<char>>) -> (
    Option<Seq<char>>,
    Option<Seq<char>>,
) {
    match after_repo {
        Some(after) => if has_prefix(after, "tree/"@) {
            let tree_rest = after.subrange("tree/"@.len() as int, after.len() as int);
            let (r, sub) = split2(tree_rest, '/');
            (non_empty(r), match sub {
                Some(x) => non_empty(x),
                None => None,
            })
        } else {
            (None, non_empty(after))
        },
        None => (None, None),
    }
}

/// Why a module source cannot be fetched.
pub enum SourceProblem {
    Unsupported,
    Invalid,
}

/// What a module dependency's `source` names: the repository URL rebuilt as
/// `https://github.com/<user>/<repo>`, the subpath and the ref.
pub open spec fn spec_module_source(source: Seq<char>) -> Result<
    (Seq<char>, Option<Seq<char>>, Option<Seq<char>>),
    SourceProblem,
> {
    match after_github_host(source) {
        None => Err(SourceProblem::Unsupported),
        Some(rest) => {
            let (user, remainder) = split2(rest, '/');
            let remainder = match remainder {
                Some(x) => x,
                None => Seq::empty(),
            };
            let (repo, after_repo) = split2(remainder, '/');
            if user.len() == 0 || repo.len() == 0 {
                Err(SourceProblem::Invalid)
            } else {
                let (git_ref, subpath) = spec_ref_and_subpath(after_repo);
                Ok(("https://github.com/"@ + user + "/"@ + repo, subpath, git_ref))
            }
        },
    }
}

/// `Some(owned s)` when `s` is non-empty.
fn non_empty_owned(s: &str) -> (res: Option<String>)
    ensures
        opt_view(res) == non_empty(s@),
{
    if s.unicode_len() > 0 {
        Some(owned(s))
    } else {
        None
    }
}

/// Reads the `source` of a `[project.dependencies.baler]` entry, which may
/// embed `/tree/<ref>/<subpath>` after the repository.
pub fn parse_module_dep_source(source: &str) -> (res: Result<ModuleSource, InstallError>)
    ensures
        match spec_module_source(source@) {
            Ok((u, sub, r)) => res matches Ok(m) && m.repo_url@ == u && opt_view(m.subpath)
                == sub && opt_view(m.git_ref) == r,
            Err(SourceProblem::Unsupported) => res matches Err(
                InstallError::UnsupportedModuleSource(e),
            ) && e@ == source@,
            Err(SourceProblem::Invalid) => res matches Err(InstallError::InvalidGitHubSource(e))
                && e@ == source@,
        },
{
    let rest = match strip_github_host(source) {
        Some(r) => r,
        None => return Err(InstallError::UnsupportedModuleSource(owned(source))),
    };
    let (user, remainder) = split_in_two(rest, '/');
    let remainder = match remainder {
        Some(x) => x,
        None => "",
    };
    proof {
        reveal_strlit("");
    }
    let (repo, after_repo) = split_in_two(remainder, '/');
    if user.unicode_len() == 0 || repo.unicode_len() == 0 {
        return Err(InstallError::InvalidGitHubSource(owned(source)));
    }
    let (git_ref, subpath) = match after_repo {
        Some(after) => match strip_prefix(after, "tree/") {
            Some(tree_rest) => {
                let (r, sub) = split_in_two(tree_rest, '/');
                let sub = match sub {
                    Some(x) => non_empty_owned(x),
                    None => None,
                };
                (non_empty_owned(r), sub)
            },
            None => (None, non_empty_owned(after)),
        },
        None => (None, None),
    };
    let mut repo_url = concat3("https://github.com/", user, "/");
    repo_url.append(repo);
    Ok(ModuleSource { repo_url, subpath, git_ref })
}

/// The GitHub API URL of a repository's tarball at a ref (the default branch
/// when no ref is given).
pub open spec fn spec_tarball_url(user: Seq<char>, repo: Seq<char>, git_ref: Option<Seq<char>>) -> Seq<
    char,
> {
    let base = "https://api.github.com/repos/"@ + user + "/"@ + repo + "/tarball"@;
    match git_ref {
        Some(r) => base + "/"@ + r,
        None => base,
    }
}

/// Builds the GitHub API tarball URL for `user/repo` at `git_ref`.
pub fn tarball_url(user: &str, repo: &str, git_ref: Option<&str>) -> (res: String)
    ensures
        res@ == spec_tarball_url(
            user@,
            repo@,
            match git_ref {
                Some(r) => Some(r@),
                None => None,
            },
        ),
{
    let mut u = concat3("https://api.github.com/repos/", user, "/");
    u.append(repo);
    u.append("/tarball");
    match git_ref {
        Some(r) => {
            u.append("/");
            u.append(r);
        },
        None => {},
    }
    u
}

/// `res` is what fetching the module dependency source `source` downloads:
/// the tarball of the repository the source names, at its ref, and the
/// subpath inside it.
pub open spec fn source_download_result(
    res: Result<(String, Option<String>), InstallError>,
    source: Seq<char>,
) -> bool {
    match spec_module_source(source) {
        Err(SourceProblem::Unsupported) => res matches Err(InstallError::UnsupportedModuleSource(e))
            && e@ == source,
        Err(SourceProblem::Invalid) => res matches Err(InstallError::InvalidGitHubSource(e)) && e@
            == source,
        Ok((repo_url, sub, git_ref)) => match spec_github_repo(repo_url) {
            Ok((u, r)) => res matches Ok((url, s)) && url@ == spec_tarball_url(u, r, git_ref)
                && opt_view(s) == sub,
            Err(RepoUrlProblem::NotGitHub) => res matches Err(InstallError::NotGitHubUrl(e)) && e@
                == repo_url,
            Err(RepoUrlProblem::NotUserRepo) => res matches Err(InstallError::BadGitHubRepoUrl(e))
                && e@ == repo_url,
        },
    }
}

/// Works out what to download for a module dependency's `source`: the
/// repository tarball at the source's ref, and the directory inside it.
pub fn module_source_tarball(source: &str) -> (res: Result<(String, Option<String>), InstallError>)
    ensures
        source_download_result(res, source@),
{
    let m = parse_module_dep_source(source)?;
    let (user, repo) = parse_github_repo_url(m.repo_url.as_str())?;
    let r = match &m.git_ref {
        Some(x) => Some(x.as_str()),
        None => None,
    };
    let url = tarball_url(user.as_str(), repo.as_str(), r);
    Ok((url, m.subpath))
}

/// The single top-level directory of an extracted archive.
pub fn single_subdir(mut dirs: Vec<String>) -> (res: Result<String, InstallError>)
    ensures
        dirs@.len() == 0 ==> res == Err::<String, InstallError>(InstallError::EmptyArchive),
        dirs@.len() == 1 ==> res == Ok::<String, InstallError>(dirs@[0]),
        dirs@.len() > 1 ==> res == Err::<String, InstallError>(InstallError::MultipleTopLevelDirs),
{
    if dirs.len() == 0 {
        Err(InstallError::EmptyArchive)
    } else if dirs.len() == 1 {
        Ok(dirs.pop().unwrap())
    } else {
        Err(InstallError::MultipleTopLevelDirs)
    }
}

/// Where the module sits in an extracted archive: the `module_dir` inside
/// its root, or the root itself.
pub fn module_root_in(extracted_root: &str, module_dir: Option<&str>) -> (res: String)
    ensures
        res@ == match module_dir {
            Some(d) => spec_join(extracted_root@, d@),
            None => extracted_root@,
        },
{
    match module_dir {
        Some(d) => join_path(extracted_root, d),
        None => owned(extracted_root),
    }
}

/// Checks a downloaded module's directory, given whether it exists and
/// whether it holds a `baler.toml`.
pub fn check_module_root(
    project_root: &str,
    module_dir: Option<&str>,
    root_exists: bool,
    has_manifest: bool,
) -> (res: Result<(), InstallError>)
    ensures
        !root_exists ==> match module_dir {
            Some(d) => res matches Err(InstallError::DirNotInArchive(e)) && e@ == d@,
            None => res matches Err(InstallError::ArchiveRootMissing),
        },
        root_exists && !has_manifest ==> (res matches Err(InstallError::NotABalerModule(e)) && e@
            == project_root@),
        root_exists && has_manifest ==> res is Ok,
{
    if !root_exists {
        return match module_dir {
            Some(d) => Err(InstallError::DirNotInArchive(owned(d))),
            None => Err(InstallError::ArchiveRootMissing),
        };
    }
    if !has_manifest {
        return Err(InstallError::NotABalerModule(owned(project_root)));
    }
    Ok(())
}

} // verus!

verus! {

/// The first `c` in `a + [c] + b`, when `a` has none, is at `a.len()`.
proof fn lemma_first_index_at(a: Seq<char>, c: char, b: Seq<char>)
    requires
        forall|k: int| 0 <= k < a.len() ==> a[k] != c,
    ensures
        first_index(a + seq![c] + b, c) == Some(a.len() as int),
        split2(a + seq![c] + b, c) == (a, Some(b)),
{
    let s = a + seq![c] + b;
    assert(is_first(s, c, a.len() as int));
    let k = choose|k: int| is_first(s, c, k);
    if k < a.len() {
        assert(s[k] == a[k]);
    } else if k > a.len() {
        assert(s[a.len() as int] == c);
    }
    assert(s.subrange(0, a.len() as int) =~= a);
    assert(s.subrange(a.len() as int + 1, s.len() as int) =~= b);
}

/// `x` ends with `.git` only if `r`, its part after a `/`, does.
proof fn lemma_no_git_suffix(u: Seq<char>, r: Seq<char>)
    requires
        !has_suffix(r, ".git"@),
    ensures
        !has_suffix(u + "/"@ + r, ".git"@),
{
    reveal_strlit(".git");
    reveal_strlit("/");
    let x = u + "/"@ + r;
    if has_suffix(x, ".git"@) {
        if r.len() >= 4 {
            assert(x.subrange(x.len() - 4, x.len() as int) =~= r.subrange(r.len() - 4, r.len() as int));
        } else {
            let idx = 3 - r.len();
            assert(x.subrange(x.len() - 4, x.len() as int)[idx] == x[x.len() - 4 + idx]);
            assert(x[u.len() as int] == '/');
            assert(".git"@[idx] != '/');
        }
    }
}

/// A repository URL names `user/repo` whether or not it ends with a slash
/// or with `.git`.
pub proof fn law_repo_url_suffixes_tolerated(u: Seq<char>, r: Seq<char>)
    requires
        u.len() > 0,
        forall|k: int| 0 <= k < u.len() ==> u[k] != '/',
        r.len() > 0,
        r.last() != '/',
        !has_suffix(r, ".git"@),
    ensures
        spec_github_repo("https://github.com/"@ + u + "/"@ + r) == Ok::<_, RepoUrlProblem>((u, r)),
        spec_github_repo("https://github.com/"@ + u + "/"@ + r + "/"@) == Ok::<_, RepoUrlProblem>((u, r)),
        spec_github_repo("https://github.com/"@ + u + "/"@ + r + ".git"@) == Ok::<_, RepoUrlProblem>((u, r)),
{
    reveal_strlit("/");
    reveal_strlit(".git");
    reveal_strlit("https://github.com/");
    let h = "https://github.com/"@;
    let x = u + "/"@ + r;
    lemma_no_git_suffix(u, r);
    assert(x =~= u + seq!['/'] + r);
    lemma_first_index_at(u, '/', r);
    assert(x.last() == r.last());
    assert(trim_end_char(x, '/') == x);
    assert(trim_end_seq(x, ".git"@) == x);
    // no suffix
    let s0 = h + x;
    assert(s0.subrange(0, h.len() as int) =~= h);
    assert(s0.subrange(h.len() as int, s0.len() as int) =~= x);
    // trailing slash
    let s1 = h + x + "/"@;
    assert(s1.subrange(0, h.len() as int) =~= h);
    let rest1 = s1.subrange(h.len() as int, s1.len() as int);
    assert(rest1 =~= x + "/"@);
    assert(rest1.drop_last() =~= x);
    assert(trim_end_char(rest1, '/') == trim_end_char(x, '/'));
    assert(h + u + "/"@ + r + "/"@ =~= s1);
    // .git suffix
    let s2 = h + x + ".git"@;
    assert(s2.subrange(0, h.len() as int) =~= h);
    let rest2 = s2.subrange(h.len() as int, s2.len() as int);
    assert(rest2 =~= x + ".git"@);
    assert(rest2.last() == 't');
    assert(trim_end_char(rest2, '/') == rest2);
    assert(rest2.subrange(rest2.len() - 4, rest2.len() as int) =~= ".git"@);
    assert(rest2.subrange(0, rest2.len() - 4) =~= x);
    assert(trim_end_seq(rest2, ".git"@) == trim_end_seq(x, ".git"@));
    assert(h + u + "/"@ + r + ".git"@ =~= s2);
    assert(h + u + "/"@ + r =~= s0);
}

} // verus!

verus! {

/// A module dependency's `source` names the repository `user/repo`, and
/// `/tree/<ref>/<subpath>` after it names a ref and a directory inside that
/// repository; with nothing after the repository it names neither.
pub proof fn law_module_source_forms(u: Seq<char>, r: Seq<char>, git_ref: Seq<char>, sub: Seq<char>)
    requires
        u.len() > 0,
        r.len() > 0,
        git_ref.len() > 0,
        sub.len() > 0,
        forall|k: int| 0 <= k < u.len() ==> u[k] != '/',
        forall|k: int| 0 <= k < r.len() ==> r[k] != '/',
        forall|k: int| 0 <= k < git_ref.len() ==> git_ref[k] != '/',
    ensures
        spec_module_source("https://github.com/"@ + u + "/"@ + r) == Ok::<_, SourceProblem>(
            ("https://github.com/"@ + u + "/"@ + r, None::<Seq<char>>, None::<Seq<char>>),
        ),
        spec_module_source("https://github.com/"@ + u + "/"@ + r + "/tree/"@ + git_ref + "/"@ + sub)
            == Ok::<_, SourceProblem>(("https://github.com/"@ + u + "/"@ + r, Some(sub), Some(git_ref))),
{
    reveal_strlit("/");
    reveal_strlit("/tree/");
    reveal_strlit("tree/");
    reveal_strlit("https://github.com/");
    let h = "https://github.com/"@;
    // no ref, no subpath
    let s0 = h + u + "/"@ + r;
    assert(s0.subrange(0, h.len() as int) =~= h);
    let rest0 = s0.subrange(h.len() as int, s0.len() as int);
    assert(rest0 =~= u + seq!['/'] + r);
    lemma_first_index_at(u, '/', r);
    assert forall|k: int| 0 <= k < r.len() implies r[k] != '/' by {}
    assert(first_index(r, '/') is None) by {
        if exists|i: int| is_first(r, '/', i) {
            let i = choose|i: int| is_first(r, '/', i);
            assert(r[i] != '/');
        }
    }
    assert(split2(r, '/') == (r, None::<Seq<char>>));
    // with a ref and a subpath
    let tail = "tree/"@ + git_ref + "/"@ + sub;
    let s1 = h + u + "/"@ + r + "/tree/"@ + git_ref + "/"@ + sub;
    assert(s1.subrange(0, h.len() as int) =~= h);
    let rest1 = s1.subrange(h.len() as int, s1.len() as int);
    assert(rest1 =~= u + seq!['/'] + (r + seq!['/'] + tail));
    lemma_first_index_at(u, '/', r + seq!['/'] + tail);
    lemma_first_index_at(r, '/', tail);
    assert(has_prefix(tail, "tree/"@)) by {
        assert(tail.subrange(0, 5) =~= "tree/"@);
    }
    let tree_rest = tail.subrange(5, tail.len() as int);
    assert(tree_rest =~= git_ref + seq!['/'] + sub);
    lemma_first_index_at(git_ref, '/', sub);
}

/// A module source written with `http://github.com/` names the same
/// repository, ref and subpath as the same source written with
/// `https://github.com/`, whatever follows the host.
pub proof fn law_http_sources_read_as_https(x: Seq<char>)
    ensures
        spec_module_source("http://github.com/"@ + x) == spec_module_source("https://github.com/"@ + x),
{
    reveal_strlit("http://github.com/");
    reveal_strlit("https://github.com/");
    let h = "http://github.com/"@;
    let hs = "https://github.com/"@;
    assert(!has_prefix(h + x, hs)) by {
        if h.len() + x.len() >= hs.len() {
            assert((h + x).subrange(0, hs.len() as int)[4] != hs[4]);
        }
    }
    assert((h + x).subrange(0, h.len() as int) =~= h);
    assert((h + x).subrange(h.len() as int, (h + x).len() as int) =~= x);
    assert((hs + x).subrange(0, hs.len() as int) =~= hs);
    assert((hs + x).subrange(hs.len() as int, (hs + x).len() as int) =~= x);
    assert(after_github_host(h + x) == Some(x));
    assert(after_github_host(hs + x) == Some(x));
}

} // verus!
