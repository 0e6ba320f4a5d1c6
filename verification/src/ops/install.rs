//! Deciding where a module comes from before it is installed.

use vstd::prelude::*;

use crate::ops::github::{
    parse_github_repo_url, spec_github_repo, spec_tarball_url, tarball_url, RepoUrlProblem,
};
use crate::paths::path_is_dir;
use crate::text::{concat3, ends_with, has_suffix, opt_view, owned};

verus! {

/// Everything `install` needs. The command line already keeps the source
/// flags apart; this module checks the combinations again, since a library
/// caller can build a request directly.
pub struct InstallRequest {
    /// A bare module name for a registry lookup, nothing else.
    pub source: Option<String>,
    /// Registry URL for a bare-name lookup. Only meaningful with `source`.
    pub repo: Option<String>,
    /// Version constraint for a bare-name lookup. Only meaningful with `source`.
    pub version: Option<String>,
    /// Local directory or `.tar.gz`.
    pub path: Option<String>,
    /// A GitHub repository URL, e.g. `https://github.com/user/repo`.
    pub git: Option<String>,
    pub branch: Option<String>,
    pub tag: Option<String>,
    pub rev: Option<String>,
    /// A direct tarball URL, e.g. a GitHub Release asset.
    pub url: Option<String>,
    /// Directory within a `--git` repo that holds the module.
    pub module_dir: Option<String>,
}

/// Where a module is to be installed from.
pub enum InstallSource {
    Tar(String),
    Dir(String),
    GitHub { url: String, module_dir: Option<String>, git_ref: Option<String> },
    Url(String),
    Registry { name: String, repo: String, version: Option<String> },
}

/// Why an install cannot go ahead.
pub enum InstallError {
    NothingToInstall,
    ConflictingSources,
    UrlFlagsDontApply,
    GitRegistryFlags,
    ConflictingRefs,
    PathFlagsDontApply,
    NotDirOrArchive(String),
    NameFlagsDontApply,
    ReservedName(String),
    RegistryUnavailable { name: String, repo: String },
    UrlNotTarGz(String),
    NotGitHubUrl(String),
    BadGitHubRepoUrl(String),
    UnsupportedModuleSource(String),
    InvalidGitHubSource(String),
    EmptyArchive,
    MultipleTopLevelDirs,
    DirNotInArchive(String),
    ArchiveRootMissing,
    NotABalerModule(String),
}

pub open spec fn flag(o: Option<String>) -> int {
    if o is Some {
        1
    } else {
        0
    }
}

/// How many of the four mutually exclusive sources the request names.
pub open spec fn source_count(r: InstallRequest) -> int {
    flag(r.source) + flag(r.path) + flag(r.git) + flag(r.url)
}

/// How many of the three git refs the request names.
pub open spec fn ref_count(r: InstallRequest) -> int {
    flag(r.branch) + flag(r.tag) + flag(r.rev)
}

pub open spec fn has_registry_flags(r: InstallRequest) -> bool {
    r.repo is Some || r.version is Some
}

pub open spec fn has_git_flags(r: InstallRequest) -> bool {
    r.branch is Some || r.tag is Some || r.rev is Some || r.module_dir is Some
}

/// The first of branch, tag and rev that is given.
pub open spec fn chosen_ref(r: InstallRequest) -> Option<String> {
    if r.branch is Some {
        r.branch
    } else if r.tag is Some {
        r.tag
    } else {
        r.rev
    }
}

/// Whether resolving the request turns on whether its `path` is a
/// directory: it names exactly one source, that source is a `path`, and no
/// flag that does not apply to a path is given.
pub open spec fn asks_disk(r: InstallRequest) -> bool {
    source_count(r) == 1 && r.path is Some && !has_registry_flags(r) && !has_git_flags(r)
}

/// The source a request resolves to, given whether its `path` names a
/// directory. A path that is not a directory must end in `.tar.gz`.
pub open spec fn spec_resolve_source(r: InstallRequest, path_is_dir: bool) -> Result<
    InstallSource,
    InstallError,
> {
    if source_count(r) == 0 {
        Err(InstallError::NothingToInstall)
    } else if source_count(r) > 1 {
        Err(InstallError::ConflictingSources)
    } else if r.url is Some {
        if has_registry_flags(r) || has_git_flags(r) {
            Err(InstallError::UrlFlagsDontApply)
        } else {
            Ok(InstallSource::Url(r.url->0))
        }
    } else if r.git is Some {
        if has_registry_flags(r) {
            Err(InstallError::GitRegistryFlags)
        } else if ref_count(r) > 1 {
            Err(InstallError::ConflictingRefs)
        } else {
            Ok(InstallSource::GitHub { url: r.git->0, module_dir: r.module_dir, git_ref: chosen_ref(r) })
        }
    } else if r.path is Some {
        if has_registry_flags(r) || has_git_flags(r) {
            Err(InstallError::PathFlagsDontApply)
        } else if path_is_dir {
            Ok(InstallSource::Dir(r.path->0))
        } else if has_suffix(r.path->0@, ".tar.gz"@) {
            Ok(InstallSource::Tar(r.path->0))
        } else {
            Err(InstallError::NotDirOrArchive(r.path->0))
        }
    } else if has_git_flags(r) {
        Err(InstallError::NameFlagsDontApply)
    } else {
        match r.repo {
            Some(repo) => Ok(
                InstallSource::Registry { name: r.source->0, repo: repo, version: r.version },
            ),
            None => Err(InstallError::ReservedName(r.source->0)),
        }
    }
}

/// Resolves a request, given whether its `path` names a directory.
pub fn resolve_source_with(req: InstallRequest, path_is_dir: bool) -> (res: Result<InstallSource, InstallError>)
    ensures
        res == spec_resolve_source(req, path_is_dir),
{
    let ghost r = req;
    let n = (if req.source.is_some() { 1usize } else { 0 }) + (if req.path.is_some() { 1usize } else { 0 })
        + (if req.git.is_some() { 1usize } else { 0 }) + (if req.url.is_some() { 1usize } else { 0 });
    if n == 0 {
        return Err(InstallError::NothingToInstall);
    }
    if n > 1 {
        return Err(InstallError::ConflictingSources);
    }
    let registry_flags = req.repo.is_some() || req.version.is_some();
    let git_flags = req.branch.is_some() || req.tag.is_some() || req.rev.is_some()
        || req.module_dir.is_some();
    if let Some(url) = req.url {
        if registry_flags || git_flags {
            return Err(InstallError::UrlFlagsDontApply);
        }
        return Ok(InstallSource::Url(url));
    }
    if let Some(url) = req.git {
        if registry_flags {
            return Err(InstallError::GitRegistryFlags);
        }
        let refs = (if req.branch.is_some() { 1usize } else { 0 }) + (if req.tag.is_some() { 1usize } else { 0 })
            + (if req.rev.is_some() { 1usize } else { 0 });
        if refs > 1 {
            return Err(InstallError::ConflictingRefs);
        }
        let git_ref = if req.branch.is_some() {
            req.branch
        } else if req.tag.is_some() {
            req.tag
        } else {
            req.rev
        };
        return Ok(InstallSource::GitHub { url, module_dir: req.module_dir, git_ref });
    }
    if let Some(p) = req.path {
        if registry_flags || git_flags {
            return Err(InstallError::PathFlagsDontApply);
        }
        if path_is_dir {
            return Ok(InstallSource::Dir(p));
        }
        if ends_with(p.as_str(), ".tar.gz") {
            return Ok(InstallSource::Tar(p));
        }
        return Err(InstallError::NotDirOrArchive(p));
    }
    if git_flags {
        return Err(InstallError::NameFlagsDontApply);
    }
    match req.source {
        Some(s) => match req.repo {
            Some(repo) => Ok(InstallSource::Registry { name: s, repo, version: req.version }),
            None => Err(InstallError::ReservedName(s)),
        },
        None => Err(InstallError::NothingToInstall),
    }
}

/// Whether resolving `req` turns on the filesystem.
pub fn needs_disk(req: &InstallRequest) -> (res: bool)
    ensures
        res == asks_disk(*req),
{
    let n = (if req.source.is_some() { 1usize } else { 0 }) + (if req.path.is_some() { 1usize } else { 0 })
        + (if req.git.is_some() { 1usize } else { 0 }) + (if req.url.is_some() { 1usize } else { 0 });
    n == 1 && req.path.is_some() && !(req.repo.is_some() || req.version.is_some()) && !(req.branch.is_some()
        || req.tag.is_some() || req.rev.is_some() || req.module_dir.is_some())
}

/// Whether the filesystem says the request's `path` is a directory; asked
/// only when the resolution turns on it.
fn path_answer(req: &InstallRequest) -> (res: bool)
    ensures
        !asks_disk(*req) ==> !res,
{
    if needs_disk(req) {
        match &req.path {
            Some(p) => path_is_dir(p.as_str()),
            None => false,
        }
    } else {
        false
    }
}

/// Resolves a request. Only when it names a single `path` and nothing that
/// does not apply to one is the filesystem asked whether that path is a
/// directory; the answer is not known here, so the result is then the
/// resolution for one of the two possible answers.
pub fn resolve_source(req: InstallRequest) -> (res: Result<InstallSource, InstallError>)
    ensures
        !asks_disk(req) ==> res == spec_resolve_source(req, false),
        asks_disk(req) ==> exists|d: bool| res == #[trigger] spec_resolve_source(req, d),
{
    let is_dir = path_answer(&req);
    resolve_source_with(req, is_dir)
}


impl InstallError {
    /// The text that tells a user what went wrong.
    pub open spec fn spec_message(self) -> Seq<char> {
        match self {
            InstallError::NothingToInstall => "Nothing to install. Pass a module name, --path <dir-or-tar.gz>, --git <url>, or --url <tarball>."@,
            InstallError::ConflictingSources => "A module source can only come from one place: a bare name, --path, --git, or --url, not more than one."@,
            InstallError::UrlFlagsDontApply => "--url fetches an already-bundled archive directly, --repo/--version/--branch/--tag/--rev/--module-dir don't apply to it."@,
            InstallError::GitRegistryFlags => "--repo/--version apply to a registry lookup, not --git."@,
            InstallError::ConflictingRefs => "--branch, --tag, and --rev are mutually exclusive, pick one ref."@,
            InstallError::PathFlagsDontApply => "--repo/--version/--branch/--tag/--rev/--module-dir don't apply to --path."@,
            InstallError::NotDirOrArchive(p) => "--path expects a directory or a .tar.gz, got '"@ + p@ + "'."@,
            InstallError::NameFlagsDontApply => "--branch/--tag/--rev/--module-dir only apply to --git, not a registry name."@,
            InstallError::ReservedName(s) => "'"@ + s@ + "' looks like a module name. Use --repo <url> for a registry, --path for a local module, --git <url>, or --url <tarball> instead."@,
            InstallError::RegistryUnavailable { name, repo } => "Cannot look up '"@ + name@ + "' in "@ + repo@ + ": registries aren't implemented yet."@,
            InstallError::UrlNotTarGz(u) => "--url expects a .tar.gz archive, the format `baler bundle` produces, got '"@ + u@ + "'."@,
            InstallError::NotGitHubUrl(u) => "--git expects a github.com URL, got '"@ + u@ + "'"@,
            InstallError::BadGitHubRepoUrl(u) => "--git expects https://github.com/user/repo, got '"@ + u@ + "'"@,
            InstallError::UnsupportedModuleSource(s) => "Unsupported module source '"@ + s@ + "', only github.com URLs can be fetched right now."@,
            InstallError::InvalidGitHubSource(s) => "Invalid GitHub source '"@ + s@ + "'"@,
            InstallError::EmptyArchive => "Extracted archive is empty"@,
            InstallError::MultipleTopLevelDirs => "Expected one top-level directory in archive, found multiple"@,
            InstallError::DirNotInArchive(d) => "Directory '"@ + d@ + "' not found in the downloaded archive"@,
            InstallError::ArchiveRootMissing => "Extracted archive root does not exist"@,
            InstallError::NotABalerModule(p) => "No baler.toml found at "@ + p@ + ". This source is not a baler module."@,
        }
    }

    /// The text that tells a user what went wrong.
    pub fn message(&self) -> (res: String)
        ensures
            res@ == self.spec_message(),
    {
        match self {
            InstallError::NothingToInstall => owned("Nothing to install. Pass a module name, --path <dir-or-tar.gz>, --git <url>, or --url <tarball>."),
            InstallError::ConflictingSources => owned("A module source can only come from one place: a bare name, --path, --git, or --url, not more than one."),
            InstallError::UrlFlagsDontApply => owned("--url fetches an already-bundled archive directly, --repo/--version/--branch/--tag/--rev/--module-dir don't apply to it."),
            InstallError::GitRegistryFlags => owned("--repo/--version apply to a registry lookup, not --git."),
            InstallError::ConflictingRefs => owned("--branch, --tag, and --rev are mutually exclusive, pick one ref."),
            InstallError::PathFlagsDontApply => owned("--repo/--version/--branch/--tag/--rev/--module-dir don't apply to --path."),
            InstallError::NotDirOrArchive(p) => concat3("--path expects a directory or a .tar.gz, got '", p.as_str(), "'."),
            InstallError::NameFlagsDontApply => owned("--branch/--tag/--rev/--module-dir only apply to --git, not a registry name."),
            InstallError::ReservedName(s) => concat3("'", s.as_str(), "' looks like a module name. Use --repo <url> for a registry, --path for a local module, --git <url>, or --url <tarball> instead."),
            InstallError::RegistryUnavailable { name, repo } => {
                let mut m = concat3("Cannot look up '", name.as_str(), "' in ");
                m.append(repo.as_str());
                m.append(": registries aren't implemented yet.");
                m
            },
            InstallError::UrlNotTarGz(u) => concat3("--url expects a .tar.gz archive, the format `baler bundle` produces, got '", u.as_str(), "'."),
            InstallError::NotGitHubUrl(u) => concat3("--git expects a github.com URL, got '", u.as_str(), "'"),
            InstallError::BadGitHubRepoUrl(u) => concat3("--git expects https://github.com/user/repo, got '", u.as_str(), "'"),
            InstallError::UnsupportedModuleSource(s) => concat3("Unsupported module source '", s.as_str(), "', only github.com URLs can be fetched right now."),
            InstallError::InvalidGitHubSource(s) => concat3("Invalid GitHub source '", s.as_str(), "'"),
            InstallError::EmptyArchive => owned("Extracted archive is empty"),
            InstallError::MultipleTopLevelDirs => owned("Expected one top-level directory in archive, found multiple"),
            InstallError::DirNotInArchive(d) => concat3("Directory '", d.as_str(), "' not found in the downloaded archive"),
            InstallError::ArchiveRootMissing => owned("Extracted archive root does not exist"),
            InstallError::NotABalerModule(p) => concat3("No baler.toml found at ", p.as_str(), ". This source is not a baler module."),
        }
    }
}

/// What is left to do, once a request has been resolved, to install the
/// module: the download, unpacking and copying that follow.
pub enum InstallStep {
    /// Install a local `.tar.gz` archive.
    FromTar { path: String },
    /// Bundle a local project directory and install the bundle.
    FromDir { path: String },
    /// Download a GitHub tarball, find the module in it, bundle and install it.
    FromGitHub { tarball_url: String, module_dir: Option<String>, announcement: String },
    /// Download an already bundled `.tar.gz` and install it.
    FromUrl { url: String },
}

/// An install step, and whether the module's R package dependencies are to
/// be installed along with it.
pub struct InstallPlan {
    pub step: InstallStep,
    pub install_deps: bool,
}

/// The line printed before a GitHub download.
pub open spec fn spec_announcement(user: Seq<char>, repo: Seq<char>, git_ref: Option<Seq<char>>) -> Seq<
    char,
> {
    match git_ref {
        Some(r) => "Fetching "@ + user + "/"@ + repo + "@"@ + r + "..."@,
        None => "Fetching "@ + user + "/"@ + repo + " (default branch)..."@,
    }
}

/// What is to be fetched for a `--git` install.
pub struct GitHubInstall {
    pub tarball_url: String,
    pub module_dir: Option<String>,
    pub announcement: String,
}

/// `res` is what a `--git` install of `url` at `git_ref` comes to.
pub open spec fn github_install_result(
    res: Result<GitHubInstall, InstallError>,
    url: Seq<char>,
    module_dir: Option<String>,
    git_ref: Option<String>,
) -> bool {
    match spec_github_repo(url) {
        Ok((u, r)) => res matches Ok(g) && g.tarball_url@ == spec_tarball_url(
            u,
            r,
            opt_view(git_ref),
        ) && g.module_dir == module_dir && g.announcement@ == spec_announcement(u, r, opt_view(git_ref)),
        Err(RepoUrlProblem::NotGitHub) => res matches Err(InstallError::NotGitHubUrl(e)) && e@ == url,
        Err(RepoUrlProblem::NotUserRepo) => res matches Err(InstallError::BadGitHubRepoUrl(e)) && e@
            == url,
    }
}

/// Works out the tarball to download for a `--git` install of `url`.
pub fn install_from_github(url: &str, module_dir: Option<String>, git_ref: Option<String>) -> (res:
    Result<GitHubInstall, InstallError>)
    ensures
        github_install_result(res, url@, module_dir, git_ref),
{
    let (user, repo) = parse_github_repo_url(url)?;
    let r = match &git_ref {
        Some(r) => Some(r.as_str()),
        None => None,
    };
    let tarball = tarball_url(user.as_str(), repo.as_str(), r);
    let announcement = match r {
        Some(x) => {
            let mut a = concat3("Fetching ", user.as_str(), "/");
            a.append(repo.as_str());
            a.append("@");
            a.append(x);
            a.append("...");
            a
        },
        None => {
            let mut a = concat3("Fetching ", user.as_str(), "/");
            a.append(repo.as_str());
            a.append(" (default branch)...");
            a
        },
    };
    Ok(GitHubInstall { tarball_url: tarball, module_dir, announcement })
}

/// Checks that a `--url` names a `.tar.gz`, the one format `baler bundle`
/// produces, before anything is downloaded.
pub fn download_and_install(url: String) -> (res: Result<String, InstallError>)
    ensures
        has_suffix(url@, ".tar.gz"@) ==> res == Ok::<String, InstallError>(url),
        !has_suffix(url@, ".tar.gz"@) ==> res == Err::<String, InstallError>(
            InstallError::UrlNotTarGz(url),
        ),
{
    if ends_with(url.as_str(), ".tar.gz") {
        Ok(url)
    } else {
        Err(InstallError::UrlNotTarGz(url))
    }
}

/// A registry lookup. Registries are not implemented yet, so this always
/// answers with an error naming the module and the registry.
pub fn install_from_registry(name: String, repo: String, version: Option<String>) -> (res: Result<
    InstallPlan,
    InstallError,
>)
    ensures
        res == Err::<InstallPlan, InstallError>(InstallError::RegistryUnavailable { name, repo }),
{
    Err(InstallError::RegistryUnavailable { name, repo })
}

/// `step` downloads the tarball of `user/repo` at `git_ref`.
pub open spec fn github_step(
    step: InstallStep,
    user: Seq<char>,
    repo: Seq<char>,
    module_dir: Option<String>,
    git_ref: Option<String>,
) -> bool {
    match step {
        InstallStep::FromGitHub { tarball_url, module_dir: md, announcement } => {
            &&& tarball_url@ == spec_tarball_url(user, repo, opt_view(git_ref))
            &&& md == module_dir
            &&& announcement@ == spec_announcement(user, repo, opt_view(git_ref))
        },
        _ => false,
    }
}

/// `res` is what installing from `src` comes to.
pub open spec fn plan_result(
    res: Result<InstallPlan, InstallError>,
    src: InstallSource,
    install_deps: bool,
) -> bool {
    match src {
        InstallSource::Tar(p) => res == Ok::<InstallPlan, InstallError>(
            InstallPlan { step: InstallStep::FromTar { path: p }, install_deps },
        ),
        InstallSource::Dir(p) => res == Ok::<InstallPlan, InstallError>(
            InstallPlan { step: InstallStep::FromDir { path: p }, install_deps },
        ),
        InstallSource::Url(u) => if has_suffix(u@, ".tar.gz"@) {
            res == Ok::<InstallPlan, InstallError>(
                InstallPlan { step: InstallStep::FromUrl { url: u }, install_deps },
            )
        } else {
            res == Err::<InstallPlan, InstallError>(InstallError::UrlNotTarGz(u))
        },
        InstallSource::Registry { name, repo, version } => res == Err::<InstallPlan, InstallError>(
            InstallError::RegistryUnavailable { name, repo },
        ),
        InstallSource::GitHub { url, module_dir, git_ref } => match spec_github_repo(url@) {
            Ok((u, r)) => res matches Ok(p) && p.install_deps == install_deps && github_step(
                p.step,
                u,
                r,
                module_dir,
                git_ref,
            ),
            Err(RepoUrlProblem::NotGitHub) => res matches Err(InstallError::NotGitHubUrl(e)) && e@
                == url@,
            Err(RepoUrlProblem::NotUserRepo) => res matches Err(InstallError::BadGitHubRepoUrl(e))
                && e@ == url@,
        },
    }
}

/// The step that installing from an already resolved source comes to.
pub fn plan_for(src: InstallSource, install_deps: bool) -> (res: Result<InstallPlan, InstallError>)
    ensures
        plan_result(res, src, install_deps),
{
    match src {
        InstallSource::Tar(path) => Ok(InstallPlan { step: InstallStep::FromTar { path }, install_deps }),
        InstallSource::Dir(path) => Ok(InstallPlan { step: InstallStep::FromDir { path }, install_deps }),
        InstallSource::GitHub { url, module_dir, git_ref } => {
            let g = install_from_github(url.as_str(), module_dir, git_ref)?;
            Ok(
                InstallPlan {
                    step: InstallStep::FromGitHub {
                        tarball_url: g.tarball_url,
                        module_dir: g.module_dir,
                        announcement: g.announcement,
                    },
                    install_deps,
                },
            )
        },
        InstallSource::Url(url) => {
            let url = download_and_install(url)?;
            Ok(InstallPlan { step: InstallStep::FromUrl { url }, install_deps })
        },
        InstallSource::Registry { name, repo, version } => install_from_registry(name, repo, version),
    }
}

/// `res` is what installing from the source `req` resolves to comes to, for
/// one of the two answers the filesystem may give on whether `req.path`
/// is a directory.
pub open spec fn run_outcome(res: Result<InstallPlan, InstallError>, req: InstallRequest, install_deps: bool) -> bool {
    &&& !asks_disk(req) ==> match spec_resolve_source(req, false) {
        Ok(src) => plan_result(res, src, install_deps),
        Err(e) => res == Err::<InstallPlan, InstallError>(e),
    }
    &&& asks_disk(req) ==> exists|d: bool|
        match #[trigger] spec_resolve_source(req, d) {
            Ok(src) => plan_result(res, src, install_deps),
            Err(e) => res == Err::<InstallPlan, InstallError>(e),
        }
}

/// Resolves an install request to the step that installs the module. The
/// filesystem is asked whether a `path` is a directory; whatever it
/// answers, the result is the plan for the source that answer resolves to.
pub fn run(req: InstallRequest, install_deps: bool) -> (res: Result<InstallPlan, InstallError>)
    ensures
        run_outcome(res, req, install_deps),
{
    let ghost r = req;
    let is_dir = path_answer(&req);
    let src = resolve_source_with(req, is_dir);
    match src {
        Ok(s) => plan_for(s, install_deps),
        Err(e) => Err(e),
    }
}

} // verus!

verus! {

/// A bare name is only ever a registry lookup: without `--repo` it is
/// refused as a reserved module name, whatever the filesystem says about a
/// directory of that name; it is never taken for a local path.
pub proof fn law_bare_name_is_never_a_path(req: InstallRequest, path_is_dir: bool)
    requires
        req.source is Some,
        req.path is None,
        req.git is None,
        req.url is None,
        req.repo is None,
        !has_git_flags(req),
    ensures
        spec_resolve_source(req, path_is_dir) == Err::<InstallSource, InstallError>(
            InstallError::ReservedName(req.source->0),
        ),
{
}

/// A module source can only come from one place: a request that names more
/// than one of a bare name, `--path`, `--git` and `--url` is always refused.
pub proof fn law_one_source_only(req: InstallRequest, path_is_dir: bool)
    requires
        source_count(req) > 1,
    ensures
        spec_resolve_source(req, path_is_dir) == Err::<InstallSource, InstallError>(
            InstallError::ConflictingSources,
        ),
{
}

/// `--path` never sniffs a name: a directory is installed as a project
/// directory, anything else only when it ends in `.tar.gz`.
pub proof fn law_path_is_dir_or_archive(req: InstallRequest, path_is_dir: bool)
    requires
        req.path is Some,
        source_count(req) == 1,
        !has_registry_flags(req),
        !has_git_flags(req),
    ensures
        path_is_dir ==> spec_resolve_source(req, path_is_dir) == Ok::<InstallSource, InstallError>(
            InstallSource::Dir(req.path->0),
        ),
        !path_is_dir && has_suffix(req.path->0@, ".tar.gz"@) ==> spec_resolve_source(req, path_is_dir)
            == Ok::<InstallSource, InstallError>(InstallSource::Tar(req.path->0)),
        !path_is_dir && !has_suffix(req.path->0@, ".tar.gz"@) ==> spec_resolve_source(req, path_is_dir)
            == Err::<InstallSource, InstallError>(InstallError::NotDirOrArchive(req.path->0)),
{
}

/// `--git` with one of `--branch`, `--tag` and `--rev` fetches exactly that
/// ref: the resolved GitHub source carries the given value, whichever of
/// the three names it, and with none of them the default branch.
pub proof fn law_git_ref_is_the_one_given(req: InstallRequest, path_is_dir: bool)
    requires
        req.git is Some,
        source_count(req) == 1,
        !has_registry_flags(req),
    ensures
        req.branch is Some && req.tag is None && req.rev is None ==> spec_resolve_source(req, path_is_dir)
            == Ok::<InstallSource, InstallError>(
            InstallSource::GitHub { url: req.git->0, module_dir: req.module_dir, git_ref: req.branch },
        ),
        req.branch is None && req.tag is Some && req.rev is None ==> spec_resolve_source(req, path_is_dir)
            == Ok::<InstallSource, InstallError>(
            InstallSource::GitHub { url: req.git->0, module_dir: req.module_dir, git_ref: req.tag },
        ),
        req.branch is None && req.tag is None && req.rev is Some ==> spec_resolve_source(req, path_is_dir)
            == Ok::<InstallSource, InstallError>(
            InstallSource::GitHub { url: req.git->0, module_dir: req.module_dir, git_ref: req.rev },
        ),
        req.branch is None && req.tag is None && req.rev is None ==> spec_resolve_source(req, path_is_dir)
            == Ok::<InstallSource, InstallError>(
            InstallSource::GitHub { url: req.git->0, module_dir: req.module_dir, git_ref: None },
        ),
{
}

} // verus!
