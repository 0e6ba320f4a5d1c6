//! Resolving install requests, and reading GitHub URLs.

use baler::ops::github::{
    check_module_root, module_root_in, module_source_tarball, parse_github_repo_url,
    parse_module_dep_source, single_subdir, tarball_url,
};
use baler::ops::install::{self, InstallError, InstallRequest, InstallSource, InstallStep};

fn empty_request() -> InstallRequest {
    InstallRequest {
        source: None,
        repo: None,
        version: None,
        path: None,
        git: None,
        branch: None,
        tag: None,
        rev: None,
        url: None,
        module_dir: None,
    }
}

fn s(x: &str) -> Option<String> {
    Some(x.to_owned())
}

#[test]
fn nothing_to_install() {
    let e = install::run(empty_request(), false).err().unwrap();
    assert!(matches!(e, InstallError::NothingToInstall));
    assert!(e.message().starts_with("Nothing to install."));
}

#[test]
fn two_sources_are_refused() {
    let req = InstallRequest { source: s("a"), url: s("https://x/a.tar.gz"), ..empty_request() };
    assert!(matches!(install::run(req, false), Err(InstallError::ConflictingSources)));
}

#[test]
fn url_with_git_flags_is_refused() {
    let req = InstallRequest { url: s("https://x/a.tar.gz"), branch: s("main"), ..empty_request() };
    assert!(matches!(install::run(req, false), Err(InstallError::UrlFlagsDontApply)));
}

#[test]
fn url_must_be_a_tar_gz() {
    let req = InstallRequest { url: s("https://x/a.zip"), ..empty_request() };
    let e = install::run(req, false).err().unwrap();
    assert_eq!(
        e.message(),
        "--url expects a .tar.gz archive, the format `baler bundle` produces, got 'https://x/a.zip'."
    );
}

#[test]
fn url_tar_gz_is_downloaded() {
    let req = InstallRequest { url: s("https://x/a.tar.gz"), ..empty_request() };
    match install::run(req, true) {
        Ok(p) => {
            assert!(p.install_deps);
            assert!(matches!(p.step, InstallStep::FromUrl { ref url } if url == "https://x/a.tar.gz"));
        }
        Err(_) => panic!("a .tar.gz URL is accepted"),
    }
}

#[test]
fn git_with_registry_flags_is_refused() {
    let req = InstallRequest { git: s("https://github.com/u/r"), version: s("1.0"), ..empty_request() };
    assert!(matches!(install::run(req, false), Err(InstallError::GitRegistryFlags)));
}

#[test]
fn git_with_two_refs_is_refused() {
    let req = InstallRequest { git: s("https://github.com/u/r"), tag: s("v1"), rev: s("abc"), ..empty_request() };
    assert!(matches!(install::run(req, false), Err(InstallError::ConflictingRefs)));
}

#[test]
fn git_fetches_the_tarball_at_the_ref() {
    let req = InstallRequest {
        git: s("https://github.com/someuser/somerepo.git"),
        tag: s("v1.2"),
        module_dir: s("modules/convert"),
        ..empty_request()
    };
    match install::run(req, false).ok().unwrap().step {
        InstallStep::FromGitHub { tarball_url, module_dir, announcement } => {
            assert_eq!(tarball_url, "https://api.github.com/repos/someuser/somerepo/tarball/v1.2");
            assert_eq!(module_dir.as_deref(), Some("modules/convert"));
            assert_eq!(announcement, "Fetching someuser/somerepo@v1.2...");
        }
        _ => panic!("expected a GitHub step"),
    }
}

#[test]
fn git_default_branch_announcement() {
    let req = InstallRequest { git: s("https://github.com/u/r/"), ..empty_request() };
    match install::run(req, false).ok().unwrap().step {
        InstallStep::FromGitHub { tarball_url, announcement, .. } => {
            assert_eq!(tarball_url, "https://api.github.com/repos/u/r/tarball");
            assert_eq!(announcement, "Fetching u/r (default branch)...");
        }
        _ => panic!("expected a GitHub step"),
    }
}

#[test]
fn git_must_be_github() {
    let req = InstallRequest { git: s("https://gitlab.com/u/r"), ..empty_request() };
    let e = install::run(req, false).err().unwrap();
    assert_eq!(e.message(), "--git expects a github.com URL, got 'https://gitlab.com/u/r'");
}

#[test]
fn path_with_registry_flags_is_refused() {
    let req = InstallRequest { path: s("x"), repo: s("https://r"), ..empty_request() };
    assert!(matches!(install::run(req, false), Err(InstallError::PathFlagsDontApply)));
}

#[test]
fn path_archive_is_installed_as_a_tarball() {
    let req = InstallRequest { path: s("/nonexistent/mymod_0.1.0.tar.gz"), ..empty_request() };
    match install::run(req, false).ok().unwrap().step {
        InstallStep::FromTar { path } => assert_eq!(path, "/nonexistent/mymod_0.1.0.tar.gz"),
        _ => panic!("expected a tarball step"),
    }
}

#[test]
fn path_directory_is_installed_as_a_project() {
    let req = InstallRequest { path: s("/"), ..empty_request() };
    match install::run(req, false).ok().unwrap().step {
        InstallStep::FromDir { path } => assert_eq!(path, "/"),
        _ => panic!("expected a directory step"),
    }
}

#[test]
fn bare_name_with_git_flags_is_refused() {
    let req = InstallRequest { source: s("pkg"), module_dir: s("d"), ..empty_request() };
    assert!(matches!(install::run(req, false), Err(InstallError::NameFlagsDontApply)));
}

#[test]
fn resolve_source_with_given_facts() {
    let req = InstallRequest { path: s("a/b"), ..empty_request() };
    assert!(matches!(
        install::resolve_source_with(req, true),
        Ok(InstallSource::Dir(p)) if p == "a/b"
    ));
    let req = InstallRequest { path: s("a/b.tar.gz"), ..empty_request() };
    assert!(matches!(
        install::resolve_source_with(req, false),
        Ok(InstallSource::Tar(p)) if p == "a/b.tar.gz"
    ));
    // a bare `.gz` is not a module archive
    let req = InstallRequest { path: s("notes.gz"), ..empty_request() };
    assert!(matches!(
        install::resolve_source_with(req, false),
        Err(InstallError::NotDirOrArchive(p)) if p == "notes.gz"
    ));
    let req = InstallRequest { path: s("a/b.zip"), ..empty_request() };
    assert!(matches!(
        install::resolve_source_with(req, false),
        Err(InstallError::NotDirOrArchive(p)) if p == "a/b.zip"
    ));
    // several sources are refused before the disk is asked anything
    let req = InstallRequest { path: s("/"), git: s("https://github.com/u/r"), ..empty_request() };
    assert!(!install::needs_disk(&req));
    assert!(install::needs_disk(&InstallRequest { path: s("/"), ..empty_request() }));
}

#[test]
fn registry_lookup_is_not_implemented() {
    let req = InstallRequest { source: s("pkg"), repo: s("https://reg"), version: s("1.0"), ..empty_request() };
    let e = install::run(req, false).err().unwrap();
    assert_eq!(e.message(), "Cannot look up 'pkg' in https://reg: registries aren't implemented yet.");
}

#[test]
fn repo_url_forms() {
    let ok = |u: &str| parse_github_repo_url(u).ok().unwrap();
    assert_eq!(ok("https://github.com/user/repo"), ("user".to_owned(), "repo".to_owned()));
    assert_eq!(ok("https://github.com/user/repo/"), ("user".to_owned(), "repo".to_owned()));
    assert_eq!(ok("https://github.com/user/repo.git"), ("user".to_owned(), "repo".to_owned()));
    assert_eq!(ok("http://github.com/user/repo.git/"), ("user".to_owned(), "repo".to_owned()));
    assert_eq!(ok("https://github.com/user/repo/extra"), ("user".to_owned(), "repo/extra".to_owned()));
    assert!(matches!(parse_github_repo_url("https://github.com/user"), Err(InstallError::BadGitHubRepoUrl(_))));
    assert!(matches!(parse_github_repo_url("https://github.com//repo"), Err(InstallError::BadGitHubRepoUrl(_))));
    assert!(matches!(parse_github_repo_url("github.com/user/repo"), Err(InstallError::NotGitHubUrl(_))));
}

#[test]
fn module_dep_source_forms() {
    let m = parse_module_dep_source("https://github.com/u/r/tree/main/examples/mod").ok().unwrap();
    assert_eq!(m.repo_url, "https://github.com/u/r");
    assert_eq!(m.git_ref.as_deref(), Some("main"));
    assert_eq!(m.subpath.as_deref(), Some("examples/mod"));

    let m = parse_module_dep_source("https://github.com/u/r").ok().unwrap();
    assert_eq!(m.repo_url, "https://github.com/u/r");
    assert!(m.git_ref.is_none());
    assert!(m.subpath.is_none());

    let m = parse_module_dep_source("https://github.com/u/r/sub/dir").ok().unwrap();
    assert!(m.git_ref.is_none());
    assert_eq!(m.subpath.as_deref(), Some("sub/dir"));

    let m = parse_module_dep_source("https://github.com/u/r/tree/v2").ok().unwrap();
    assert_eq!(m.git_ref.as_deref(), Some("v2"));
    assert!(m.subpath.is_none());

    let e = parse_module_dep_source("gh:x/b").err().unwrap();
    assert_eq!(
        e.message(),
        "Unsupported module source 'gh:x/b', only github.com URLs can be fetched right now."
    );
    let e = parse_module_dep_source("https://github.com/u").err().unwrap();
    assert_eq!(e.message(), "Invalid GitHub source 'https://github.com/u'");
}

#[test]
fn module_source_downloads_the_repository_tarball() {
    let (url, sub) = module_source_tarball("https://github.com/baler-dev/baler/tree/main/examples/modules/convert-proj")
        .ok()
        .unwrap();
    assert_eq!(url, "https://api.github.com/repos/baler-dev/baler/tarball/main");
    assert_eq!(sub.as_deref(), Some("examples/modules/convert-proj"));
}

#[test]
fn tarball_urls() {
    assert_eq!(tarball_url("u", "r", None), "https://api.github.com/repos/u/r/tarball");
    assert_eq!(tarball_url("u", "r", Some("dev")), "https://api.github.com/repos/u/r/tarball/dev");
}

#[test]
fn single_subdir_of_an_extracted_archive() {
    assert!(matches!(single_subdir(vec![]), Err(InstallError::EmptyArchive)));
    assert_eq!(single_subdir(vec!["x/top".to_owned()]).ok().unwrap(), "x/top");
    let e = single_subdir(vec!["a".to_owned(), "b".to_owned()]).err().unwrap();
    assert_eq!(e.message(), "Expected one top-level directory in archive, found multiple");
}

#[test]
fn module_root_checks() {
    assert_eq!(module_root_in("/tmp/x/top", Some("mods/m")), "/tmp/x/top/mods/m");
    assert_eq!(module_root_in("/tmp/x/top", None), "/tmp/x/top");
    let e = check_module_root("/r/m", Some("m"), false, false).err().unwrap();
    assert_eq!(e.message(), "Directory 'm' not found in the downloaded archive");
    let e = check_module_root("/r", None, false, false).err().unwrap();
    assert_eq!(e.message(), "Extracted archive root does not exist");
    let e = check_module_root("/r", None, true, false).err().unwrap();
    assert_eq!(e.message(), "No baler.toml found at /r. This source is not a baler module.");
    assert!(check_module_root("/r", None, true, true).is_ok());
}
