//! The functions that look at the disk, run against this crate's own
//! source tree (tests run from the package root) and against paths that do
//! not exist.

use baler::baler_toml::{BalerToml, CompiledCode, Dependencies, ModuleMeta};
use baler::formats::tar::{bundle_plan, collect_files, TarError};
use baler::ops::bundle::{bundle_to, check_request, resolve_src_dir, BundleError};
use baler::ops::install::{resolve_source, InstallError, InstallRequest, InstallSource};

fn manifest(name: &str, src: Option<&str>, native: Option<Vec<&str>>) -> BalerToml {
    BalerToml {
        project: ModuleMeta {
            name: name.to_owned(),
            version: "0.1.0".to_owned(),
            description: String::new(),
            readme: None,
            authors: vec![],
            license: "MIT".to_owned(),
            r_version: "4.0.0".to_owned(),
            repository: None,
            keywords: Vec::new(),
            src: src.map(|s| s.to_owned()),
            dependencies: Dependencies { packages: Vec::new(), baler: None },
        },
        development: None,
        compiled_code: native.map(|ps| CompiledCode {
            path: Some(ps.into_iter().map(|p| p.to_owned()).collect()),
            build_deps: None,
        }),
        tool: None,
    }
}

fn path_request(path: &str) -> InstallRequest {
    InstallRequest {
        source: None,
        repo: None,
        version: None,
        path: Some(path.to_owned()),
        git: None,
        branch: None,
        tag: None,
        rev: None,
        url: None,
        module_dir: None,
    }
}

#[test]
fn collected_files_are_relative_to_the_walked_directory() {
    let files = collect_files("src").ok().unwrap();
    assert!(files.contains(&"lib.rs".to_owned()));
    assert!(files.contains(&"formats/tar.rs".to_owned()));
    assert!(files.contains(&"ops/install.rs".to_owned()));
    assert!(files.iter().all(|f| !f.starts_with("src/")));
}

#[test]
fn bundle_plan_walks_the_source_tree() {
    let entries = bundle_plan("src", ".", "mymod", "0.1.0", &[], &[]).ok().unwrap();
    assert!(entries.iter().any(|e| e.source == "src/lib.rs" && e.name == "mymod_0.1.0/mymod/lib.rs"));
    assert!(entries
        .iter()
        .any(|e| e.source == "src/ops/github.rs" && e.name == "mymod_0.1.0/mymod/ops/github.rs"));
    // no baler.lock in the project root: the manifest is the last entry
    let last = entries.last().unwrap();
    assert_eq!(last.source, "./baler.toml");
    assert_eq!(last.name, "mymod_0.1.0/baler.toml");
    assert!(entries.iter().all(|e| !e.name.ends_with("baler.lock")));

    // excluding a directory leaves its files out
    let entries = bundle_plan("src", ".", "mymod", "0.1.0", &["src/ops".to_owned()], &[]).ok().unwrap();
    assert!(entries.iter().all(|e| !e.source.starts_with("src/ops")));
    assert!(entries.iter().any(|e| e.source == "src/lib.rs"));
}

#[test]
fn bundling_a_missing_tree_ships_only_the_manifest() {
    let entries = bundle_plan("/nonexistent/baler-src", "/nonexistent", "m", "1.0", &[], &[]).ok().unwrap();
    assert_eq!(entries.len(), 1);
    assert_eq!(entries[0].source, "/nonexistent/baler.toml");
    assert_eq!(entries[0].name, "m_1.0/baler.toml");
}

#[test]
fn resolve_source_asks_the_disk() {
    assert!(matches!(resolve_source(path_request("src")), Ok(InstallSource::Dir(d)) if d == "src"));
    assert!(matches!(
        resolve_source(path_request("/nonexistent/mymod_0.1.0.tar.gz")),
        Ok(InstallSource::Tar(t)) if t == "/nonexistent/mymod_0.1.0.tar.gz"
    ));
    let e = resolve_source(path_request("/nonexistent/mymod.zip")).err().unwrap();
    assert!(matches!(&e, InstallError::NotDirOrArchive(z) if z == "/nonexistent/mymod.zip"));
    assert_eq!(e.message(), "--path expects a directory or a .tar.gz, got '/nonexistent/mymod.zip'.");
}

#[test]
fn bundle_requests_are_checked_in_order() {
    assert!(matches!(
        check_request("p", false, true, false, false),
        Err(BundleError::KeepSourceWithoutBinary)
    ));
    let e = check_request("/nowhere", false, false, false, false).err().unwrap();
    assert_eq!(e.message(), "Path does not exist: /nowhere");
    let e = check_request("/etc/hosts", true, true, true, false).err().unwrap();
    assert_eq!(e.message(), "Path is not a directory: /etc/hosts");
    assert!(check_request(".", true, false, true, true).is_ok());
}

#[test]
fn the_source_directory_comes_from_the_manifest() {
    // `[project].src` names it ...
    assert_eq!(resolve_src_dir(".", &manifest("whatever", Some("src"), None)).ok().unwrap(), "./src");
    // ... else it is named after the module
    assert_eq!(resolve_src_dir(".", &manifest("src", None, None)).ok().unwrap(), "./src");
    match resolve_src_dir("/nonexistent", &manifest("mymod", None, None)) {
        Err(BundleError::SrcDirMissing(d)) => assert_eq!(d, "/nonexistent/mymod"),
        _ => panic!("a missing source directory is an error"),
    }
    let e = resolve_src_dir("/nonexistent", &manifest("mymod", None, None)).err().unwrap();
    assert_eq!(e.message(), "Module source directory not found: /nonexistent/mymod");
}

#[test]
fn bundle_to_lays_out_the_whole_source_tree() {
    let entries = bundle_to(".", &manifest("mymod", Some("src"), None)).ok().unwrap();
    assert!(entries.iter().any(|e| e.source == "./src/lib.rs" && e.name == "mymod_0.1.0/mymod/lib.rs"));
    assert!(entries
        .iter()
        .any(|e| e.source == "./src/formats/tar.rs" && e.name == "mymod_0.1.0/mymod/formats/tar.rs"));
    let last = entries.last().unwrap();
    assert_eq!((last.source.as_str(), last.name.as_str()), ("./baler.toml", "mymod_0.1.0/baler.toml"));
    assert!(matches!(
        bundle_to("/nonexistent", &manifest("mymod", None, None)),
        Err(BundleError::SrcDirMissing(_))
    ));
    let e = BundleError::Archive(TarError::StripPrefix("/x".to_owned()));
    assert_eq!(e.message(), "Failed to strip prefix from /x");
}

#[test]
fn declared_native_dirs_sit_under_the_root() {
    let t = manifest("m", None, Some(vec!["m/cpp", "m/c"]));
    assert_eq!(t.native_dirs_under("/p"), vec!["/p/m/cpp".to_owned(), "/p/m/c".to_owned()]);
    assert!(manifest("m", None, None).native_dirs_under("/p").is_empty());
}
