//! The archive layout, bundle options and native build plans.

use baler::baler_toml::{BalerToml, CompiledCode, Dependencies, ModuleMeta, PackageDep};
use baler::commands::compile::{report, CompileArgs};
use baler::formats::tar::{
    bundle_entries, collect_files, dist_info_path, is_root_file, relative_names_of, select_files,
    strip_top_level, unpack_destination, TarError,
};
use baler::ops::bundle::{archive_file_name, bundle_filters, check_flags};
use baler::ops::compile::{
    binary_name, check_native_dirs, compile_plan, native_steps, CompileError, CompileMode, CompiledArtifact,
};

fn toml_with_build_deps(deps: bool) -> BalerToml {
    BalerToml {
        project: ModuleMeta {
            name: "mymod".to_owned(),
            version: "0.1.0".to_owned(),
            description: String::new(),
            readme: None,
            authors: vec![],
            license: "MIT".to_owned(),
            r_version: "4.0.0".to_owned(),
            repository: None,
            keywords: Vec::new(),
            src: None,
            dependencies: Dependencies { packages: Vec::new(), baler: None },
        },
        development: None,
        compiled_code: Some(CompiledCode {
            path: None,
            build_deps: if deps {
                Some(vec![("Rcpp".to_owned(), PackageDep::Simple("1.0".to_owned()))])
            } else {
                None
            },
        }),
        tool: None,
    }
}

fn v(list: &[&str]) -> Vec<String> {
    list.iter().map(|s| s.to_string()).collect()
}

#[test]
fn hidden_files_are_left_out() {
    let walked = vec![
        Some(("/p/src".to_owned(), false)),
        Some(("/p/src/__init__.R".to_owned(), true)),
        Some(("/p/src/decomp/helpers.R".to_owned(), true)),
        Some(("/p/src/.hidden_file".to_owned(), true)),
        Some(("/p/src/.lib/mod.so".to_owned(), true)),
        None,
    ];
    let files = select_files("/p/src", &walked, &[], &[]);
    assert_eq!(files, v(&["/p/src/__init__.R", "/p/src/decomp/helpers.R"]));

    // --binary forces .lib back in and leaves the native source out.
    let walked = vec![
        Some(("/p/src/__init__.R".to_owned(), true)),
        Some(("/p/src/cpp/code.cpp".to_owned(), true)),
        Some(("/p/src/.lib/cpp.so".to_owned(), true)),
    ];
    let files = select_files("/p/src", &walked, &v(&["/p/src/cpp"]), &v(&["/p/src/.lib"]));
    assert_eq!(files, v(&["/p/src/__init__.R", "/p/src/.lib/cpp.so"]));
}

#[test]
fn relative_names_use_forward_slashes() {
    let names = relative_names_of("/p/src", &v(&["/p/src/a.R", "/p/src/sub/b.R", "/p/src/x\\y.R"]))
        .ok()
        .unwrap();
    assert_eq!(names, v(&["a.R", "sub/b.R", "x/y.R"]));
    match relative_names_of("/p/src", &v(&["/p/src/a.R", "/elsewhere/b.R"])) {
        Err(TarError::StripPrefix(p)) => assert_eq!(p, "/elsewhere/b.R"),
        _ => panic!("a file outside the source dir is an error"),
    }
    let e = relative_names_of("/p/src", &v(&["/q/c.R"])).err().unwrap();
    assert_eq!(e.message(), "Failed to strip prefix from /q/c.R");
}

#[test]
fn collecting_a_missing_directory_finds_nothing() {
    let files = collect_files("/nonexistent/baler-layout-test-dir").ok().unwrap();
    assert!(files.is_empty());
}

#[test]
fn bundle_entries_follow_the_archive_layout() {
    let entries = bundle_entries(
        &v(&["/p/src/__init__.R", "/p/src/decomp/helpers.R", "/p/src/baler.toml"]),
        "/p/src",
        "/p",
        "mymod",
        "0.1.0",
        true,
    )
    .ok()
    .unwrap();
    let pairs: Vec<(String, String)> = entries.into_iter().map(|e| (e.source, e.name)).collect();
    assert_eq!(
        pairs,
        vec![
            ("/p/src/__init__.R".to_owned(), "mymod_0.1.0/mymod/__init__.R".to_owned()),
            ("/p/src/decomp/helpers.R".to_owned(), "mymod_0.1.0/mymod/decomp/helpers.R".to_owned()),
            ("/p/src/baler.toml".to_owned(), "mymod_0.1.0/mymod/baler.toml".to_owned()),
            ("/p/baler.toml".to_owned(), "mymod_0.1.0/baler.toml".to_owned()),
            ("/p/baler.lock".to_owned(), "mymod_0.1.0/baler.lock".to_owned()),
        ]
    );
    let without_lock = bundle_entries(&v(&[]), "/p/src", "/p", "m", "1.0", false).ok().unwrap();
    assert_eq!(without_lock.len(), 1);
    assert_eq!(without_lock[0].name, "m_1.0/baler.toml");
}

#[test]
fn unpacked_entries_land_in_module_or_dist_info() {
    let dest = |cs: &[&str]| unpack_destination("/lib", "mymod", "0.1.0", &v(cs));
    assert_eq!(dest(&["mymod_0.1.0", "mymod", "__init__.R"]).as_deref(), Some("/lib/mymod/__init__.R"));
    assert_eq!(
        dest(&["mymod_0.1.0", "mymod", "decomp", "helpers.R"]).as_deref(),
        Some("/lib/mymod/decomp/helpers.R")
    );
    // a module file named baler.toml stays in the module
    assert_eq!(dest(&["mymod_0.1.0", "mymod", "baler.toml"]).as_deref(), Some("/lib/mymod/baler.toml"));
    assert_eq!(
        dest(&["mymod_0.1.0", "baler.toml"]).as_deref(),
        Some("/lib/mymod-0.1.0.dist-info/baler.toml")
    );
    assert_eq!(
        dest(&["mymod_0.1.0", "baler.lock"]).as_deref(),
        Some("/lib/mymod-0.1.0.dist-info/baler.lock")
    );
    assert_eq!(dest(&["mymod_0.1.0"]), None);
    assert_eq!(dest(&["mymod_0.1.0", "."]), None);
    assert_eq!(dist_info_path("/lib/", "m", "2.0"), "/lib/m-2.0.dist-info");
}

#[test]
fn root_files_are_found_by_full_path() {
    assert!(is_root_file(&v(&["m_0.1.0", "baler.toml"]), "baler.toml"));
    assert!(!is_root_file(&v(&["m_0.1.0", "m", "baler.toml"]), "baler.toml"));
    assert!(!is_root_file(&v(&["top", "README.md"]), "baler.toml"));
    assert_eq!(strip_top_level(&v(&["a", "b", "c"])), v(&["b", "c"]));
    assert!(strip_top_level(&v(&[])).is_empty());
}

#[test]
fn bundle_options() {
    assert!(check_flags(false, true).is_err());
    assert_eq!(
        check_flags(false, true).err().unwrap().message(),
        "--keep-source only applies together with --binary."
    );
    assert!(check_flags(true, true).is_ok());
    assert!(check_flags(false, false).is_ok());
    assert_eq!(archive_file_name("mymod", "0.1.0"), "mymod_0.1.0.tar.gz");

    let plain = bundle_filters(false, false, &v(&["/p/src/cpp"]));
    assert!(plain.exclude.is_empty() && plain.force_include.is_empty());
    let binary = bundle_filters(true, false, &v(&["/p/src/cpp", "/p/src/c"]));
    assert_eq!(binary.exclude, v(&["/p/src/cpp", "/p/src/c"]));
    assert_eq!(binary.force_include, v(&["/p/src/.lib", "/p/src/.lib"]));
    let keep = bundle_filters(true, true, &v(&["/p/src/cpp"]));
    assert!(keep.exclude.is_empty());
    assert_eq!(keep.force_include, v(&["/p/src/.lib"]));
}

#[test]
fn artifacts_are_named_after_their_directory() {
    assert_eq!(binary_name("/p/src/cpp", "mymod"), "cpp");
    assert_eq!(binary_name("/p/mymod/src", "mymod"), "mymod");
    assert_eq!(binary_name("/", "mymod"), "mymod");
}

#[test]
fn each_lib_dir_is_cleared_once() {
    let steps = native_steps("/m", "mymod", &v(&["/m/x/cpp", "/m/x/c", "/m/y/src"]), true);
    assert!(steps.iter().all(|s| s.remove_native_dir));
    assert!(native_steps("/m", "mymod", &v(&["/m/src"]), false).iter().all(|s| !s.remove_native_dir));
    let summary: Vec<(String, String, bool, String)> = steps
        .into_iter()
        .map(|s| (s.target_dir, s.lib_dir, s.clear_lib_dir, s.binary_name))
        .collect();
    assert_eq!(
        summary,
        vec![
            ("/m/x".to_owned(), "/m/x/.lib".to_owned(), true, "cpp".to_owned()),
            ("/m/x".to_owned(), "/m/x/.lib".to_owned(), false, "c".to_owned()),
            ("/m/y".to_owned(), "/m/y/.lib".to_owned(), true, "mymod".to_owned()),
        ]
    );
}

#[test]
fn compile_modes() {
    let a = CompileArgs { path: ".".to_owned(), clean: true, rebuild: false };
    assert_eq!(a.mode(), CompileMode::Clean);
    let a = CompileArgs { path: ".".to_owned(), clean: false, rebuild: true };
    assert_eq!(a.mode(), CompileMode::Rebuild);
    let a = CompileArgs { path: ".".to_owned(), clean: false, rebuild: false };
    assert_eq!(a.mode(), CompileMode::Normal);

    let plain = toml_with_build_deps(false);
    let with_deps = toml_with_build_deps(true);
    let none = compile_plan(CompileMode::Rebuild, "/m", &with_deps, &v(&[]));
    assert!(!none.clear_cache && !none.build && !none.install_build_deps && none.steps.is_empty());
    let clean = compile_plan(CompileMode::Clean, "/m", &with_deps, &v(&["/m/src"]));
    assert!(clean.clear_cache && !clean.build && !clean.install_build_deps && clean.steps.len() == 1);
    let normal = compile_plan(CompileMode::Normal, "/m", &with_deps, &v(&["/m/src"]));
    assert!(!normal.clear_cache && normal.build && normal.install_build_deps);
    assert_eq!(normal.steps[0].binary_name, "mymod");
    assert!(!normal.steps[0].remove_native_dir);
    let normal = compile_plan(CompileMode::Normal, "/m", &plain, &v(&["/m/src"]));
    assert!(!normal.install_build_deps);
}

#[test]
fn compile_report_lines() {
    assert_eq!(
        report(CompileMode::Clean, &vec![]),
        v(&["Cleared cached and compiled native artifacts for this module."])
    );
    assert_eq!(report(CompileMode::Normal, &vec![]), v(&["No native code to compile."]));
    let arts = vec![CompiledArtifact {
        native_dir: "/m/src".to_owned(),
        artifact_path: "/m/.lib/mymod.so".to_owned(),
        target_triple: "x86_64-unknown-linux-gnu".to_owned(),
        r_version: "4.4.0".to_owned(),
        source_hash: "abc".to_owned(),
        from_cache: true,
    }];
    assert_eq!(
        report(CompileMode::Rebuild, &arts),
        v(&[
            "Compiled /m/src -> /m/.lib/mymod.so (cached)",
            "",
            "Native code compiled in place. box::use() will pick it up on next load.",
        ])
    );
}

#[test]
fn the_first_missing_native_dir_is_reported() {
    let dirs = vec![("/m/cpp".to_owned(), true), ("/m/c".to_owned(), false), ("/m/f".to_owned(), false)];
    match check_native_dirs(&dirs) {
        Err(CompileError::NativeDirMissing(d)) => assert_eq!(d, "/m/c"),
        _ => panic!("a missing native dir is an error"),
    }
    let e = check_native_dirs(&dirs).err().unwrap();
    assert_eq!(e.message(), "Configured native dir '/m/c' does not exist.");
    assert!(check_native_dirs(&vec![("/m/cpp".to_owned(), true)]).is_ok());
}
