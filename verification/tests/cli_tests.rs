//! The `baler` command line, parsed the way the binary parses it, and the
//! install requests it makes.

use baler::cli::{commands_from, parse_args, Commands, Matched};
use baler::commands::install;

fn args(list: &[&str]) -> Vec<String> {
    let mut v = vec!["baler".to_owned()];
    v.extend(list.iter().map(|s| s.to_string()));
    v
}

fn install_error(list: &[&str]) -> String {
    match parse_args(args(list)) {
        Ok(Commands::Install(a)) => match install::run(a) {
            Err(e) => e.message(),
            Ok(_) => panic!("install should fail"),
        },
        _ => panic!("expected an install command"),
    }
}

// ---- --version / --help / no subcommand ----

#[test]
fn version_flag_prints_crate_version() {
    let out = parse_args(args(&["--version"])).err().expect("--version prints and stops");
    assert_eq!(out.exit_code, 0);
    assert!(!out.to_stderr);
    assert_eq!(out.message.trim(), format!("baler {}", "0.1.0"));
}

#[test]
fn help_flag_lists_all_subcommands() {
    let out = parse_args(args(&["--help"])).err().expect("--help prints and stops");
    assert_eq!(out.exit_code, 0);
    let stdout = out.message;
    for subcommand in ["init", "bundle", "install", "remove"] {
        assert!(stdout.contains(subcommand), "--help output missing '{subcommand}':\n{stdout}");
    }
}

#[test]
fn no_subcommand_exits_nonzero_with_usage() {
    let out = parse_args(args(&[])).err().expect("a subcommand is required");
    assert_ne!(out.exit_code, 0);
    assert!(out.to_stderr);
    let stderr = out.message;
    assert!(stderr.contains("Commands:"), "stderr was:\n{stderr}");
    assert!(stderr.contains("install"), "stderr was:\n{stderr}");
}

// ---- init ----

#[test]
fn init_missing_name_arg_fails_with_usage_error() {
    let out = parse_args(args(&["init"])).err().expect("init needs a name");
    assert_ne!(out.exit_code, 0);
}

// ---- install ----

#[test]
fn install_on_nonexistent_source_fails_with_clear_error() {
    let stderr = install_error(&["install", "--path", "/nonexistent/baler-cli-test-install-bogus-source"]);
    assert!(
        stderr.contains("--path expects a directory or a .tar.gz"),
        "stderr was:\n{stderr}"
    );
}

#[test]
fn install_bare_name_matching_local_dir_is_reserved_not_silently_installed() {
    let stderr = install_error(&["install", "convert-proj"]);
    assert!(stderr.contains("looks like a module name"), "stderr was:\n{stderr}");
    assert!(stderr.contains("registry"), "stderr was:\n{stderr}");
}

#[test]
fn install_bare_name_with_repo_hits_the_not_implemented_stub() {
    let stderr = install_error(&["install", "somepkg", "--repo", "https://modules.example.com"]);
    assert!(stderr.contains("registries aren't implemented yet"), "stderr was:\n{stderr}");
    assert!(stderr.contains("somepkg"), "stderr was:\n{stderr}");
    assert!(stderr.contains("https://modules.example.com"), "stderr was:\n{stderr}");
}

#[test]
fn install_repo_flag_rejected_with_git_flag() {
    let out = parse_args(args(&[
        "install",
        "--git",
        "https://github.com/someuser/somerepo",
        "--repo",
        "https://modules.example.com",
    ]))
    .err()
    .expect("--repo conflicts with --git");
    let stderr = out.message;
    assert!(stderr.contains("cannot be used with"), "stderr was:\n{stderr}");
}

#[test]
fn install_repo_flag_rejected_with_path_flag() {
    let out = parse_args(args(&["install", "--path", "./mymod-proj", "--repo", "https://modules.example.com"]))
        .err()
        .expect("--repo conflicts with --path");
    let stderr = out.message;
    assert!(stderr.contains("cannot be used with"), "stderr was:\n{stderr}");
}

#[test]
fn install_bare_name_without_repo_still_gets_the_original_reserved_error() {
    let stderr = install_error(&["install", "somepkg"]);
    assert!(stderr.contains("looks like a module name"), "stderr was:\n{stderr}");
    assert!(stderr.contains("--repo"), "stderr was:\n{stderr}");
}

// ---- parsing into commands ----

#[test]
fn bundle_path_defaults_to_current_dir() {
    match parse_args(args(&["bundle"])) {
        Ok(Commands::Bundle { path, binary, keep_source }) => {
            assert_eq!(path, ".");
            assert!(!binary);
            assert!(!keep_source);
        }
        _ => panic!("expected bundle"),
    }
}

#[test]
fn compile_clean_and_rebuild_conflict() {
    let out = parse_args(args(&["compile", "--clean", "--rebuild"])).err().expect("conflict");
    assert!(out.message.contains("cannot be used with"));
}

#[test]
fn init_reads_dir_name_flag() {
    match parse_args(args(&["init", "somemod", "--dir-name", "somewhere"])) {
        Ok(Commands::Init { name, dir_name, native, backend }) => {
            assert_eq!(name, "somemod");
            assert_eq!(dir_name.as_deref(), Some("somewhere"));
            assert!(native.is_none());
            assert!(backend.is_none());
        }
        _ => panic!("expected init"),
    }
}

#[test]
fn remove_reads_force_flag() {
    match parse_args(args(&["remove", "mymod", "--force"])) {
        Ok(Commands::Remove { name, force }) => {
            assert_eq!(name, "mymod");
            assert!(force);
        }
        _ => panic!("expected remove"),
    }
}

#[test]
fn branch_with_path_is_rejected() {
    match parse_args(args(&["install", "--path", "x", "--branch", "main"])) {
        Err(out) => assert_ne!(out.exit_code, 0),
        Ok(Commands::Install(a)) => {
            let msg = install::run(a).err().expect("--branch does not apply to --path").message();
            assert!(msg.contains("don't apply to --path"), "message was:\n{msg}");
        }
        Ok(_) => panic!("expected install"),
    }
}

fn matched(sub: &str, values: &[(&str, &str)], flags: &[&str]) -> Matched {
    Matched {
        subcommand: Some(sub.to_owned()),
        values: values.iter().map(|(k, v)| (k.to_string(), Some(v.to_string()))).collect(),
        flags: flags.iter().map(|k| (k.to_string(), Some(true))).collect(),
    }
}

#[test]
fn found_values_become_command_fields() {
    let m = matched(
        "install",
        &[("git", "https://github.com/u/r"), ("tag", "v1"), ("module_dir", "sub")],
        &["install_deps"],
    );
    match commands_from(&m) {
        Ok(Commands::Install(a)) => {
            assert_eq!(a.git.as_deref(), Some("https://github.com/u/r"));
            assert_eq!(a.tag.as_deref(), Some("v1"));
            assert_eq!(a.module_dir.as_deref(), Some("sub"));
            assert!(a.branch.is_none() && a.rev.is_none() && a.source.is_none());
            assert!(a.install_deps);
        }
        _ => panic!("expected an install command"),
    }
    match commands_from(&matched("bundle", &[("path", "proj")], &["keep_source"])) {
        Ok(Commands::Bundle { path, binary, keep_source }) => {
            assert_eq!(path, "proj");
            assert!(!binary && keep_source);
        }
        _ => panic!("expected a bundle command"),
    }
    // the first entry for an id wins
    let m = Matched {
        subcommand: Some("remove".to_owned()),
        values: vec![("name".to_owned(), Some("a".to_owned())), ("name".to_owned(), Some("b".to_owned()))],
        flags: vec![("force".to_owned(), Some(false)), ("force".to_owned(), Some(true))],
    };
    match commands_from(&m) {
        Ok(Commands::Remove { name, force }) => {
            assert_eq!(name, "a");
            assert!(!force);
        }
        _ => panic!("expected a remove command"),
    }
}

#[test]
fn missing_required_values_are_usage_errors() {
    let e = commands_from(&matched("init", &[], &[])).err().unwrap();
    assert_eq!(e.message, "error: missing name");
    assert_eq!(e.exit_code, 2);
    assert!(e.to_stderr);
    let e = commands_from(&matched("lock", &[("name", "x")], &[])).err().unwrap();
    assert_eq!(e.message, "error: missing path");
    let e = commands_from(&matched("frobnicate", &[], &[])).err().unwrap();
    assert_eq!(e.message, "error: missing subcommand");
    let none = Matched { subcommand: None, values: vec![], flags: vec![] };
    assert_eq!(commands_from(&none).err().unwrap().message, "error: missing subcommand");
}
