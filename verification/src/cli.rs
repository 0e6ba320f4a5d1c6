//! The `baler` command line: its subcommands and flags, parsed by `clap`.

use vstd::prelude::*;

use crate::commands::compile::CompileArgs;
use crate::commands::install::InstallArgs;
use crate::paths::views;
use crate::text::{opt_view, owned, str_eq};

verus! {

/// The version `baler --version` reports.
pub const VERSION: &'static str = "0.1.0";

#[verifier::external_type_specification]
#[verifier::external_body]
pub struct ExClapCommand(clap::Command);

#[verifier::external_type_specification]
#[verifier::external_body]
pub struct ExClapArg(clap::Arg);


/// A parse that ended without a command to run: help or version output
/// (on stdout, exit code 0), or a usage error (on stderr).
pub struct CliError {
    /// The text clap rendered.
    pub message: String,
    /// The exit code clap gives this outcome.
    pub exit_code: i32,
    /// Whether the text goes to stderr rather than stdout.
    pub to_stderr: bool,
}

/// `clap::Command::new`.
#[verifier::external_body]
fn command_new(name: &'static str) -> clap::Command {
    clap::Command::new(name)
}

/// `clap::Command::version`.
#[verifier::external_body]
fn command_version(c: clap::Command, v: &'static str) -> clap::Command {
    c.version(v)
}

/// `clap::Command::about`.
#[verifier::external_body]
fn command_about(c: clap::Command, about: &'static str) -> clap::Command {
    c.about(about)
}

/// `clap::Command::arg`.
#[verifier::external_body]
fn command_arg(c: clap::Command, a: clap::Arg) -> clap::Command {
    c.arg(a)
}

/// `clap::Command::subcommand`.
#[verifier::external_body]
fn command_subcommand(c: clap::Command, sub: clap::Command) -> clap::Command {
    c.subcommand(sub)
}

/// `clap::Command::subcommand_required`.
#[verifier::external_body]
fn command_subcommand_required(c: clap::Command, yes: bool) -> clap::Command {
    c.subcommand_required(yes)
}

/// `clap::Command::arg_required_else_help`.
#[verifier::external_body]
fn command_arg_required_else_help(c: clap::Command, yes: bool) -> clap::Command {
    c.arg_required_else_help(yes)
}

/// `clap::Arg::new`.
#[verifier::external_body]
fn arg_new(id: &'static str) -> clap::Arg {
    clap::Arg::new(id)
}

/// `clap::Arg::long`.
#[verifier::external_body]
fn arg_long(a: clap::Arg, long: &'static str) -> clap::Arg {
    a.long(long)
}

/// `clap::Arg::help`.
#[verifier::external_body]
fn arg_help(a: clap::Arg, help: &'static str) -> clap::Arg {
    a.help(help)
}

/// `clap::Arg::value_name`.
#[verifier::external_body]
fn arg_value_name(a: clap::Arg, name: &'static str) -> clap::Arg {
    a.value_name(name)
}

/// `clap::Arg::required`.
#[verifier::external_body]
fn arg_required(a: clap::Arg, yes: bool) -> clap::Arg {
    a.required(yes)
}

/// `clap::Arg::action` with `ArgAction::SetTrue`: a flag without a value.
#[verifier::external_body]
fn arg_set_true(a: clap::Arg) -> clap::Arg {
    a.action(clap::ArgAction::SetTrue)
}

/// `clap::Arg::default_value`.
#[verifier::external_body]
fn arg_default_value(a: clap::Arg, v: &'static str) -> clap::Arg {
    a.default_value(v)
}

/// `clap::Arg::conflicts_with_all`.
#[verifier::external_body]
fn arg_conflicts_with_all(a: clap::Arg, ids: Vec<&'static str>) -> clap::Arg {
    a.conflicts_with_all(ids)
}

/// `clap::Arg::requires`.
#[verifier::external_body]
fn arg_requires(a: clap::Arg, id: &'static str) -> clap::Arg {
    a.requires(id)
}


/// One argument of a subcommand, as plain values: what `clap` is told
/// about it.
pub struct ArgDef {
    pub id: &'static str,
    /// `--long`; `None` for a positional argument.
    pub long: Option<&'static str>,
    /// The placeholder of its value; `None` for a flag, which takes none.
    pub value_name: Option<&'static str>,
    pub help: &'static str,
    pub required: bool,
    pub default_value: Option<&'static str>,
    /// The ids of the arguments it cannot be given together with.
    pub conflicts_with: Vec<&'static str>,
    /// The id of an argument that must be given with it.
    pub needs: Option<&'static str>,
}

/// A subcommand and its arguments.
pub struct CommandDef {
    pub name: &'static str,
    pub about: &'static str,
    pub args: Vec<ArgDef>,
}

/// The whole command line: a subcommand is required, and with no arguments
/// at all the help is shown.
pub struct CliDef {
    pub name: &'static str,
    pub version: &'static str,
    pub about: &'static str,
    pub subcommands: Vec<CommandDef>,
}

/// The about and help texts of the command line.
pub const ABOUT_INIT: &'static str = "Scaffold a new box module";

pub const HELP_INIT_NAME: &'static str = "Name of the module to create";

pub const HELP_DIR_NAME: &'static str = "Override the project directory name. Defaults to <name>-proj if not specified";

pub const HELP_NATIVE: &'static str = "Scaffold compiled-code support: c or cpp";

pub const HELP_BACKEND: &'static str = "Binding library for --native (cpp: rcpp (default) or cpp11)";

pub const ABOUT_BUNDLE: &'static str = "Bundle a module into <name>_<version>.tar.gz";

pub const HELP_PROJECT_PATH: &'static str = "Path to the project root (e.g. `.` or `./my-project`)";

pub const HELP_BINARY: &'static str = "Also compile native code in place and include the tagged binary in the archive";

pub const HELP_KEEP_SOURCE: &'static str = "Only valid with --binary. Also ships native source alongside the compiled binary";

pub const HELP_CLEAN: &'static str = "Remove this module's cached and compiled native artifacts and stop, without compiling";

pub const HELP_REBUILD: &'static str = "Force a real recompile even if the source hash hasn't changed";

pub const ABOUT_COMPILE: &'static str = "Compile a module's native code in place for local dev/testing";

pub const HELP_SOURCE: &'static str = "Bare module name for a registry lookup (registries aren't implemented yet)";

pub const HELP_INSTALL_DEPS: &'static str = "Automatically install R package dependencies from CRAN";

pub const HELP_REPO: &'static str = "Registry URL to look SOURCE up in (registries aren't implemented yet)";

pub const HELP_VERSION: &'static str = "Version constraint for a registry lookup";

pub const HELP_PATH: &'static str = "Install from a local directory or .tar.gz";

pub const HELP_GIT: &'static str = "Install from a GitHub repo, e.g. https://github.com/user/repo (GitHub-tarball fetch only, not generic git, despite the flag name)";

pub const HELP_BRANCH: &'static str = "Branch to install from --git";

pub const HELP_TAG: &'static str = "Tag to install from --git";

pub const HELP_REV: &'static str = "Commit to install from --git";

pub const HELP_URL: &'static str = "Install directly from an already-bundled archive URL, e.g. a GitHub Release asset produced by `baler bundle`";

pub const HELP_MODULE_DIR: &'static str = "Directory within --git's repo that holds the module, for a repo holding more than one";

pub const ABOUT_INSTALL: &'static str = "Install a module: a registry name (positional, --repo/--version), a local path or .tar.gz (--path), a GitHub repo (--git), or a direct tarball URL (--url)";

pub const HELP_UPDATE: &'static str = "Ignore any existing baler.lock and re-resolve everything fresh instead of reusing its pins";

pub const HELP_WITH_RVER: &'static str = "Record the R version currently on PATH in baler.lock, as provenance only, not enforced on install";

pub const ABOUT_LOCK: &'static str = "Resolve R package dependencies and write baler.lock, without installing anything";

pub const HELP_REMOVE_LOCK: &'static str = "Delete baler.lock instead of writing one. This is the safe version of removal, baler just resolves fresh without it";

pub const ABOUT_REMOVE: &'static str = "Remove an installed module";

pub const HELP_REMOVE_NAME: &'static str = "Name of the module to remove";

pub const HELP_FORCE: &'static str = "Skip confirmation prompt";

pub const ABOUT_BALER: &'static str = "A bundler and package manager for box modules";

/// The view of an optional static string.
pub open spec fn opt_str(o: Option<&'static str>) -> Option<Seq<char>> {
    match o {
        Some(s) => Some(s@),
        None => None,
    }
}

/// The views of static strings.
pub open spec fn strs(v: Seq<&'static str>) -> Seq<Seq<char>> {
    v.map_values(|s: &'static str| s@)
}

/// `a` declares the argument `id` with these properties.
pub open spec fn arg_is(
    a: ArgDef,
    id: Seq<char>,
    long: Option<Seq<char>>,
    value_name: Option<Seq<char>>,
    required: bool,
    default_value: Option<Seq<char>>,
    conflicts_with: Seq<Seq<char>>,
    needs: Option<Seq<char>>,
) -> bool {
    &&& a.id@ == id
    &&& opt_str(a.long) == long
    &&& opt_str(a.value_name) == value_name
    &&& a.required == required
    &&& opt_str(a.default_value) == default_value
    &&& strs(a.conflicts_with@) == conflicts_with
    &&& opt_str(a.needs) == needs
}

/// `a` is the flag `--long` (id `id`), off unless given.
pub open spec fn is_flag(a: ArgDef, id: Seq<char>, long: Seq<char>, conflicts_with: Seq<Seq<char>>) -> bool {
    arg_is(a, id, Some(long), None, false, None, conflicts_with, None)
}

/// `a` is the optional `--long <value_name>` (id `id`).
pub open spec fn is_option(
    a: ArgDef,
    id: Seq<char>,
    long: Seq<char>,
    value_name: Seq<char>,
    conflicts_with: Seq<Seq<char>>,
    needs: Option<Seq<char>>,
) -> bool {
    arg_is(a, id, Some(long), Some(value_name), false, None, conflicts_with, needs)
}

/// `c` has the about text `about`, and its arguments the help texts
/// `helps`, in order.
pub open spec fn helps_are(c: CommandDef, about: Seq<char>, helps: Seq<Seq<char>>) -> bool {
    &&& c.about@ == about
    &&& c.args@.len() == helps.len()
    &&& forall|i: int| 0 <= i < helps.len() ==> (#[trigger] c.args@[i]).help@ == helps[i]
}

/// `c` is `baler init <NAME> [--dir-name] [--native] [--backend]`.
pub open spec fn is_init_def(c: CommandDef) -> bool {
    let a = c.args@;
    &&& c.name@ == "init"@
    &&& a.len() == 4
    &&& arg_is(a[0], "name"@, None, Some("NAME"@), true, None, seq![], None)
    &&& is_option(a[1], "dir_name"@, "dir-name"@, "DIR_NAME"@, seq![], None)
    &&& is_option(a[2], "native"@, "native"@, "NATIVE"@, seq![], None)
    &&& is_option(a[3], "backend"@, "backend"@, "BACKEND"@, seq![], None)
    &&& helps_are(c, ABOUT_INIT@, seq![HELP_INIT_NAME@, HELP_DIR_NAME@, HELP_NATIVE@, HELP_BACKEND@])
}

/// `c` is `baler bundle [PATH, default .] [--binary] [--keep-source]`.
pub open spec fn is_bundle_def(c: CommandDef) -> bool {
    let a = c.args@;
    &&& c.name@ == "bundle"@
    &&& a.len() == 3
    &&& arg_is(a[0], "path"@, None, Some("PATH"@), false, Some("."@), seq![], None)
    &&& is_flag(a[1], "binary"@, "binary"@, seq![])
    &&& is_flag(a[2], "keep_source"@, "keep-source"@, seq![])
    &&& helps_are(c, ABOUT_BUNDLE@, seq![HELP_PROJECT_PATH@, HELP_BINARY@, HELP_KEEP_SOURCE@])
}

/// `c` is `baler compile [PATH, default .] [--clean | --rebuild]`.
pub open spec fn is_compile_def(c: CommandDef) -> bool {
    let a = c.args@;
    &&& c.name@ == "compile"@
    &&& a.len() == 3
    &&& arg_is(a[0], "path"@, None, Some("PATH"@), false, Some("."@), seq![], None)
    &&& is_flag(a[1], "clean"@, "clean"@, seq!["rebuild"@])
    &&& is_flag(a[2], "rebuild"@, "rebuild"@, seq!["clean"@])
    &&& helps_are(c, ABOUT_COMPILE@, seq![HELP_PROJECT_PATH@, HELP_CLEAN@, HELP_REBUILD@])
}

/// `c` is `baler install`: a bare name, `--path`, `--git` or `--url`, each
/// excluding the others; `--repo`/`--version` only with a bare name;
/// `--branch`/`--tag`/`--rev` (one at most) and `--module-dir` only with
/// `--git`.
pub open spec fn is_install_def(c: CommandDef) -> bool {
    let a = c.args@;
    &&& c.name@ == "install"@
    &&& a.len() == 11
    &&& arg_is(a[0], "source"@, None, Some("SOURCE"@), false, None, seq!["path"@, "git"@, "url"@], None)
    &&& is_flag(a[1], "install_deps"@, "install-deps"@, seq![])
    &&& is_option(a[2], "repo"@, "repo"@, "REPO"@, seq!["path"@, "git"@, "url"@], Some("source"@))
    &&& is_option(a[3], "version"@, "version"@, "VERSION"@, seq!["path"@, "git"@, "url"@], Some("source"@))
    &&& is_option(a[4], "path"@, "path"@, "PATH"@, seq!["source"@, "git"@, "url"@], None)
    &&& is_option(a[5], "git"@, "git"@, "GIT"@, seq!["source"@, "path"@, "url"@], None)
    &&& is_option(a[6], "branch"@, "branch"@, "BRANCH"@, seq!["tag"@, "rev"@], Some("git"@))
    &&& is_option(a[7], "tag"@, "tag"@, "TAG"@, seq!["branch"@, "rev"@], Some("git"@))
    &&& is_option(a[8], "rev"@, "rev"@, "REV"@, seq!["branch"@, "tag"@], Some("git"@))
    &&& is_option(a[9], "url"@, "url"@, "URL"@, seq!["source"@, "path"@, "git"@], None)
    &&& is_option(
        a[10],
        "module_dir"@,
        "module-dir"@,
        "MODULE_DIR"@,
        seq!["source"@, "path"@, "url"@],
        Some("git"@),
    )
    &&& helps_are(
        c,
        ABOUT_INSTALL@,
        seq![
            HELP_SOURCE@,
            HELP_INSTALL_DEPS@,
            HELP_REPO@,
            HELP_VERSION@,
            HELP_PATH@,
            HELP_GIT@,
            HELP_BRANCH@,
            HELP_TAG@,
            HELP_REV@,
            HELP_URL@,
            HELP_MODULE_DIR@,
        ],
    )
}

/// `c` is `baler lock <PATH> [--update] [--with-rver] [--remove]`, where
/// `--remove` excludes the other two.
pub open spec fn is_lock_def(c: CommandDef) -> bool {
    let a = c.args@;
    &&& c.name@ == "lock"@
    &&& a.len() == 4
    &&& arg_is(a[0], "path"@, None, Some("PATH"@), true, None, seq![], None)
    &&& is_flag(a[1], "update"@, "update"@, seq!["remove"@])
    &&& is_flag(a[2], "with_rver"@, "with-rver"@, seq!["remove"@])
    &&& is_flag(a[3], "remove"@, "remove"@, seq![])
    &&& helps_are(c, ABOUT_LOCK@, seq![HELP_PROJECT_PATH@, HELP_UPDATE@, HELP_WITH_RVER@, HELP_REMOVE_LOCK@])
}

/// `c` is `baler remove <NAME> [--force]`.
pub open spec fn is_remove_def(c: CommandDef) -> bool {
    let a = c.args@;
    &&& c.name@ == "remove"@
    &&& a.len() == 2
    &&& arg_is(a[0], "name"@, None, Some("NAME"@), true, None, seq![], None)
    &&& is_flag(a[1], "force"@, "force"@, seq![])
    &&& helps_are(c, ABOUT_REMOVE@, seq![HELP_REMOVE_NAME@, HELP_FORCE@])
}

/// `d` is the `baler` command line: its name and version, and the six
/// subcommands init, compile, bundle, install, lock and remove, in order.
pub open spec fn is_baler_cli(d: CliDef) -> bool {
    let c = d.subcommands@;
    &&& d.name@ == "baler"@
    &&& d.version@ == VERSION@
    &&& c.len() == 6
    &&& is_init_def(c[0])
    &&& is_compile_def(c[1])
    &&& is_bundle_def(c[2])
    &&& is_install_def(c[3])
    &&& is_lock_def(c[4])
    &&& is_remove_def(c[5])
    &&& d.about@ == ABOUT_BALER@
}

/// A boolean flag `--long`.
fn flag(id: &'static str, long: &'static str, help: &'static str) -> (res: ArgDef)
    ensures
        is_flag(res, id@, long@, seq![]),
        res.help == help,
{
    let res = ArgDef {
        id,
        long: Some(long),
        value_name: None,
        help,
        required: false,
        default_value: None,
        conflicts_with: Vec::new(),
        needs: None,
    };
    assert(strs(res.conflicts_with@) =~= seq![]);
    res
}

/// An optional value `--long <VALUE>`.
fn option(id: &'static str, long: &'static str, value_name: &'static str, help: &'static str) -> (res: ArgDef)
    ensures
        is_option(res, id@, long@, value_name@, seq![], None),
        res.help == help,
{
    let res = ArgDef {
        id,
        long: Some(long),
        value_name: Some(value_name),
        help,
        required: false,
        default_value: None,
        conflicts_with: Vec::new(),
        needs: None,
    };
    assert(strs(res.conflicts_with@) =~= seq![]);
    res
}

/// A positional argument.
fn positional(
    id: &'static str,
    value_name: &'static str,
    help: &'static str,
    required: bool,
    default_value: Option<&'static str>,
) -> (res: ArgDef)
    ensures
        arg_is(res, id@, None, Some(value_name@), required, opt_str(default_value), seq![], None),
        res.help == help,
{
    let res = ArgDef {
        id,
        long: None,
        value_name: Some(value_name),
        help,
        required,
        default_value,
        conflicts_with: Vec::new(),
        needs: None,
    };
    assert(strs(res.conflicts_with@) =~= seq![]);
    res
}

/// `a` with the conflicts `ids`.
fn conflicting(a: ArgDef, ids: Vec<&'static str>) -> (res: ArgDef)
    ensures
        res == (ArgDef { conflicts_with: ids, ..a }),
{
    ArgDef { conflicts_with: ids, ..a }
}

/// `a`, needing the argument `id`.
fn needing(a: ArgDef, id: &'static str) -> (res: ArgDef)
    ensures
        res == (ArgDef { needs: Some(id), ..a }),
{
    ArgDef { needs: Some(id), ..a }
}

/// `baler init`.
fn init_command() -> (res: CommandDef)
    ensures
        is_init_def(res),
{
    let res = CommandDef {
        name: "init",
        about: ABOUT_INIT,
        args: vec![
            positional("name", "NAME", HELP_INIT_NAME, true, None),
            option(
                "dir_name",
                "dir-name",
                "DIR_NAME",
                HELP_DIR_NAME,
            ),
            option("native", "native", "NATIVE", HELP_NATIVE),
            option(
                "backend",
                "backend",
                "BACKEND",
                HELP_BACKEND,
            ),
        ],
    };
    res
}

/// `baler bundle`.
fn bundle_command() -> (res: CommandDef)
    ensures
        is_bundle_def(res),
{
    CommandDef {
        name: "bundle",
        about: ABOUT_BUNDLE,
        args: vec![
            positional("path", "PATH", HELP_PROJECT_PATH, false, Some(".")),
            flag(
                "binary",
                "binary",
                HELP_BINARY,
            ),
            flag(
                "keep_source",
                "keep-source",
                HELP_KEEP_SOURCE,
            ),
        ],
    }
}

/// `baler compile`.
fn compile_command() -> (res: CommandDef)
    ensures
        is_compile_def(res),
{
    let clean = conflicting(
        flag(
            "clean",
            "clean",
            HELP_CLEAN,
        ),
        vec!["rebuild"],
    );
    assert(strs(clean.conflicts_with@) =~= seq!["rebuild"@]);
    let rebuild = conflicting(
        flag("rebuild", "rebuild", HELP_REBUILD),
        vec!["clean"],
    );
    assert(strs(rebuild.conflicts_with@) =~= seq!["clean"@]);
    CommandDef {
        name: "compile",
        about: ABOUT_COMPILE,
        args: vec![
            positional("path", "PATH", HELP_PROJECT_PATH, false, Some(".")),
            clean,
            rebuild,
        ],
    }
}

/// `baler install`.
fn install_command() -> (res: CommandDef)
    ensures
        is_install_def(res),
{
    let source = conflicting(
        positional(
            "source",
            "SOURCE",
            HELP_SOURCE,
            false,
            None,
        ),
        vec!["path", "git", "url"],
    );
    assert(strs(source.conflicts_with@) =~= seq!["path"@, "git"@, "url"@]);
    let install_deps = flag(
        "install_deps",
        "install-deps",
        HELP_INSTALL_DEPS,
    );
    let repo = conflicting(
        needing(
            option("repo", "repo", "REPO", HELP_REPO),
            "source",
        ),
        vec!["path", "git", "url"],
    );
    assert(strs(repo.conflicts_with@) =~= seq!["path"@, "git"@, "url"@]);
    let version = conflicting(
        needing(option("version", "version", "VERSION", HELP_VERSION), "source"),
        vec!["path", "git", "url"],
    );
    assert(strs(version.conflicts_with@) =~= seq!["path"@, "git"@, "url"@]);
    let path = conflicting(
        option("path", "path", "PATH", HELP_PATH),
        vec!["source", "git", "url"],
    );
    assert(strs(path.conflicts_with@) =~= seq!["source"@, "git"@, "url"@]);
    let git = conflicting(
        option(
            "git",
            "git",
            "GIT",
            HELP_GIT,
        ),
        vec!["source", "path", "url"],
    );
    assert(strs(git.conflicts_with@) =~= seq!["source"@, "path"@, "url"@]);
    let branch = conflicting(
        needing(option("branch", "branch", "BRANCH", HELP_BRANCH), "git"),
        vec!["tag", "rev"],
    );
    assert(strs(branch.conflicts_with@) =~= seq!["tag"@, "rev"@]);
    let tag = conflicting(
        needing(option("tag", "tag", "TAG", HELP_TAG), "git"),
        vec!["branch", "rev"],
    );
    assert(strs(tag.conflicts_with@) =~= seq!["branch"@, "rev"@]);
    let rev = conflicting(
        needing(option("rev", "rev", "REV", HELP_REV), "git"),
        vec!["branch", "tag"],
    );
    assert(strs(rev.conflicts_with@) =~= seq!["branch"@, "tag"@]);
    let url = conflicting(
        option(
            "url",
            "url",
            "URL",
            HELP_URL,
        ),
        vec!["source", "path", "git"],
    );
    assert(strs(url.conflicts_with@) =~= seq!["source"@, "path"@, "git"@]);
    let module_dir = conflicting(
        needing(
            option(
                "module_dir",
                "module-dir",
                "MODULE_DIR",
                HELP_MODULE_DIR,
            ),
            "git",
        ),
        vec!["source", "path", "url"],
    );
    assert(strs(module_dir.conflicts_with@) =~= seq!["source"@, "path"@, "url"@]);
    CommandDef {
        name: "install",
        about: ABOUT_INSTALL,
        args: vec![source, install_deps, repo, version, path, git, branch, tag, rev, url, module_dir],
    }
}

/// `baler lock`.
fn lock_command() -> (res: CommandDef)
    ensures
        is_lock_def(res),
{
    let update = conflicting(
        flag(
            "update",
            "update",
            HELP_UPDATE,
        ),
        vec!["remove"],
    );
    assert(strs(update.conflicts_with@) =~= seq!["remove"@]);
    let with_rver = conflicting(
        flag(
            "with_rver",
            "with-rver",
            HELP_WITH_RVER,
        ),
        vec!["remove"],
    );
    assert(strs(with_rver.conflicts_with@) =~= seq!["remove"@]);
    CommandDef {
        name: "lock",
        about: ABOUT_LOCK,
        args: vec![
            positional("path", "PATH", HELP_PROJECT_PATH, true, None),
            update,
            with_rver,
            flag(
                "remove",
                "remove",
                HELP_REMOVE_LOCK,
            ),
        ],
    }
}

/// `baler remove`.
fn remove_command() -> (res: CommandDef)
    ensures
        is_remove_def(res),
{
    CommandDef {
        name: "remove",
        about: ABOUT_REMOVE,
        args: vec![
            positional("name", "NAME", HELP_REMOVE_NAME, true, None),
            flag("force", "force", HELP_FORCE),
        ],
    }
}

/// The whole `baler` command line.
fn baler_command() -> (res: CliDef)
    ensures
        is_baler_cli(res),
{
    CliDef {
        name: "baler",
        version: VERSION,
        about: ABOUT_BALER,
        subcommands: vec![
            init_command(),
            compile_command(),
            bundle_command(),
            install_command(),
            lock_command(),
            remove_command(),
        ],
    }
}

/// The `clap` argument an `ArgDef` describes.
fn clap_arg(a: &ArgDef) -> clap::Arg {
    let mut c = arg_required(arg_help(arg_new(a.id), a.help), a.required);
    if let Some(l) = a.long {
        c = arg_long(c, l);
    }
    c = match a.value_name {
        Some(v) => arg_value_name(c, v),
        None => arg_set_true(c),
    };
    if let Some(d) = a.default_value {
        c = arg_default_value(c, d);
    }
    if a.conflicts_with.len() > 0 {
        c = arg_conflicts_with_all(c, a.conflicts_with.clone());
    }
    if let Some(r) = a.needs {
        c = arg_requires(c, r);
    }
    c
}

/// The `clap` subcommand a `CommandDef` describes.
fn clap_subcommand(d: &CommandDef) -> clap::Command {
    let mut c = command_about(command_new(d.name), d.about);
    let mut i: usize = 0;
    while i < d.args.len()
        decreases d.args@.len() - i,
    {
        c = command_arg(c, clap_arg(&d.args[i]));
        i = i + 1;
    }
    c
}

/// A `clap` command together with the definition it was built from. Only
/// `clap_command` makes one, so `cmd` is always what `def` describes.
struct BuiltCommand {
    cmd: clap::Command,
    def: Ghost<CliDef>,
}

/// The `clap` command a `CliDef` describes.
fn clap_command(d: &CliDef) -> (res: BuiltCommand)
    ensures
        res.def@ == *d,
{
    let c = command_about(command_version(command_new(d.name), d.version), d.about);
    let mut c = command_arg_required_else_help(command_subcommand_required(c, true), true);
    let mut i: usize = 0;
    while i < d.subcommands.len()
        decreases d.subcommands@.len() - i,
    {
        c = command_subcommand(c, clap_subcommand(&d.subcommands[i]));
        i = i + 1;
    }
    BuiltCommand { cmd: c, def: Ghost(*d) }
}

/// A subcommand with the values of its arguments.
pub enum Commands {
    Init { name: String, dir_name: Option<String>, native: Option<String>, backend: Option<String> },
    Bundle { path: String, binary: bool, keep_source: bool },
    Compile(CompileArgs),
    Install(InstallArgs),
    Lock { path: String, update: bool, with_rver: bool, remove: bool },
    Remove { name: String, force: bool },
}

/// What clap found for the chosen subcommand, as plain values.
pub struct Matched {
    /// The subcommand's name, if one was given.
    pub subcommand: Option<String>,
    /// `(id, value)` for each argument that takes a value.
    pub values: Vec<(String, Option<String>)>,
    /// `(id, on)` for each flag; `None` when clap holds no value for it.
    pub flags: Vec<(String, Option<bool>)>,
}

/// The value found for the argument `id`: that of its first entry.
pub open spec fn value_of(vals: Seq<(String, Option<String>)>, id: Seq<char>) -> Option<Seq<char>>
    decreases vals.len(),
{
    if vals.len() == 0 {
        None
    } else if vals[0].0@ == id {
        opt_view(vals[0].1)
    } else {
        value_of(vals.drop_first(), id)
    }
}

/// Whether the flag `id` is on: as its first entry says, off when it has none.
pub open spec fn flag_on(flags: Seq<(String, Option<bool>)>, id: Seq<char>) -> bool
    decreases flags.len(),
{
    if flags.len() == 0 {
        false
    } else if flags[0].0@ == id {
        flags[0].1 == Some(true)
    } else {
        flag_on(flags.drop_first(), id)
    }
}

/// `e` is the usage error for a missing `what`.
pub open spec fn missing_error(e: CliError, what: Seq<char>) -> bool {
    e.message@ == "error: missing "@ + what && e.exit_code == 2 && e.to_stderr
}

/// The arguments of `baler install` are those found in `m`.
pub open spec fn install_args_match(a: InstallArgs, m: Matched) -> bool {
    let v = m.values@;
    &&& opt_view(a.source) == value_of(v, "source"@)
    &&& a.install_deps == flag_on(m.flags@, "install_deps"@)
    &&& opt_view(a.repo) == value_of(v, "repo"@)
    &&& opt_view(a.version) == value_of(v, "version"@)
    &&& opt_view(a.path) == value_of(v, "path"@)
    &&& opt_view(a.git) == value_of(v, "git"@)
    &&& opt_view(a.branch) == value_of(v, "branch"@)
    &&& opt_view(a.tag) == value_of(v, "tag"@)
    &&& opt_view(a.rev) == value_of(v, "rev"@)
    &&& opt_view(a.url) == value_of(v, "url"@)
    &&& opt_view(a.module_dir) == value_of(v, "module_dir"@)
}

/// `res` is the command that what clap found, `m`, stands for: the
/// subcommand named, with each field taken from the argument of the same
/// id (`dir_name` for `--dir-name`, and so on). A required value that is
/// missing is a usage error naming it, as is an unknown subcommand.
pub open spec fn commands_match(res: Result<Commands, CliError>, m: Matched) -> bool {
    let s = match m.subcommand {
        Some(x) => x@,
        None => Seq::empty(),
    };
    let v = m.values@;
    let f = m.flags@;
    if m.subcommand is None {
        res matches Err(e) && missing_error(e, "subcommand"@)
    } else if s == "init"@ {
        match value_of(v, "name"@) {
            Some(n) => res matches Ok(Commands::Init { name, dir_name, native, backend }) && name@ == n
                && opt_view(dir_name) == value_of(v, "dir_name"@) && opt_view(native) == value_of(
                v,
                "native"@,
            ) && opt_view(backend) == value_of(v, "backend"@),
            None => res matches Err(e) && missing_error(e, "name"@),
        }
    } else if s == "bundle"@ {
        match value_of(v, "path"@) {
            Some(p) => res matches Ok(Commands::Bundle { path, binary, keep_source }) && path@ == p
                && binary == flag_on(f, "binary"@) && keep_source == flag_on(f, "keep_source"@),
            None => res matches Err(e) && missing_error(e, "path"@),
        }
    } else if s == "compile"@ {
        match value_of(v, "path"@) {
            Some(p) => res matches Ok(Commands::Compile(a)) && a.path@ == p && a.clean == flag_on(
                f,
                "clean"@,
            ) && a.rebuild == flag_on(f, "rebuild"@),
            None => res matches Err(e) && missing_error(e, "path"@),
        }
    } else if s == "install"@ {
        res matches Ok(Commands::Install(a)) && install_args_match(a, m)
    } else if s == "lock"@ {
        match value_of(v, "path"@) {
            Some(p) => res matches Ok(Commands::Lock { path, update, with_rver, remove }) && path@ == p
                && update == flag_on(f, "update"@) && with_rver == flag_on(f, "with_rver"@) && remove
                == flag_on(f, "remove"@),
            None => res matches Err(e) && missing_error(e, "path"@),
        }
    } else if s == "remove"@ {
        match value_of(v, "name"@) {
            Some(n) => res matches Ok(Commands::Remove { name, force }) && name@ == n && force == flag_on(
                f,
                "force"@,
            ),
            None => res matches Err(e) && missing_error(e, "name"@),
        }
    } else {
        res matches Err(e) && missing_error(e, "subcommand"@)
    }
}

/// A usage error for a parse that clap accepted but that lacks a value the
/// command line always provides.
fn missing(what: &str) -> (res: CliError)
    ensures
        missing_error(res, what@),
{
    let mut m = owned("error: missing ");
    m.append(what);
    CliError { message: m, exit_code: 2, to_stderr: true }
}

/// The value found for the argument `id`.
fn lookup_value(vals: &Vec<(String, Option<String>)>, id: &str) -> (res: Option<String>)
    ensures
        opt_view(res) == value_of(vals@, id@),
{
    let mut i: usize = 0;
    assert(vals@.subrange(0, vals@.len() as int) =~= vals@);
    while i < vals.len()
        invariant
            i <= vals@.len(),
            value_of(vals@.subrange(i as int, vals@.len() as int), id@) == value_of(vals@, id@),
        decreases vals@.len() - i,
    {
        let ghost rest = vals@.subrange(i as int, vals@.len() as int);
        assert(rest[0] == vals@[i as int]);
        if str_eq(vals[i].0.as_str(), id) {
            return match &vals[i].1 {
                Some(x) => Some(owned(x.as_str())),
                None => None,
            };
        }
        assert(rest.drop_first() =~= vals@.subrange(i + 1, vals@.len() as int));
        i = i + 1;
    }
    None
}

/// Whether the flag `id` is on.
fn lookup_flag(flags: &Vec<(String, Option<bool>)>, id: &str) -> (res: bool)
    ensures
        res == flag_on(flags@, id@),
{
    let mut i: usize = 0;
    assert(flags@.subrange(0, flags@.len() as int) =~= flags@);
    while i < flags.len()
        invariant
            i <= flags@.len(),
            flag_on(flags@.subrange(i as int, flags@.len() as int), id@) == flag_on(flags@, id@),
        decreases flags@.len() - i,
    {
        let ghost rest = flags@.subrange(i as int, flags@.len() as int);
        assert(rest[0] == flags@[i as int]);
        if str_eq(flags[i].0.as_str(), id) {
            return match flags[i].1 {
                Some(b) => b,
                None => false,
            };
        }
        assert(rest.drop_first() =~= flags@.subrange(i + 1, flags@.len() as int));
        i = i + 1;
    }
    false
}

/// A required value: the one found, or the usage error naming `id`.
fn required(m: &Matched, id: &str) -> (res: Result<String, CliError>)
    ensures
        match value_of(m.values@, id@) {
            Some(v) => res matches Ok(s) && s@ == v,
            None => res matches Err(e) && missing_error(e, id@),
        },
{
    match lookup_value(&m.values, id) {
        Some(s) => Ok(s),
        None => Err(missing(id)),
    }
}

/// The command that what clap found stands for.
pub fn commands_from(m: &Matched) -> (res: Result<Commands, CliError>)
    ensures
        commands_match(res, *m),
{
    let n = match &m.subcommand {
        Some(x) => x.as_str(),
        None => {
            return Err(missing("subcommand"));
        },
    };
    let v = &m.values;
    let f = &m.flags;
    if str_eq(n, "init") {
        let name = required(m, "name")?;
        Ok(
            Commands::Init {
                name,
                dir_name: lookup_value(v, "dir_name"),
                native: lookup_value(v, "native"),
                backend: lookup_value(v, "backend"),
            },
        )
    } else if str_eq(n, "bundle") {
        let path = required(m, "path")?;
        Ok(Commands::Bundle { path, binary: lookup_flag(f, "binary"), keep_source: lookup_flag(f, "keep_source") })
    } else if str_eq(n, "compile") {
        let path = required(m, "path")?;
        Ok(
            Commands::Compile(
                CompileArgs { path, clean: lookup_flag(f, "clean"), rebuild: lookup_flag(f, "rebuild") },
            ),
        )
    } else if str_eq(n, "install") {
        Ok(
            Commands::Install(
                InstallArgs {
                    source: lookup_value(v, "source"),
                    install_deps: lookup_flag(f, "install_deps"),
                    repo: lookup_value(v, "repo"),
                    version: lookup_value(v, "version"),
                    path: lookup_value(v, "path"),
                    git: lookup_value(v, "git"),
                    branch: lookup_value(v, "branch"),
                    tag: lookup_value(v, "tag"),
                    rev: lookup_value(v, "rev"),
                    url: lookup_value(v, "url"),
                    module_dir: lookup_value(v, "module_dir"),
                },
            ),
        )
    } else if str_eq(n, "lock") {
        let path = required(m, "path")?;
        Ok(
            Commands::Lock {
                path,
                update: lookup_flag(f, "update"),
                with_rver: lookup_flag(f, "with_rver"),
                remove: lookup_flag(f, "remove"),
            },
        )
    } else if str_eq(n, "remove") {
        let name = required(m, "name")?;
        Ok(Commands::Remove { name, force: lookup_flag(f, "force") })
    } else {
        Err(missing("subcommand"))
    }
}

/// What `clap` finds when the command line `args` is parsed against the
/// command built from `def`: the subcommand given, and for it the value of
/// each id of `value_ids` and of each flag of `flag_ids`; or the text, exit
/// code and stream of the help, version or usage error it renders instead.
pub uninterp spec fn clap_parse(
    def: CliDef,
    args: Seq<Seq<char>>,
    value_ids: Seq<Seq<char>>,
    flag_ids: Seq<Seq<char>>,
) -> Result<Matched, CliError>;

/// `clap::Command::try_get_matches_from` on `c`, with what it found read by
/// `ArgMatches::subcommand` and `ArgMatches::try_get_one` for each id, in
/// the order given, and a failure turned into its rendered text, exit code
/// and stream. Claims that the result is the one `clap` gives for this
/// command and these arguments, with one entry per id in that order. The
/// command is required to be the `baler` command line, on which `clap`'s
/// debug-build consistency checks hold.
#[verifier::external_body]
fn clap_try_parse(c: BuiltCommand, args: Vec<String>, value_ids: Vec<&str>, flag_ids: Vec<&str>) -> (res: Result<
    Matched,
    CliError,
>)
    requires
        is_baler_cli(c.def@),
    ensures
        res == clap_parse(c.def@, views(args@), strs(value_ids@), strs(flag_ids@)),
        res matches Ok(m) ==> found_value_ids(m.values@) == strs(value_ids@) && found_flag_ids(m.flags@)
            == strs(flag_ids@),
{
    let m = c.cmd.try_get_matches_from(args).map_err(
        |e| CliError { message: e.render().to_string(), exit_code: e.exit_code(), to_stderr: e.use_stderr() },
    )?;
    let sub = m.subcommand().map_or(&m, |(_, s)| s);
    Ok(Matched {
        subcommand: m.subcommand_name().map(String::from),
        values: value_ids.iter().map(|id| (id.to_string(), sub.try_get_one(id).ok().flatten().cloned())).collect(),
        flags: flag_ids.iter().map(|id| (id.to_string(), sub.try_get_one(id).ok().flatten().copied())).collect(),
    })
}

/// The ids of the arguments that take a value, over all subcommands.
pub open spec fn value_ids() -> Seq<Seq<char>> {
    seq![
        "name"@,
        "dir_name"@,
        "native"@,
        "backend"@,
        "path"@,
        "source"@,
        "repo"@,
        "version"@,
        "git"@,
        "branch"@,
        "tag"@,
        "rev"@,
        "url"@,
        "module_dir"@,
    ]
}

/// The ids of the flags, over all subcommands.
pub open spec fn flag_ids() -> Seq<Seq<char>> {
    seq![
        "binary"@,
        "keep_source"@,
        "clean"@,
        "rebuild"@,
        "install_deps"@,
        "update"@,
        "with_rver"@,
        "remove"@,
        "force"@,
    ]
}

/// The ids of found values, in order.
pub open spec fn found_value_ids(v: Seq<(String, Option<String>)>) -> Seq<Seq<char>> {
    v.map_values(|p: (String, Option<String>)| p.0@)
}

/// The ids of found flags, in order.
pub open spec fn found_flag_ids(f: Seq<(String, Option<bool>)>) -> Seq<Seq<char>> {
    f.map_values(|p: (String, Option<bool>)| p.0@)
}

/// Parses `args` with `clap` against the `baler` command line and reads
/// what it found: one entry for each argument id and each flag id of the
/// command line, in the order of `value_ids` and `flag_ids`.
fn read_matched(c: BuiltCommand, args: Vec<String>) -> (res: Result<Matched, CliError>)
    requires
        is_baler_cli(c.def@),
    ensures
        res == clap_parse(c.def@, views(args@), value_ids(), flag_ids()),
        res matches Ok(m) ==> found_value_ids(m.values@) == value_ids() && found_flag_ids(m.flags@)
            == flag_ids(),
{
    let vids: Vec<&str> = vec![
        "name",
        "dir_name",
        "native",
        "backend",
        "path",
        "source",
        "repo",
        "version",
        "git",
        "branch",
        "tag",
        "rev",
        "url",
        "module_dir",
    ];
    let fids: Vec<&str> = vec![
        "binary",
        "keep_source",
        "clean",
        "rebuild",
        "install_deps",
        "update",
        "with_rver",
        "remove",
        "force",
    ];
    assert(strs(vids@) =~= value_ids());
    assert(strs(fids@) =~= flag_ids());
    clap_try_parse(c, args, vids, fids)
}

/// Parses the command line `args` (the program name first) against the
/// `baler` command line. What `clap` finds is the named `clap_parse`; a
/// help, version or usage error comes back as it is, and otherwise the
/// result is the command that what was found stands for (`commands_from`).
pub fn parse_args(args: Vec<String>) -> (res: Result<Commands, CliError>)
    ensures
        exists|d: CliDef|
            is_baler_cli(d) && match #[trigger] clap_parse(d, views(args@), value_ids(), flag_ids()) {
                Ok(m) => commands_match(res, m),
                Err(e) => res == Err::<Commands, CliError>(e),
            },
{
    let def = baler_command();
    let ghost d = def;
    let built = clap_command(&def);
    let ghost a = views(args@);
    let found = read_matched(built, args);
    let res = match found {
        Ok(m) => commands_from(&m),
        Err(e) => Err(e),
    };
    proof {
        let _ = clap_parse(d, a, value_ids(), flag_ids());
    }
    res
}

} // verus!
