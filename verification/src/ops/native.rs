//! Building a module's native code right after it is unpacked.

use vstd::prelude::*;

use crate::baler_toml::BalerToml;
use crate::ops::compile::{declares_build_deps, has_build_deps, native_steps, native_steps_ok, NativeStep};
use crate::text::concat3;

verus! {

/// What installing a module's native code comes to.
pub enum NativeBuild {
    /// The module has no native code.
    Nothing,
    /// The module has native code but dependencies are not being installed:
    /// only tell the user how to build it.
    Notice(String),
    /// Build each step (clearing `.lib/` where the step says so, and
    /// removing the native directory once it is built), after installing
    /// `[compiled-code].build_deps` when `install_build_deps`.
    Build { install_build_deps: bool, steps: Vec<NativeStep> },
}

/// The notice printed when a module with native code is installed without
/// its dependencies.
pub open spec fn spec_native_notice(name: Seq<char>) -> Seq<char> {
    " [native] "@ + name + " has compiled code, build with: baler install --install-deps"@
}

/// Plans building the native code of a module unpacked at `module_root`,
/// whose native directories (as declared by its `baler.toml`, or found on
/// disk) are `native_dirs`.
pub fn build_native_if_present(
    module_root: &str,
    name: &str,
    install_deps: bool,
    toml: &BalerToml,
    native_dirs: &Vec<String>,
) -> (res: NativeBuild)
    ensures
        native_dirs@.len() == 0 ==> res is Nothing,
        native_dirs@.len() > 0 && !install_deps ==> (res matches NativeBuild::Notice(m) && m@
            == spec_native_notice(name@)),
        native_dirs@.len() > 0 && install_deps ==> (res matches NativeBuild::Build {
            install_build_deps,
            steps,
        } && install_build_deps == has_build_deps(*toml) && native_steps_ok(
            steps@,
            native_dirs@.map_values(|s: String| s@),
            module_root@,
            name@,
            true,
        )),
{
    if native_dirs.len() == 0 {
        return NativeBuild::Nothing;
    }
    if !install_deps {
        return NativeBuild::Notice(
            concat3(" [native] ", name, " has compiled code, build with: baler install --install-deps"),
        );
    }
    let install_build_deps = declares_build_deps(toml);
    NativeBuild::Build { install_build_deps, steps: native_steps(module_root, name, native_dirs, true) }
}

} // verus!
