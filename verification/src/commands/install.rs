//! `baler install`.

use vstd::prelude::*;

use crate::ops::install::{run_outcome, InstallError, InstallPlan, InstallRequest};

verus! {

/// The arguments of `baler install`.
pub struct InstallArgs {
    pub source: Option<String>,
    pub install_deps: bool,
    pub repo: Option<String>,
    pub version: Option<String>,
    pub path: Option<String>,
    pub git: Option<String>,
    pub branch: Option<String>,
    pub tag: Option<String>,
    pub rev: Option<String>,
    pub url: Option<String>,
    pub module_dir: Option<String>,
}

/// The install request that the arguments make.
pub open spec fn request_of(a: InstallArgs) -> InstallRequest {
    InstallRequest {
        source: a.source,
        repo: a.repo,
        version: a.version,
        path: a.path,
        git: a.git,
        branch: a.branch,
        tag: a.tag,
        rev: a.rev,
        url: a.url,
        module_dir: a.module_dir,
    }
}

/// Turns the arguments into an install request and resolves it.
pub fn run(args: InstallArgs) -> (res: Result<InstallPlan, InstallError>)
    ensures
        run_outcome(res, request_of(args), args.install_deps),
{
    let req = InstallRequest {
        source: args.source,
        repo: args.repo,
        version: args.version,
        path: args.path,
        git: args.git,
        branch: args.branch,
        tag: args.tag,
        rev: args.rev,
        url: args.url,
        module_dir: args.module_dir,
    };
    crate::ops::install::run(req, args.install_deps)
}

} // verus!
