//! `baler compile`.

use vstd::prelude::*;

use crate::ops::compile::{CompileMode, CompiledArtifact};
use crate::text::{concat3, owned};

verus! {

/// The arguments of `baler compile`. `clean` and `rebuild` exclude each
/// other on the command line.
pub struct CompileArgs {
    pub path: String,
    pub clean: bool,
    pub rebuild: bool,
}

impl CompileArgs {
    /// The compile mode the flags ask for.
    pub fn mode(&self) -> (res: CompileMode)
        ensures
            self.clean ==> res == CompileMode::Clean,
            !self.clean && self.rebuild ==> res == CompileMode::Rebuild,
            !self.clean && !self.rebuild ==> res == CompileMode::Normal,
    {
        if self.clean {
            CompileMode::Clean
        } else if self.rebuild {
            CompileMode::Rebuild
        } else {
            CompileMode::Normal
        }
    }
}

/// The line reported for one compiled artifact.
pub open spec fn spec_artifact_line(a: CompiledArtifact) -> Seq<char> {
    "Compiled "@ + a.native_dir@ + " -> "@ + a.artifact_path@ + " ("@ + (if a.from_cache {
        "cached"@
    } else {
        "compiled"@
    }) + ")"@
}

/// The lines `baler compile` prints once compiling is done.
pub open spec fn spec_report(mode: CompileMode, artifacts: Seq<CompiledArtifact>) -> Seq<Seq<char>> {
    if mode == CompileMode::Clean {
        seq!["Cleared cached and compiled native artifacts for this module."@]
    } else if artifacts.len() == 0 {
        seq!["No native code to compile."@]
    } else {
        artifacts.map_values(|a: CompiledArtifact| spec_artifact_line(a)) + seq![
            ""@,
            "Native code compiled in place. box::use() will pick it up on next load."@,
        ]
    }
}

/// The lines to print after compiling in `mode` produced `artifacts`.
pub fn report(mode: CompileMode, artifacts: &Vec<CompiledArtifact>) -> (res: Vec<String>)
    ensures
        res@.map_values(|s: String| s@) == spec_report(mode, artifacts@),
{
    let mut out: Vec<String> = Vec::new();
    if mode == CompileMode::Clean {
        out.push(owned("Cleared cached and compiled native artifacts for this module."));
        assert(out@.map_values(|s: String| s@) =~= spec_report(mode, artifacts@));
        return out;
    }
    if artifacts.len() == 0 {
        out.push(owned("No native code to compile."));
        assert(out@.map_values(|s: String| s@) =~= spec_report(mode, artifacts@));
        return out;
    }
    let ghost lines = artifacts@.map_values(|a: CompiledArtifact| spec_artifact_line(a));
    let mut i: usize = 0;
    while i < artifacts.len()
        invariant
            i <= artifacts@.len(),
            lines == artifacts@.map_values(|a: CompiledArtifact| spec_artifact_line(a)),
            out@.map_values(|s: String| s@) == lines.subrange(0, i as int),
        decreases artifacts@.len() - i,
    {
        let a = &artifacts[i];
        let mut line = concat3("Compiled ", a.native_dir.as_str(), " -> ");
        line.append(a.artifact_path.as_str());
        line.append(" (");
        if a.from_cache {
            line.append("cached");
        } else {
            line.append("compiled");
        }
        line.append(")");
        let ghost prev = out@;
        out.push(line);
        assert(out@.map_values(|s: String| s@) =~= prev.map_values(|s: String| s@).push(line@));
        assert(lines.subrange(0, i + 1) =~= lines.subrange(0, i as int).push(lines[i as int]));
        i = i + 1;
    }
    let ghost prev = out@;
    let blank = owned("");
    let last = owned("Native code compiled in place. box::use() will pick it up on next load.");
    out.push(blank);
    out.push(last);
    proof {
        assert(lines.subrange(0, artifacts@.len() as int) =~= lines);
        assert(out@.map_values(|s: String| s@) =~= prev.map_values(|s: String| s@) + seq![
            blank@,
            last@,
        ]);
    }
    out
}

} // verus!
