//! The contents of a module's `baler.toml`, as plain values. Reading the
//! file and parsing its TOML happen outside the library.

use vstd::prelude::*;

use crate::paths::{join_path, spec_join, views};

verus! {

/// An author: a bare name, or a name with an email address.
#[derive(Clone, Debug)]
pub enum Author {
    Simple(String),
    Extended { name: String, email: Option<String> },
}

impl Author {
    /// The author's name.
    pub fn name(&self) -> (res: &str)
        ensures
            res@ == match self {
                Author::Simple(n) => n@,
                Author::Extended { name, .. } => name@,
            },
    {
        match self {
            Author::Simple(n) => n.as_str(),
            Author::Extended { name, .. } => name.as_str(),
        }
    }

    /// The author's email address, when one is given.
    pub fn email(&self) -> (res: Option<&str>)
        ensures
            match self {
                Author::Simple(_) => res is None,
                Author::Extended { email, .. } => match email {
                    Some(e) => res matches Some(r) && r@ == e@,
                    None => res is None,
                },
            },
    {
        match self {
            Author::Simple(_) => None,
            Author::Extended { email, .. } => match email {
                Some(e) => Some(e.as_str()),
                None => None,
            },
        }
    }
}

/// An R package dependency: a bare version constraint, or a table with one.
#[derive(Clone, Debug)]
pub enum PackageDep {
    Simple(String),
    Extended { version: String },
}

impl PackageDep {
    /// The version constraint.
    pub fn version(&self) -> (res: &str)
        ensures
            res@ == match self {
                PackageDep::Simple(v) => v@,
                PackageDep::Extended { version } => version@,
            },
    {
        match self {
            PackageDep::Simple(v) => v.as_str(),
            PackageDep::Extended { version } => version.as_str(),
        }
    }
}

/// A dependency on another baler module: a bare version constraint, or a
/// table with a version and the source the module is fetched from.
#[derive(Clone, Debug)]
pub enum ModuleDep {
    Simple(String),
    Extended { version: String, source: Option<String> },
}

/// `[project.dependencies]`: R packages, and under `baler` other modules.
/// Names are the keys; entries come in the order the manifest reader
/// hands them over (the application's TOML reader sorts them by name).
#[derive(Clone, Debug)]
pub struct Dependencies {
    pub packages: Vec<(String, PackageDep)>,
    pub baler: Option<Vec<(String, ModuleDep)>>,
}

/// `[project]`.
#[derive(Clone, Debug)]
pub struct ModuleMeta {
    pub name: String,
    pub version: String,
    pub description: String,
    pub readme: Option<String>,
    pub authors: Vec<Author>,
    pub license: String,
    pub r_version: String,
    pub repository: Option<String>,
    pub keywords: Vec<String>,
    /// The directory that holds the module's source, relative to the project root.
    pub src: Option<String>,
    pub dependencies: Dependencies,
}

/// `[development]`: packages needed only while developing the module.
#[derive(Clone, Debug)]
pub struct Development {
    pub dependencies: Option<Vec<(String, PackageDep)>>,
}

/// `[compiled-code]`: where native code lives and what it needs to build.
#[derive(Clone, Debug)]
pub struct CompiledCode {
    pub path: Option<Vec<String>>,
    pub build_deps: Option<Vec<(String, PackageDep)>>,
}

/// `[tool.test]`.
#[derive(Clone, Debug)]
pub struct TestConfig {
    pub framework: String,
    pub dir: Option<String>,
}

/// `[tool]`.
#[derive(Clone, Debug)]
pub struct Tool {
    pub test: Option<TestConfig>,
}

/// A whole `baler.toml`.
#[derive(Clone, Debug)]
pub struct BalerToml {
    pub project: ModuleMeta,
    pub development: Option<Development>,
    pub compiled_code: Option<CompiledCode>,
    pub tool: Option<Tool>,
}

/// The module dependencies a manifest declares, in order.
pub open spec fn module_deps(t: BalerToml) -> Seq<(String, ModuleDep)> {
    match t.project.dependencies.baler {
        Some(v) => v@,
        None => Seq::empty(),
    }
}

impl BalerToml {
    /// The module dependencies this manifest declares, in order.
    pub fn module_deps(&self) -> (res: &[(String, ModuleDep)])
        ensures
            res@ == module_deps(*self),
    {
        match &self.project.dependencies.baler {
            Some(v) => v.as_slice(),
            None => &[],
        }
    }

    /// The native directories `[compiled-code].path` declares, each under
    /// `root`, in order.
    pub fn native_dirs_under(&self, root: &str) -> (res: Vec<String>)
        ensures
            views(res@) == declared_native_dirs(*self, root@),
    {
        let mut out: Vec<String> = Vec::new();
        let paths = match &self.compiled_code {
            Some(c) => match &c.path {
                Some(ps) => ps,
                None => {
                    assert(views(out@) =~= declared_native_dirs(*self, root@));
                    return out;
                },
            },
            None => {
                assert(views(out@) =~= declared_native_dirs(*self, root@));
                return out;
            },
        };
        let ghost ps = views(paths@);
        let mut i: usize = 0;
        while i < paths.len()
            invariant
                i <= paths@.len(),
                ps == views(paths@),
                views(out@) == ps.subrange(0, i as int).map_values(|p: Seq<char>| spec_join(root@, p)),
            decreases paths@.len() - i,
        {
            let ghost prev = out@;
            out.push(join_path(root, paths[i].as_str()));
            assert(views(out@) =~= views(prev).push(spec_join(root@, ps[i as int])));
            assert(ps.subrange(0, i + 1).map_values(|p: Seq<char>| spec_join(root@, p)) =~= ps.subrange(
                0,
                i as int,
            ).map_values(|p: Seq<char>| spec_join(root@, p)).push(spec_join(root@, ps[i as int])));
            i = i + 1;
        }
        assert(ps.subrange(0, paths@.len() as int) =~= ps);
        out
    }
}

/// The native directories a manifest declares under `[compiled-code].path`,
/// each joined onto `root`.
pub open spec fn declared_native_dirs(t: BalerToml, root: Seq<char>) -> Seq<Seq<char>> {
    match t.compiled_code {
        Some(c) => match c.path {
            Some(ps) => views(ps@).map_values(|p: Seq<char>| spec_join(root, p)),
            None => Seq::empty(),
        },
        None => Seq::empty(),
    }
}

} // verus!
