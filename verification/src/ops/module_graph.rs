//! Resolving the modules that a module depends on, transitively.

use vstd::prelude::*;

use crate::baler_toml::{module_deps, BalerToml, ModuleDep};
use crate::paths::views;
use crate::text::{concat3, owned, str_eq};

verus! {

/// Fetches the `baler.toml` of a module from the `source` its dependents
/// declare for it. Implemented for GitHub sources by the application, and by
/// test doubles.
pub trait ModuleFetcher {
    /// `answer` is what asking this fetcher for `source` gave. A fetcher
    /// that does not say more leaves it open (any answer may come, and the
    /// same source may be answered differently each time); code generic
    /// over fetchers learns only that `fetch` gave this answer.
    closed spec fn fetched(&self, source: Seq<char>, answer: Result<BalerToml, String>) -> bool {
        true
    }

    fn fetch(&self, source: &str) -> (res: Result<BalerToml, String>)
        ensures
            self.fetched(source@, res),
    ;
}

/// The modules a root module needs, each with the version that was fetched,
/// ordered so that every module comes after all the modules it depends on.
pub struct ModuleResolution {
    /// `(name, version)` pairs.
    pub modules: Vec<(String, String)>,
    /// The manifest fetched for each entry of `modules`.
    pub manifests: Ghost<Seq<BalerToml>>,
    /// The source each entry of `modules` was fetched from.
    pub sources: Ghost<Seq<Seq<char>>>,
}

/// Why resolution stopped.
pub enum ResolveError {
    /// A module dependency declares no `source` to fetch it from.
    MissingSource { module: String },
    /// A chain of dependencies that leads back to a module on it.
    Cycle { chain: Vec<String> },
    /// The fetcher could not produce a manifest for a source.
    Fetch { source: String, message: String },
}

impl ResolveError {
    pub open spec fn spec_message(self) -> Seq<char> {
        match self {
            ResolveError::MissingSource { module } => "module dependency '"@ + module@
                + "' has no source declared"@,
            ResolveError::Cycle { chain } => "dependency cycle detected: "@ + joined(
                chain@,
                " -> "@,
            ),
            ResolveError::Fetch { source, message } => "failed to fetch module source '"@ + source@
                + "': "@ + message@,
        }
    }

    /// The text that tells a user what went wrong.
    pub fn message(&self) -> (res: String)
        ensures
            res@ == self.spec_message(),
    {
        match self {
            ResolveError::MissingSource { module } => concat3(
                "module dependency '",
                module.as_str(),
                "' has no source declared",
            ),
            ResolveError::Cycle { chain } => {
                let mut m = owned("dependency cycle detected: ");
                let j = join_with(chain, " -> ");
                m.append(j.as_str());
                m
            },
            ResolveError::Fetch { source, message } => {
                let mut m = concat3("failed to fetch module source '", source.as_str(), "': ");
                m.append(message.as_str());
                m
            },
        }
    }
}

/// The strings of `v` with `sep` between consecutive ones.
pub open spec fn joined(v: Seq<String>, sep: Seq<char>) -> Seq<char>
    decreases v.len(),
{
    if v.len() == 0 {
        Seq::empty()
    } else if v.len() == 1 {
        v[0]@
    } else {
        joined(v.drop_last(), sep) + sep + v.last()@
    }
}

/// The strings of `v` with `sep` between consecutive ones.
pub fn join_with(v: &Vec<String>, sep: &str) -> (res: String)
    ensures
        res@ == joined(v@, sep@),
{
    let mut out = String::new();
    let mut i: usize = 0;
    while i < v.len()
        invariant
            i <= v@.len(),
            out@ == joined(v@.subrange(0, i as int), sep@),
        decreases v@.len() - i,
    {
        if i > 0 {
            out.append(sep);
        }
        out.append(v[i].as_str());
        assert(v@.subrange(0, i + 1).drop_last() =~= v@.subrange(0, i as int));
        i = i + 1;
    }
    assert(v@.subrange(0, v@.len() as int) =~= v@);
    out
}

/// `n` is the name of one of the first `upto` entries of `done`.
pub open spec fn resolved_before(done: Seq<(String, String)>, n: Seq<char>, upto: int) -> bool {
    exists|j: int| 0 <= j < upto && j < done.len() && (#[trigger] done[j]).0@ == n
}

/// `n` is the name of an entry of `done`.
pub open spec fn resolved(done: Seq<(String, String)>, n: Seq<char>) -> bool {
    resolved_before(done, n, done.len() as int)
}

/// `n` is one of the strings of `path`.
pub open spec fn on_path(path: Seq<String>, n: Seq<char>) -> bool {
    exists|j: int| 0 <= j < path.len() && (#[trigger] path[j])@ == n
}

/// Entries have distinct names.
pub open spec fn distinct_names(done: Seq<(String, String)>) -> bool {
    forall|i: int, j: int| 0 <= i < j < done.len() ==> (#[trigger] done[i]).0@ != (#[trigger] done[j]).0@
}

/// Every module comes after all the modules its manifest depends on.
pub open spec fn dependencies_first(done: Seq<(String, String)>, manifests: Seq<BalerToml>) -> bool {
    forall|i: int, k: int|
        0 <= i < done.len() && 0 <= k < module_deps(manifests[i]).len() ==> resolved_before(
            done,
            (#[trigger] module_deps(manifests[i])[k]).0@,
            i,
        )
}

/// The bookkeeping that holds between and after visits.
pub open spec fn well_formed(
    path: Seq<String>,
    done: Seq<(String, String)>,
    manifests: Seq<BalerToml>,
) -> bool {
    &&& done.len() == manifests.len()
    &&& distinct_names(done)
    &&& forall|i: int| 0 <= i < done.len() ==> (#[trigger] done[i]).1@ == manifests[i].project.version@
    &&& dependencies_first(done, manifests)
    &&& forall|i: int| 0 <= i < done.len() ==> !on_path(path, (#[trigger] done[i]).0@)
}

/// The entry `i` of `done` was asked for, by one of `deps` or by a manifest
/// that comes after it, with `sources[i]` as the source to fetch it from.
pub open spec fn asked_for(
    deps: Seq<(String, ModuleDep)>,
    done: Seq<(String, String)>,
    manifests: Seq<BalerToml>,
    sources: Seq<Seq<char>>,
    i: int,
) -> bool {
    ||| exists|k: int|
        0 <= k < deps.len() && (#[trigger] deps[k]).0@ == done[i].0@ && dep_source(deps[k].1) == Some(
            sources[i],
        )
    ||| exists|m: int, k: int|
        i < m < done.len() && 0 <= k < module_deps(manifests[m]).len() && (#[trigger] module_deps(
            manifests[m],
        )[k]).0@ == done[i].0@ && dep_source(module_deps(manifests[m])[k].1) == Some(sources[i])
}

/// Every entry of `done` from `from` on was asked for.
pub open spec fn all_asked_for(
    deps: Seq<(String, ModuleDep)>,
    done: Seq<(String, String)>,
    manifests: Seq<BalerToml>,
    sources: Seq<Seq<char>>,
    from: int,
) -> bool {
    forall|i: int| from <= i < done.len() ==> #[trigger] asked_for(deps, done, manifests, sources, i)
}

/// The source a dependency declares, if any.
pub open spec fn dep_source(d: ModuleDep) -> Option<Seq<char>> {
    match d {
        ModuleDep::Extended { source: Some(s), .. } => Some(s@),
        _ => None,
    }
}

/// Each manifest is what the fetcher answered for its source.
pub open spec fn all_fetched<F: ModuleFetcher>(
    fetcher: F,
    manifests: Seq<BalerToml>,
    sources: Seq<Seq<char>>,
) -> bool {
    &&& manifests.len() == sources.len()
    &&& forall|i: int|
        0 <= i < manifests.len() ==> fetcher.fetched(sources[i], Ok::<BalerToml, String>(#[trigger] manifests[i]))
}

/// A fetch error names the source whose fetch failed, with the message
/// the fetcher answered.
pub open spec fn fetch_error_ok<F: ModuleFetcher>(fetcher: F, res: Result<(), ResolveError>) -> bool {
    res matches Err(ResolveError::Fetch { source, message }) ==> fetcher.fetched(
        source@,
        Err::<BalerToml, String>(message),
    )
}

/// What a fetch of `source` that answered `answer` comes to: the manifest,
/// or the fetch error naming the source and the fetcher's message.
pub fn manifest_of(source: &str, answer: Result<BalerToml, String>) -> (res: Result<BalerToml, ResolveError>)
    ensures
        match answer {
            Ok(t) => res == Ok::<BalerToml, ResolveError>(t),
            Err(m) => res matches Err(ResolveError::Fetch { source: s, message }) && s@ == source@
                && message == m,
        },
{
    match answer {
        Ok(t) => Ok(t),
        Err(message) => Err(ResolveError::Fetch { source: owned(source), message }),
    }
}

/// The dependency names a source to fetch the module from.
pub open spec fn has_source(d: ModuleDep) -> bool {
    d matches ModuleDep::Extended { source: Some(_), .. }
}

/// `names[k + 1]` is declared as a module dependency of `ms[k]`, with a
/// source, and `ms[k + 1]` is what the fetcher answered for that source.
pub open spec fn link_ok<F: ModuleFetcher>(
    fetcher: F,
    names: Seq<Seq<char>>,
    ms: Seq<BalerToml>,
    k: int,
) -> bool {
    exists|d: int|
        0 <= d < module_deps(ms[k]).len() && (#[trigger] module_deps(ms[k])[d]).0@ == names[k + 1]
            && dep_source(module_deps(ms[k])[d].1) is Some && fetcher.fetched(
            dep_source(module_deps(ms[k])[d].1)->0,
            Ok::<BalerToml, String>(ms[k + 1]),
        )
}

/// `names` is a chain of module dependencies starting at `root`, and `ms`
/// the manifest of each: `root` itself first, then each one fetched from
/// the source its predecessor declares for it.
pub open spec fn dep_chain<F: ModuleFetcher>(
    fetcher: F,
    root: BalerToml,
    names: Seq<Seq<char>>,
    ms: Seq<BalerToml>,
) -> bool {
    &&& names.len() > 0
    &&& names.len() == ms.len()
    &&& names[0] == root.project.name@
    &&& ms[0] == root
    &&& forall|k: int| 0 <= k < names.len() - 1 ==> #[trigger] link_ok(fetcher, names, ms, k)
}

/// `m` declares a module dependency named `name`.
pub open spec fn declares(m: BalerToml, name: Seq<char>) -> bool {
    exists|d: int| 0 <= d < module_deps(m).len() && (#[trigger] module_deps(m)[d]).0@ == name
}

/// `m` declares a module dependency named `name` without a source.
pub open spec fn declares_without_source(m: BalerToml, name: Seq<char>) -> bool {
    exists|d: int|
        0 <= d < module_deps(m).len() && (#[trigger] module_deps(m)[d]).0@ == name && dep_source(
            module_deps(m)[d].1,
        ) is None
}

/// A cycle error's chain is a real dependency cycle: it starts at the root,
/// each name is a dependency of the one before (declared by the root's or
/// by a fetched manifest), and the last name is one seen before it.
pub open spec fn cycle_ok<F: ModuleFetcher>(fetcher: F, root: BalerToml, chain: Seq<Seq<char>>) -> bool {
    &&& chain.len() >= 2
    &&& exists|j: int| 0 <= j < chain.len() - 1 && #[trigger] chain[j] == chain[chain.len() - 1]
    &&& exists|ms: Seq<BalerToml>|
        #[trigger] dep_chain(fetcher, root, chain.drop_last(), ms) && declares(
            ms[ms.len() - 1],
            chain[chain.len() - 1],
        )
}

/// A missing-source error names a dependency, declared without a source by
/// the root or by a manifest fetched along a chain of dependencies from it.
pub open spec fn missing_ok<F: ModuleFetcher>(fetcher: F, root: BalerToml, module: Seq<char>) -> bool {
    exists|names: Seq<Seq<char>>, ms: Seq<BalerToml>|
        #[trigger] dep_chain(fetcher, root, names, ms) && declares_without_source(ms[ms.len() - 1], module)
}

/// The library's own errors are real: cycles are dependency cycles from the
/// root, and a missing source is declared so.
pub open spec fn errors_ok<F: ModuleFetcher, T>(fetcher: F, root: BalerToml, res: Result<T, ResolveError>) -> bool {
    &&& res matches Err(ResolveError::Cycle { chain }) ==> cycle_ok(fetcher, root, views(chain@))
    &&& res matches Err(ResolveError::MissingSource { module }) ==> missing_ok(fetcher, root, module@)
}

/// Whether `name` is one of the strings of `path`.
fn path_contains(path: &Vec<String>, name: &str) -> (res: bool)
    ensures
        res == on_path(path@, name@),
{
    let mut i: usize = 0;
    while i < path.len()
        invariant
            i <= path@.len(),
            forall|j: int| 0 <= j < i ==> path@[j]@ != name@,
        decreases path@.len() - i,
    {
        if str_eq(path[i].as_str(), name) {
            return true;
        }
        i = i + 1;
    }
    false
}

/// Whether `name` is the name of an entry of `done`.
fn done_contains(done: &Vec<(String, String)>, name: &str) -> (res: bool)
    ensures
        res == resolved(done@, name@),
{
    let mut i: usize = 0;
    while i < done.len()
        invariant
            i <= done@.len(),
            forall|j: int| 0 <= j < i ==> done@[j].0@ != name@,
        decreases done@.len() - i,
    {
        if str_eq(done[i].0.as_str(), name) {
            return true;
        }
        i = i + 1;
    }
    false
}

/// Copies of the strings of `path`, then `last`.
fn chain_to(path: &Vec<String>, last: &str) -> (res: Vec<String>)
    ensures
        res@.len() == path@.len() + 1,
        forall|j: int| 0 <= j < path@.len() ==> (#[trigger] res@[j])@ == path@[j]@,
        res@[path@.len() as int]@ == last@,
{
    let mut out: Vec<String> = Vec::new();
    let mut i: usize = 0;
    while i < path.len()
        invariant
            i <= path@.len(),
            out@.len() == i,
            forall|j: int| 0 <= j < i ==> (#[trigger] out@[j])@ == path@[j]@,
        decreases path@.len() - i,
    {
        out.push(owned(path[i].as_str()));
        i = i + 1;
    }
    out.push(owned(last));
    out
}

/// Visits the dependencies `deps` of the module at the end of `path`:
/// each one not yet resolved is fetched, its own dependencies are visited,
/// and it is appended to `state`.
fn visit<F: ModuleFetcher>(
    fetcher: &F,
    deps: &[(String, ModuleDep)],
    path: &mut Vec<String>,
    state: &mut ModuleResolution,
    Ghost(root): Ghost<BalerToml>,
    Ghost(pms): Ghost<Seq<BalerToml>>,
) -> (res: Result<(), ResolveError>)
    requires
        dep_chain(*fetcher, root, views(old(path)@), pms),
        deps@ == module_deps(pms[pms.len() - 1]),
        well_formed(old(path)@, old(state).modules@, old(state).manifests@),
        all_fetched(*fetcher, old(state).manifests@, old(state).sources@),
    ensures
        all_fetched(*fetcher, final(state).manifests@, final(state).sources@),
        fetch_error_ok(*fetcher, res),
        errors_ok(*fetcher, root, res),
        forall|j: int|
            0 <= j < old(state).modules@.len() ==> final(state).sources@[j] == old(state).sources@[j],
        final(path)@ == old(path)@,
        well_formed(final(path)@, final(state).modules@, final(state).manifests@),
        old(state).modules@.len() <= final(state).modules@.len(),
        forall|j: int|
            0 <= j < old(state).modules@.len() ==> final(state).modules@[j] == old(state).modules@[j]
                && final(state).manifests@[j] == old(state).manifests@[j],
        res is Ok ==> all_asked_for(
            deps@,
            final(state).modules@,
            final(state).manifests@,
            final(state).sources@,
            old(state).modules@.len() as int,
        ),
        res is Ok ==> forall|k: int|
            0 <= k < deps@.len() ==> resolved(final(state).modules@, (#[trigger] deps@[k]).0@),
        deps@.len() == 0 ==> res is Ok && final(state).modules@ == old(state).modules@,
        old(state).modules@.len() == 0 && deps@.len() > 0 && !on_path(old(path)@, deps@[0].0@)
            && !has_source(deps@[0].1) ==> (res matches Err(ResolveError::MissingSource { module })
            && module@ == deps@[0].0@),
        res matches Err(ResolveError::Cycle { chain }) ==> {
            &&& chain@.len() >= 2
            &&& old(path)@.len() > 0 ==> chain@[0]@ == old(path)@[0]@
            &&& exists|j: int|
                0 <= j < chain@.len() - 1 && (#[trigger] chain@[j])@ == chain@[chain@.len() - 1]@
        },
    decreases 2 * usize::MAX - old(path)@.len() - old(state).modules@.len(),
{
    let mut i: usize = 0;
    while i < deps.len()
        invariant
            i <= deps@.len(),
            path@ == old(path)@,
            deps@ == module_deps(pms[pms.len() - 1]),
            dep_chain(*fetcher, root, views(old(path)@), pms),
            well_formed(path@, state.modules@, state.manifests@),
            old(state).modules@.len() <= state.modules@.len(),
            forall|j: int|
                0 <= j < old(state).modules@.len() ==> state.modules@[j] == old(state).modules@[j]
                    && state.manifests@[j] == old(state).manifests@[j],
            all_asked_for(deps@, state.modules@, state.manifests@, state.sources@, old(state).modules@.len() as int),
            all_fetched(*fetcher, state.manifests@, state.sources@),
            forall|j: int|
                0 <= j < old(state).modules@.len() ==> state.sources@[j] == old(state).sources@[j],
            forall|k: int| 0 <= k < i ==> resolved(state.modules@, (#[trigger] deps@[k]).0@),
            i == 0 ==> state.modules@ == old(state).modules@,
            old(state).modules@.len() == 0 && deps@.len() > 0 && !on_path(old(path)@, deps@[0].0@)
                && !has_source(deps@[0].1) ==> i == 0,
        decreases deps@.len() - i,
    {
        let name = deps[i].0.as_str();
        if path_contains(path, name) {
            let chain = chain_to(path, name);
            proof {
                let j = choose|j: int| 0 <= j < path@.len() && (#[trigger] path@[j])@ == name@;
                assert(chain@[j]@ == chain@[chain@.len() - 1]@);
                let c = views(chain@);
                assert(c.drop_last() =~= views(path@));
                assert(c[j] == c[c.len() - 1]);
                assert(module_deps(pms[pms.len() - 1])[i as int].0@ == c[c.len() - 1]);
                assert(declares(pms[pms.len() - 1], c[c.len() - 1]));
                assert(dep_chain(*fetcher, root, c.drop_last(), pms));
            }
            return Err(ResolveError::Cycle { chain });
        }
        if !done_contains(&state.modules, name) {
            let source = match &deps[i].1 {
                ModuleDep::Extended { source: Some(s), .. } => s.as_str(),
                _ => {
                    proof {
                        assert(dep_source(module_deps(pms[pms.len() - 1])[i as int].1) is None);
                        assert(declares_without_source(pms[pms.len() - 1], name@));
                        assert(dep_chain(*fetcher, root, views(path@), pms));
                    }
                    return Err(ResolveError::MissingSource { module: owned(name) });
                },
            };
            let answer = fetcher.fetch(source);
            let ghost ans = answer;
            let manifest = manifest_of(source, answer)?;
            proof {
                assert(ans == Ok::<BalerToml, String>(manifest));
            }
            let ghost before = state.modules@;
            let ghost before_m = state.manifests@;
            let ghost before_s = state.sources@;
            path.push(owned(name));
            proof {
                assert forall|j: int| 0 <= j < state.modules@.len() implies !on_path(
                    path@,
                    (#[trigger] state.modules@[j]).0@,
                ) by {
                    if on_path(path@, state.modules@[j].0@) {
                        let q = choose|q: int|
                            0 <= q < path@.len() && (#[trigger] path@[q])@ == state.modules@[j].0@;
                        if q < old(path)@.len() {
                            assert(path@[q] == old(path)@[q]);
                        } else {
                            assert(resolved(state.modules@, name@));
                        }
                    }
                }
            }
            let path_len = path.len();
            let done_len = state.modules.len();
            let ghost pushed = path@;
            let md = manifest.module_deps();
            proof {
                let on = views(old(path)@);
                let nn = views(path@);
                let nms = pms.push(manifest);
                assert(nn =~= on.push(name@));
                assert forall|k: int| 0 <= k < nn.len() - 1 implies #[trigger] link_ok(*fetcher, nn, nms, k) by {
                    if k < on.len() - 1 {
                        assert(link_ok(*fetcher, on, pms, k));
                        let d = choose|d: int|
                            0 <= d < module_deps(pms[k]).len() && (#[trigger] module_deps(pms[k])[d]).0@ == on[k + 1]
                                && dep_source(module_deps(pms[k])[d].1) is Some && fetcher.fetched(
                                dep_source(module_deps(pms[k])[d].1)->0,
                                Ok::<BalerToml, String>(pms[k + 1]),
                            );
                        assert(nms[k] == pms[k] && nms[k + 1] == pms[k + 1] && nn[k + 1] == on[k + 1]);
                        assert(module_deps(nms[k])[d].0@ == nn[k + 1]);
                    } else {
                        assert(k == on.len() - 1);
                        assert(nms[k] == pms[pms.len() - 1]);
                        assert(module_deps(nms[k])[i as int].0@ == nn[k + 1]);
                        assert(dep_source(module_deps(nms[k])[i as int].1) == Some(source@));
                    }
                }
                assert(dep_chain(*fetcher, root, nn, nms));
            }
            let ghost next = pms.push(manifest);
            let r = visit(fetcher, md, path, state, Ghost(root), Ghost(next));
            let _ = path.pop();
            proof {
                assert(path@ =~= old(path)@);
            }
            match r {
                Ok(()) => {},
                Err(e) => {
                    return Err(e);
                },
            }
            let version = owned(manifest.project.version.as_str());
            let ghost mid = state.modules@;
            let ghost mid_m = state.manifests@;
            let ghost mid_s = state.sources@;
            let entry_name = owned(name);
            state.modules.push((entry_name, version));
            state.manifests = Ghost(state.manifests@.push(manifest));
            state.sources = Ghost(state.sources@.push(source@));
            proof {
                let n = mid.len() as int;
                let new = state.modules@;
                let newm = state.manifests@;
                let news = state.sources@;
                assert forall|j: int| 0 <= j < newm.len() implies fetcher.fetched(
                    news[j],
                    Ok::<BalerToml, String>(#[trigger] newm[j]),
                ) by {
                    if j < n {
                        assert(newm[j] == mid_m[j] && news[j] == mid_s[j]);
                    }
                }
                assert(on_path(pushed, name@)) by {
                    assert(pushed[pushed.len() - 1]@ == name@);
                }
                assert(new[n] == (entry_name, version));
                assert forall|j: int| 0 <= j < n implies (#[trigger] new[j]).0@ != new[n].0@ by {
                    assert(new[j] == mid[j]);
                    assert(!on_path(pushed, mid[j].0@));
                }
                assert(distinct_names(new));
                assert(module_deps(newm[n]) == md@);
                assert forall|i2: int, k: int|
                    0 <= i2 < new.len() && 0 <= k < module_deps(newm[i2]).len() implies resolved_before(
                    new,
                    (#[trigger] module_deps(newm[i2])[k]).0@,
                    i2,
                ) by {
                    if i2 < n {
                        assert(newm[i2] == mid_m[i2]);
                        let x = module_deps(mid_m[i2])[k].0@;
                        assert(resolved_before(mid, x, i2));
                        let j = choose|j: int| 0 <= j < i2 && j < mid.len() && (#[trigger] mid[j]).0@ == x;
                        assert(new[j] == mid[j]);
                    } else {
                        let x = md@[k].0@;
                        assert(resolved(mid, x));
                        let j = choose|j: int| 0 <= j < mid.len() && (#[trigger] mid[j]).0@ == x;
                        assert(new[j] == mid[j]);
                    }
                }
                assert forall|j: int| 0 <= j < new.len() implies !on_path(path@, (#[trigger] new[j]).0@) by {
                    if j < n {
                        assert(new[j] == mid[j]);
                        if on_path(path@, mid[j].0@) {
                            let q = choose|q: int| 0 <= q < path@.len() && (#[trigger] path@[q])@ == mid[j].0@;
                            assert(pushed[q] == path@[q]);
                        }
                    }
                }
                assert forall|k: int| 0 <= k <= i implies resolved(new, (#[trigger] deps@[k]).0@) by {
                    if k < i {
                        assert(resolved(before, deps@[k].0@));
                        let j = choose|j: int| 0 <= j < before.len() && (#[trigger] before[j]).0@ == deps@[k].0@;
                        assert(new[j] == before[j]);
                    } else {
                        assert(new[n].0@ == deps@[k].0@);
                    }
                }
                assert forall|i2: int| old(state).modules@.len() <= i2 < new.len() implies #[trigger] asked_for(
                    deps@,
                    new,
                    newm,
                    news,
                    i2,
                ) by {
                    if i2 == n {
                        assert(deps@[i as int].0@ == new[i2].0@);
                        assert(dep_source(deps@[i as int].1) == Some(news[i2]));
                    } else if i2 < before.len() {
                        assert(asked_for(deps@, before, before_m, before_s, i2));
                        assert(news[i2] == before_s[i2]);
                        assert(new[i2] == before[i2]);
                        if !(exists|k: int|
                            0 <= k < deps@.len() && (#[trigger] deps@[k]).0@ == before[i2].0@ && dep_source(
                                deps@[k].1,
                            ) == Some(before_s[i2])) {
                            let (m, k) = choose|m: int, k: int|
                                i2 < m < before.len() && 0 <= k < module_deps(before_m[m]).len() && (#[trigger] module_deps(
                                    before_m[m],
                                )[k]).0@ == before[i2].0@ && dep_source(module_deps(before_m[m])[k].1) == Some(
                                    before_s[i2],
                                );
                            assert(newm[m] == before_m[m]);
                            assert(module_deps(newm[m])[k].0@ == new[i2].0@);
                        }
                    } else {
                        assert(asked_for(md@, mid, mid_m, mid_s, i2));
                        assert(news[i2] == mid_s[i2]);
                        assert(new[i2] == mid[i2]);
                        if exists|k: int|
                            0 <= k < md@.len() && (#[trigger] md@[k]).0@ == mid[i2].0@ && dep_source(md@[k].1)
                                == Some(mid_s[i2]) {
                            let k = choose|k: int|
                                0 <= k < md@.len() && (#[trigger] md@[k]).0@ == mid[i2].0@ && dep_source(md@[k].1)
                                    == Some(mid_s[i2]);
                            assert(module_deps(newm[n])[k].0@ == new[i2].0@);
                        } else {
                            let (m, k) = choose|m: int, k: int|
                                i2 < m < mid.len() && 0 <= k < module_deps(mid_m[m]).len() && (#[trigger] module_deps(
                                    mid_m[m],
                                )[k]).0@ == mid[i2].0@ && dep_source(module_deps(mid_m[m])[k].1) == Some(
                                    mid_s[i2],
                                );
                            assert(newm[m] == mid_m[m]);
                            assert(module_deps(newm[m])[k].0@ == new[i2].0@);
                        }
                    }
                }
            }
        }
        i = i + 1;
    }
    Ok(())
}

/// Resolves the modules that `root` depends on, directly or through other
/// modules, fetching each module's manifest from the `source` its dependent
/// declares. A dependency without a source, a chain of dependencies that
/// leads back to a module on it, and a failed fetch each stop resolution.
///
/// What the fetcher returns is not known here, so on success the contract
/// speaks of the manifests it returned: every module comes after the
/// modules its manifest depends on (so the modules form no cycle), each
/// dependency of the root and of every fetched manifest is resolved, every
/// resolved module was asked for by a dependency that declares its source,
/// its manifest is what the fetcher answered for exactly that source, and
/// no name is resolved twice. A fetch error names the source whose fetch
/// failed and carries the fetcher's message. A cycle error's chain starts
/// at the root and each name on it is a dependency of the one before,
/// declared by the root's manifest or by one fetched along the chain, the
/// last closing a loop; a missing-source error names a dependency declared
/// without a source by the root or by a manifest fetched along such a
/// chain.
pub fn resolve_transitive<F: ModuleFetcher>(root: &BalerToml, fetcher: &F) -> (res: Result<
    ModuleResolution,
    ResolveError,
>)
    ensures
        res matches Ok(plan) ==> {
            &&& plan.modules@.len() == plan.manifests@.len()
            &&& distinct_names(plan.modules@)
            &&& forall|i: int|
                0 <= i < plan.modules@.len() ==> (#[trigger] plan.modules@[i]).1@
                    == plan.manifests@[i].project.version@
            &&& dependencies_first(plan.modules@, plan.manifests@)
            &&& forall|k: int|
                0 <= k < module_deps(*root).len() ==> resolved(
                    plan.modules@,
                    (#[trigger] module_deps(*root)[k]).0@,
                )
            &&& forall|i: int|
                0 <= i < plan.modules@.len() ==> (#[trigger] plan.modules@[i]).0@
                    != root.project.name@
            &&& all_asked_for(module_deps(*root), plan.modules@, plan.manifests@, plan.sources@, 0)
            &&& all_fetched(*fetcher, plan.manifests@, plan.sources@)
        },
        res matches Err(ResolveError::Fetch { source, message }) ==> fetcher.fetched(
            source@,
            Err::<BalerToml, String>(message),
        ),
        module_deps(*root).len() == 0 ==> (res matches Ok(plan) && plan.modules@.len() == 0),
        module_deps(*root).len() > 0 && module_deps(*root)[0].0@ != root.project.name@ && !has_source(
            module_deps(*root)[0].1,
        ) ==> (res matches Err(ResolveError::MissingSource { module }) && module@ == module_deps(
            *root,
        )[0].0@),
        res matches Err(ResolveError::Cycle { chain }) ==> {
            &&& chain@.len() >= 2
            &&& chain@[0]@ == root.project.name@
            &&& exists|j: int|
                0 <= j < chain@.len() - 1 && (#[trigger] chain@[j])@ == chain@[chain@.len() - 1]@
        },
        errors_ok(*fetcher, *root, res),
{
    let mut path: Vec<String> = Vec::new();
    path.push(owned(root.project.name.as_str()));
    let mut state = ModuleResolution {
        modules: Vec::new(),
        manifests: Ghost(Seq::empty()),
        sources: Ghost(Seq::empty()),
    };
    let deps = root.module_deps();
    proof {
        if module_deps(*root).len() > 0 && module_deps(*root)[0].0@ != root.project.name@ {
            assert forall|j: int| 0 <= j < path@.len() implies (#[trigger] path@[j])@ != deps@[0].0@ by {
                assert(j == 0);
            }
        }
    }
    let ghost start = seq![*root];
    proof {
        assert(views(path@) =~= seq![root.project.name@]);
        assert(dep_chain(*fetcher, *root, views(path@), start));
    }
    match visit(fetcher, deps, &mut path, &mut state, Ghost(*root), Ghost(start)) {
        Ok(()) => {
            proof {
                assert forall|i: int| 0 <= i < state.modules@.len() implies (
                    #[trigger] state.modules@[i]).0@ != root.project.name@ by {
                    assert(!on_path(path@, state.modules@[i].0@));
                    assert(path@[0]@ == root.project.name@);
                }
            }
            Ok(state)
        },
        Err(e) => Err(e),
    }
}

} // verus!
