use std::collections::HashMap;

use baler::baler_toml::{BalerToml, Dependencies, ModuleDep, ModuleMeta};
use baler::ops::module_graph::{manifest_of, resolve_transitive, ModuleFetcher, ResolveError};

struct MockFetcher {
    by_source: HashMap<String, BalerToml>,
}

impl ModuleFetcher for MockFetcher {
    fn fetch(&self, source: &str) -> Result<BalerToml, String> {
        self.by_source
            .get(source)
            .map(toml_clone)
            .ok_or_else(|| format!("no mock module registered for '{source}'"))
    }
}

// The mock rebuilds a fresh copy per fetch call.
fn toml_clone(t: &BalerToml) -> BalerToml {
    BalerToml {
        project: ModuleMeta {
            name: t.project.name.clone(),
            version: t.project.version.clone(),
            description: t.project.description.clone(),
            readme: t.project.readme.clone(),
            authors: t.project.authors.clone(),
            license: t.project.license.clone(),
            r_version: t.project.r_version.clone(),
            repository: t.project.repository.clone(),
            keywords: t.project.keywords.clone(),
            src: t.project.src.clone(),
            dependencies: t.project.dependencies.clone(),
        },
        development: None,
        compiled_code: None,
        tool: None,
    }
}

fn minimal_toml(name: &str, version: &str, module_deps: Option<Vec<(String, ModuleDep)>>) -> BalerToml {
    BalerToml {
        project: ModuleMeta {
            name: name.to_owned(),
            version: version.to_owned(),
            description: String::new(),
            readme: None,
            authors: vec![],
            license: "Unknown".to_owned(),
            r_version: "4.0.0".to_owned(),
            repository: None,
            keywords: Vec::new(),
            src: None,
            dependencies: Dependencies { packages: Vec::new(), baler: module_deps },
        },
        development: None,
        compiled_code: None,
        tool: None,
    }
}

fn version_of<'a>(modules: &'a [(String, String)], name: &str) -> Option<&'a str> {
    modules.iter().find(|(n, _)| n == name).map(|(_, v)| v.as_str())
}

#[test]
fn walks_a_two_level_chain() {
    let b_deps = vec![(
        "b".to_owned(),
        ModuleDep::Extended { version: "*".to_owned(), source: Some("gh:x/b".to_owned()) },
    )];
    let root = minimal_toml("root", "0.1.0", Some(b_deps));

    let b = minimal_toml("b", "1.0.0", None);

    let fetcher = MockFetcher {
        by_source: HashMap::from([("gh:x/b".to_owned(), b)]),
    };

    let plan = resolve_transitive(&root, &fetcher).ok().expect("resolution should succeed");
    assert_eq!(version_of(&plan.modules, "b"), Some("1.0.0"));
}

#[test]
fn detects_a_cycle_instead_of_hanging() {
    let a_deps = vec![(
        "b".to_owned(),
        ModuleDep::Extended { version: "*".to_owned(), source: Some("gh:x/b".to_owned()) },
    )];
    let root = minimal_toml("a", "0.1.0", Some(a_deps.clone()));

    // b depends back on a — a cycle.
    let b_deps = vec![(
        "a".to_owned(),
        ModuleDep::Extended { version: "*".to_owned(), source: Some("gh:x/a".to_owned()) },
    )];
    let b = minimal_toml("b", "1.0.0", Some(b_deps));

    let fetcher = MockFetcher {
        by_source: HashMap::from([
            ("gh:x/b".to_owned(), b),
            ("gh:x/a".to_owned(), minimal_toml("a", "0.1.0", Some(a_deps))),
        ]),
    };

    let err = resolve_transitive(&root, &fetcher).err().expect("a cycle must error, not hang");
    assert!(err.message().contains("cycle"));
}

#[test]
fn missing_source_is_a_hard_error() {
    let deps = vec![("b".to_owned(), ModuleDep::Simple("*".to_owned()))];
    let root = minimal_toml("root", "0.1.0", Some(deps));

    let fetcher = MockFetcher { by_source: HashMap::new() };

    let err = resolve_transitive(&root, &fetcher).err().expect("no source should be a hard error");
    assert!(err.message().contains("no source declared"));
}

// ---- further cases ----

#[test]
fn root_without_module_deps_resolves_to_nothing() {
    let root = minimal_toml("root", "0.1.0", None);
    let fetcher = MockFetcher { by_source: HashMap::new() };
    let plan = resolve_transitive(&root, &fetcher).ok().expect("nothing to resolve");
    assert!(plan.modules.is_empty());
}

#[test]
fn dependencies_come_before_their_dependents() {
    // root -> b -> c, root -> c (a diamond): c is resolved once, before b.
    let root = minimal_toml(
        "root",
        "0.1.0",
        Some(vec![
            ("b".to_owned(), ModuleDep::Extended { version: "*".to_owned(), source: Some("gh:x/b".to_owned()) }),
            ("c".to_owned(), ModuleDep::Extended { version: "*".to_owned(), source: Some("gh:x/c".to_owned()) }),
        ]),
    );
    let b = minimal_toml(
        "b",
        "2.0.0",
        Some(vec![("c".to_owned(), ModuleDep::Extended { version: "*".to_owned(), source: Some("gh:x/c".to_owned()) })]),
    );
    let c = minimal_toml("c", "3.0.0", None);
    let fetcher = MockFetcher {
        by_source: HashMap::from([("gh:x/b".to_owned(), b), ("gh:x/c".to_owned(), c)]),
    };
    let plan = resolve_transitive(&root, &fetcher).ok().expect("a diamond resolves");
    assert_eq!(
        plan.modules,
        vec![("c".to_owned(), "3.0.0".to_owned()), ("b".to_owned(), "2.0.0".to_owned())]
    );
}

#[test]
fn cycle_message_names_the_chain() {
    let root = minimal_toml(
        "a",
        "0.1.0",
        Some(vec![("b".to_owned(), ModuleDep::Extended { version: "*".to_owned(), source: Some("gh:x/b".to_owned()) })]),
    );
    let b = minimal_toml(
        "b",
        "1.0.0",
        Some(vec![("a".to_owned(), ModuleDep::Extended { version: "*".to_owned(), source: Some("gh:x/a".to_owned()) })]),
    );
    let fetcher = MockFetcher { by_source: HashMap::from([("gh:x/b".to_owned(), b)]) };
    match resolve_transitive(&root, &fetcher) {
        Err(ResolveError::Cycle { chain }) => {
            assert_eq!(chain, vec!["a".to_owned(), "b".to_owned(), "a".to_owned()]);
        }
        _ => panic!("expected a cycle"),
    }
    let err = resolve_transitive(&root, &fetcher).err().unwrap();
    assert_eq!(err.message(), "dependency cycle detected: a -> b -> a");
}

#[test]
fn missing_source_names_the_module() {
    let root = minimal_toml(
        "root",
        "0.1.0",
        Some(vec![("b".to_owned(), ModuleDep::Extended { version: "1.0".to_owned(), source: None })]),
    );
    let fetcher = MockFetcher { by_source: HashMap::new() };
    let err = resolve_transitive(&root, &fetcher).err().unwrap();
    assert_eq!(err.message(), "module dependency 'b' has no source declared");
}

#[test]
fn fetch_failure_is_reported_with_its_source() {
    let root = minimal_toml(
        "root",
        "0.1.0",
        Some(vec![("b".to_owned(), ModuleDep::Extended { version: "*".to_owned(), source: Some("gh:x/b".to_owned()) })]),
    );
    let fetcher = MockFetcher { by_source: HashMap::new() };
    let err = resolve_transitive(&root, &fetcher).err().unwrap();
    assert_eq!(
        err.message(),
        "failed to fetch module source 'gh:x/b': no mock module registered for 'gh:x/b'"
    );
}

#[test]
fn a_fetch_answer_becomes_a_manifest_or_a_named_error() {
    let t = minimal_toml("b", "1.0.0", None);
    match manifest_of("gh:x/b", Ok(t)) {
        Ok(m) => assert_eq!(m.project.version, "1.0.0"),
        Err(_) => panic!("a fetched manifest is kept"),
    }
    match manifest_of("gh:x/b", Err("offline".to_owned())) {
        Err(ResolveError::Fetch { source, message }) => {
            assert_eq!(source, "gh:x/b");
            assert_eq!(message, "offline");
        }
        _ => panic!("a failed fetch is a fetch error"),
    }
}

#[test]
fn a_module_that_depends_on_itself_is_a_cycle() {
    let root = minimal_toml(
        "root",
        "0.1.0",
        Some(vec![("root".to_owned(), ModuleDep::Extended { version: "0.1.0".to_owned(), source: Some("gh:x/root".to_owned()) })]),
    );
    let fetcher = MockFetcher { by_source: HashMap::new() };
    match resolve_transitive(&root, &fetcher) {
        Err(ResolveError::Cycle { chain }) => assert_eq!(chain, vec!["root".to_owned(), "root".to_owned()]),
        _ => panic!("a self-dependency is a cycle"),
    }
}

#[test]
fn a_sourceless_dependency_of_a_fetched_module_is_reported() {
    let root = minimal_toml(
        "root",
        "0.1.0",
        Some(vec![("b".to_owned(), ModuleDep::Extended { version: "*".to_owned(), source: Some("gh:x/b".to_owned()) })]),
    );
    let b = minimal_toml("b", "1.0.0", Some(vec![("c".to_owned(), ModuleDep::Simple("*".to_owned()))]));
    let fetcher = MockFetcher { by_source: HashMap::from([("gh:x/b".to_owned(), b)]) };
    match resolve_transitive(&root, &fetcher) {
        Err(ResolveError::MissingSource { module }) => assert_eq!(module, "c"),
        _ => panic!("c declares no source"),
    }
}
