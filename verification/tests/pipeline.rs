use web_entry::assembly::Chunk;
use web_entry::errors::BuildError;
use web_entry::graph::{ContentGraph, ContentNode};
use web_entry::model::{Capability, ResolutionOutcome, ResolvedModule, RuntimeEntries};
use web_entry::source::create_web_entry_source;

fn module(ident: &str, capability: Capability) -> ResolvedModule {
    ResolvedModule {
        ident: ident.to_string(),
        capability,
    }
}

fn runtime() -> RuntimeEntries {
    RuntimeEntries {
        modules: vec!["runtime-base.js".to_string(), "runtime-dev.js".to_string()],
    }
}

fn build(
    requests: &[&str],
    outcomes: Vec<ResolutionOutcome>,
    pathname: &str,
    eager: bool,
) -> Result<ContentGraph, BuildError> {
    let requests: Vec<String> = requests.iter().map(|r| r.to_string()).collect();
    create_web_entry_source(
        &"/proj".to_string(),
        &requests,
        &outcomes,
        &"out".to_string(),
        &pathname.to_string(),
        7,
        &runtime(),
        eager,
    )
}

fn get_chunk(graph: &mut ContentGraph, path: &str) -> Chunk {
    match graph.get(&path.to_string()) {
        Some(ContentNode::Chunk(c)) => c,
        _ => panic!("expected a chunk at {}", path),
    }
}

#[test]
fn scenario_single_script_entry() {
    let outcomes = vec![ResolutionOutcome::Resolved(module(
        "pages_index.js",
        Capability::Script,
    ))];
    let mut graph = build(&["./pages/index.js"], outcomes, "index", true).unwrap();

    // the bootstrap document lists exactly the one chunk group
    match graph.get(&"out/index.html".to_string()) {
        Some(ContentNode::Html(h)) => {
            assert_eq!(h.path, "out/index.html");
            assert_eq!(h.groups.len(), 1);
            assert_eq!(h.groups[0].root.module_ident, "pages_index.js");
        }
        _ => panic!("expected the bootstrap document"),
    }

    // the root chunk is served under the derived script directory and
    // carries the runtime entries
    let chunk = get_chunk(&mut graph, "out/static/chunks/index/pages_index.js");
    assert_eq!(chunk.context.script_dir, "out/static/chunks/index");
    assert_eq!(chunk.context.media_dir, "out/static/media/index");
    assert_eq!(chunk.context.environment, 7);
    let rt = chunk.runtime.expect("first entry's chunk carries the runtime entries");
    assert_eq!(rt.modules, vec!["runtime-base.js", "runtime-dev.js"]);
}

#[test]
fn scenario_two_script_entries() {
    let outcomes = vec![
        ResolutionOutcome::Resolved(module("a.js", Capability::Script)),
        ResolutionOutcome::Resolved(module("b.js", Capability::Script)),
    ];
    let mut graph = build(&["./a.js", "./b.js"], outcomes, "main", true).unwrap();

    // groups are listed in entry-request order
    match graph.get(&"out/index.html".to_string()) {
        Some(ContentNode::Html(h)) => {
            assert_eq!(h.groups.len(), 2);
            assert_eq!(h.groups[0].root.module_ident, "a.js");
            assert_eq!(h.groups[1].root.module_ident, "b.js");
        }
        _ => panic!("expected the bootstrap document"),
    }

    // only the first entry's chunk carries the runtime entries
    let first = get_chunk(&mut graph, "out/static/chunks/main/a.js");
    assert!(first.runtime.is_some());
    let second = get_chunk(&mut graph, "out/static/chunks/main/b.js");
    assert!(second.runtime.is_none());
}

#[test]
fn scenario_empty_resolution() {
    let outcomes = vec![ResolutionOutcome::Empty];
    let mut graph = build(&["./missing.js"], outcomes, "index", true).unwrap();

    // zero chunk groups, zero error: an empty but valid content graph
    match graph.get(&"out/index.html".to_string()) {
        Some(ContentNode::Html(h)) => assert_eq!(h.groups.len(), 0),
        _ => panic!("expected the bootstrap document"),
    }
    assert!(graph.get(&"out/static/chunks/index/missing.js".to_string()).is_none());
}

#[test]
fn scenario_unchunkable_entry() {
    let outcomes = vec![ResolutionOutcome::Resolved(module(
        "./data.json",
        Capability::Unchunkable,
    ))];
    let err = build(&["./data.json"], outcomes, "index", true).unwrap_err();
    match &err {
        BuildError::UnchunkableEntry { module } => assert_eq!(module, "./data.json"),
        _ => panic!("expected an unchunkable-entry error"),
    }
    assert_eq!(
        err.message(),
        "entry module is not chunkable, so it can't be used to bootstrap the application: \
         ./data.json"
    );
}

#[test]
fn unchunkable_aborts_whole_batch() {
    // a good first entry does not save the batch: no partial output
    let outcomes = vec![
        ResolutionOutcome::Resolved(module("a.js", Capability::Script)),
        ResolutionOutcome::Resolved(module("./data.json", Capability::Unchunkable)),
    ];
    let err = build(&["./a.js", "./data.json"], outcomes, "index", true).unwrap_err();
    assert!(matches!(err, BuildError::UnchunkableEntry { .. }));
}

#[test]
fn resolution_failure_names_first_failed_request() {
    let outcomes = vec![
        ResolutionOutcome::Empty,
        ResolutionOutcome::Failed,
        ResolutionOutcome::Failed,
    ];
    let err = build(&["./a.js", "./b.js", "./c.js"], outcomes, "index", true).unwrap_err();
    match &err {
        BuildError::Resolution { request } => assert_eq!(request, "./b.js"),
        _ => panic!("expected a resolution error"),
    }
    assert_eq!(err.message(), "failed to resolve entry request: ./b.js");
}

#[test]
fn runtime_entries_follow_first_resolved_entry() {
    // the first entry request resolves to nothing; the runtime entries go to
    // the first successfully-resolved entry instead
    let outcomes = vec![
        ResolutionOutcome::Empty,
        ResolutionOutcome::Resolved(module("b.js", Capability::Script)),
        ResolutionOutcome::Resolved(module("c.js", Capability::Script)),
    ];
    let mut graph = build(&["./a.js", "./b.js", "./c.js"], outcomes, "app", true).unwrap();
    let first = get_chunk(&mut graph, "out/static/chunks/app/b.js");
    assert!(first.runtime.is_some());
    let second = get_chunk(&mut graph, "out/static/chunks/app/c.js");
    assert!(second.runtime.is_none());
}

#[test]
fn generic_chunkable_gets_no_runtime_entries() {
    // the generic chunkable path does not inject runtime bootstrap code,
    // even for the first resolved entry
    let outcomes = vec![ResolutionOutcome::Resolved(module(
        "styles.css",
        Capability::GenericChunkable,
    ))];
    let mut graph = build(&["./styles.css"], outcomes, "index", true).unwrap();
    let chunk = get_chunk(&mut graph, "out/static/chunks/index/styles.css");
    assert!(chunk.runtime.is_none());
}

#[test]
fn repeated_builds_are_deterministic() {
    let outcomes = || {
        vec![
            ResolutionOutcome::Resolved(module("a.js", Capability::Script)),
            ResolutionOutcome::Empty,
            ResolutionOutcome::Resolved(module("b.js", Capability::GenericChunkable)),
        ]
    };
    let mut g1 = build(&["./a.js", "./x.js", "./b.js"], outcomes(), "p", true).unwrap();
    let mut g2 = build(&["./a.js", "./x.js", "./b.js"], outcomes(), "p", true).unwrap();
    for path in [
        "out/index.html",
        "out/static/chunks/p/a.js",
        "out/static/chunks/p/b.js",
        "out/other",
    ] {
        let n1 = g1.get(&path.to_string());
        let n2 = g2.get(&path.to_string());
        match (n1, n2) {
            (None, None) => {}
            (Some(ContentNode::Html(h1)), Some(ContentNode::Html(h2))) => {
                assert_eq!(h1.path, h2.path);
                assert_eq!(h1.groups.len(), h2.groups.len());
                for (a, b) in h1.groups.iter().zip(h2.groups.iter()) {
                    assert_eq!(a.root.module_ident, b.root.module_ident);
                    assert_eq!(a.root.output_path, b.root.output_path);
                    assert_eq!(a.root.runtime.is_some(), b.root.runtime.is_some());
                }
            }
            (Some(ContentNode::Chunk(c1)), Some(ContentNode::Chunk(c2))) => {
                assert_eq!(c1.module_ident, c2.module_ident);
                assert_eq!(c1.output_path, c2.output_path);
                assert_eq!(c1.context.script_dir, c2.context.script_dir);
                assert_eq!(c1.runtime.is_some(), c2.runtime.is_some());
            }
            _ => panic!("the two builds disagree at {}", path),
        }
    }
}
