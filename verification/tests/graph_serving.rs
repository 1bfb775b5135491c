use web_entry::chunking::{ChunkingContext, ChunkingContextBuilder};
use web_entry::graph::{ContentGraph, ContentNode};
use web_entry::model::{Capability, ResolutionOutcome, ResolvedModule, RuntimeEntries};
use web_entry::source::create_web_entry_source;

fn build_graph(eager: bool) -> ContentGraph {
    let requests = vec!["./a.js".to_string(), "./b.js".to_string()];
    let outcomes = vec![
        ResolutionOutcome::Resolved(ResolvedModule {
            ident: "a.js".to_string(),
            capability: Capability::Script,
        }),
        ResolutionOutcome::Resolved(ResolvedModule {
            ident: "b.js".to_string(),
            capability: Capability::GenericChunkable,
        }),
    ];
    create_web_entry_source(
        &"/proj".to_string(),
        &requests,
        &outcomes,
        &"out".to_string(),
        &"site".to_string(),
        3,
        &RuntimeEntries {
            modules: vec!["runtime.js".to_string()],
        },
        eager,
    )
    .unwrap()
}

const PATHS: [&str; 5] = [
    "out/index.html",
    "out/static/chunks/site/a.js",
    "out/static/chunks/site/b.js",
    "out/static/chunks/site/c.js",
    "somewhere/else",
];

#[test]
fn eager_and_lazy_graphs_serve_identical_nodes() {
    let mut eager = build_graph(true);
    let mut lazy = build_graph(false);
    for path in PATHS {
        let a = eager.get(&path.to_string());
        let b = lazy.get(&path.to_string());
        match (a, b) {
            (None, None) => {}
            (Some(ContentNode::Html(h1)), Some(ContentNode::Html(h2))) => {
                assert_eq!(h1.path, h2.path);
                assert_eq!(h1.groups.len(), h2.groups.len());
            }
            (Some(ContentNode::Chunk(c1)), Some(ContentNode::Chunk(c2))) => {
                assert_eq!(c1.module_ident, c2.module_ident);
                assert_eq!(c1.output_path, c2.output_path);
                assert_eq!(c1.runtime.is_some(), c2.runtime.is_some());
            }
            _ => panic!("eager and lazy graphs disagree at {}", path),
        }
    }
}

#[test]
fn lazy_graph_materializes_on_first_lookup_only() {
    let mut lazy = build_graph(false);
    assert_eq!(lazy.materialization_count(), 0);

    let path = "out/static/chunks/site/a.js".to_string();
    assert!(lazy.get(&path).is_some());
    assert_eq!(lazy.materialization_count(), 1);

    // the second lookup for the same path is served from the cache
    assert!(lazy.get(&path).is_some());
    assert_eq!(lazy.materialization_count(), 1);

    // an absent path is a normal empty result and materializes nothing
    assert!(lazy.get(&"out/nowhere".to_string()).is_none());
    assert_eq!(lazy.materialization_count(), 1);

    // a different reachable path materializes exactly one more node
    assert!(lazy.get(&"out/index.html".to_string()).is_some());
    assert_eq!(lazy.materialization_count(), 2);
}

#[test]
fn eager_graph_materializes_everything_up_front() {
    let mut eager = build_graph(true);
    // bootstrap document plus one chunk per group
    assert_eq!(eager.materialization_count(), 3);
    for path in PATHS {
        eager.get(&path.to_string());
    }
    // lookups never recompute
    assert_eq!(eager.materialization_count(), 3);
}

#[test]
fn invalidated_path_is_recomputed_on_next_lookup() {
    let mut lazy = build_graph(false);
    let path = "out/static/chunks/site/a.js".to_string();
    assert!(lazy.get(&path).is_some());
    assert!(lazy.get(&"out/index.html".to_string()).is_some());
    assert_eq!(lazy.materialization_count(), 2);

    // dropping one cached path leaves the other cached
    lazy.invalidate(&path);
    assert_eq!(lazy.materialization_count(), 1);

    // the next lookup recomputes the same node
    match lazy.get(&path) {
        Some(ContentNode::Chunk(c)) => assert_eq!(c.module_ident, "a.js"),
        _ => panic!("expected the chunk to be recomputed"),
    }
    assert_eq!(lazy.materialization_count(), 2);

    // invalidating an uncached path changes nothing
    lazy.invalidate(&"out/nowhere".to_string());
    assert_eq!(lazy.materialization_count(), 2);
}

#[test]
fn invalidation_works_on_eager_graphs_too() {
    let mut eager = build_graph(true);
    assert_eq!(eager.materialization_count(), 3);
    let path = "out/static/chunks/site/b.js".to_string();
    eager.invalidate(&path);
    assert_eq!(eager.materialization_count(), 2);
    match eager.get(&path) {
        Some(ContentNode::Chunk(c)) => assert_eq!(c.module_ident, "b.js"),
        _ => panic!("expected the chunk to be recomputed"),
    }
    assert_eq!(eager.materialization_count(), 3);
}

#[test]
fn pathname_maps_to_output_directories() {
    let ctx = ChunkingContext::derive(
        &"/proj".to_string(),
        &"out".to_string(),
        &"foo/bar".to_string(),
        1,
    );
    assert_eq!(ctx.script_dir, "out/static/chunks/foo/bar");
    assert_eq!(ctx.media_dir, "out/static/media/foo/bar");
    assert_eq!(ctx.project_root, "/proj");
}

#[test]
fn chunking_contexts_are_memoized_per_pathname() {
    let mut builder =
        ChunkingContextBuilder::new("/proj".to_string(), "out".to_string(), 1);
    let first = builder.build(&"index".to_string());
    assert_eq!(builder.derivations, 1);

    // an equal pathname is served from the cache, not rebuilt
    let again = builder.build(&"index".to_string());
    assert_eq!(builder.derivations, 1);
    assert_eq!(first.script_dir, again.script_dir);
    assert_eq!(first.media_dir, again.media_dir);

    // a distinct pathname derives a distinct context
    let other = builder.build(&"admin".to_string());
    assert_eq!(builder.derivations, 2);
    assert_eq!(other.script_dir, "out/static/chunks/admin");
}
