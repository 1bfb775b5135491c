use web_entry::errors::BuildError;
use web_entry::model::{Capability, ResolvedModule, RuntimeEntries};
use web_entry::pages::PagesBuildClientContext;

fn context() -> PagesBuildClientContext {
    PagesBuildClientContext::new(
        "/proj".to_string(),
        "out".to_string(),
        9,
        RuntimeEntries {
            modules: vec!["runtime.js".to_string()],
        },
    )
}

#[test]
fn client_chunk_for_a_page_module() {
    let mut ctx = context();
    let page = ResolvedModule {
        ident: "page-index".to_string(),
        capability: Capability::Script,
    };
    let chunk = ctx.client_chunk(&page, &"index".to_string()).unwrap();
    assert_eq!(chunk.module_ident, "page-index");
    assert_eq!(chunk.context.script_dir, "out/static/chunks/index");
    assert_eq!(chunk.context.media_dir, "out/static/media/index");
    assert_eq!(chunk.context.environment, 9);
    assert_eq!(chunk.output_path, "out/static/chunks/index/page-index");
    // a page chunk always carries the runtime entries
    assert_eq!(chunk.runtime.unwrap().modules, vec!["runtime.js"]);
}

#[test]
fn client_chunk_rejects_non_script_modules() {
    let mut ctx = context();
    let asset = ResolvedModule {
        ident: "data.json".to_string(),
        capability: Capability::GenericChunkable,
    };
    let err = ctx.client_chunk(&asset, &"index".to_string()).unwrap_err();
    match &err {
        BuildError::UnexpectedModuleKind { module } => assert_eq!(module, "data.json"),
        _ => panic!("expected an unexpected-module-kind error"),
    }
    assert_eq!(err.message(), "expected an EcmaScript module asset: data.json");
}

#[test]
fn client_chunks_share_one_context_per_pathname() {
    let mut ctx = context();
    let page = |ident: &str| ResolvedModule {
        ident: ident.to_string(),
        capability: Capability::Script,
    };
    ctx.client_chunk(&page("page-a"), &"docs".to_string()).unwrap();
    ctx.client_chunk(&page("page-b"), &"docs".to_string()).unwrap();
    assert_eq!(ctx.contexts.derivations, 1);
    ctx.client_chunk(&page("page-c"), &"blog".to_string()).unwrap();
    assert_eq!(ctx.contexts.derivations, 2);
}
