//! Per-page client chunk building: shared read-only build configuration plus
//! the memoized chunking contexts, one per distinct pathname.

use vstd::prelude::*;
use crate::assembly::{chunk_of, make_chunk, Chunk};
use crate::chunking::{ctx_of, ChunkingContext, ChunkingContextBuilder};
use crate::errors::{BuildError, ErrV};
use crate::lookup::assoc_has_key;
use crate::model::{Capability, ResolvedModule, RuntimeEntries};

verus! {

/// Shared configuration for building the client chunk of individual pages:
/// the roots and environment, the runtime bootstrap entries resolved once
/// per build, and the memoized chunking contexts.
#[derive(Debug)]
pub struct PagesBuildClientContext {
    pub runtime_entries: RuntimeEntries,
    pub contexts: ChunkingContextBuilder,
}

impl PagesBuildClientContext {
    pub open spec fn wf(&self) -> bool {
        self.contexts.wf()
    }

    pub fn new(
        project_root: String,
        client_root: String,
        environment: u64,
        runtime_entries: RuntimeEntries,
    ) -> (r: Self)
        ensures
            r.wf(),
            r.contexts.project_root@ == project_root@,
            r.contexts.client_root@ == client_root@,
            r.contexts.environment == environment,
            r.runtime_entries@ == runtime_entries@,
            r.contexts.derivations == 0,
    {
        PagesBuildClientContext {
            runtime_entries,
            contexts: ChunkingContextBuilder::new(project_root, client_root, environment),
        }
    }

    /// The chunking context for one page's pathname: script chunks under
    /// `<client_root>/static/chunks/<pathname>`, media under
    /// `<client_root>/static/media/<pathname>`, memoized per distinct
    /// pathname.
    fn client_chunking_context(&mut self, pathname: &String) -> (r: ChunkingContext)
        requires
            old(self).wf(),
        ensures
            final(self).wf(),
            final(self).runtime_entries == old(self).runtime_entries,
            final(self).contexts.project_root@ == old(self).contexts.project_root@,
            final(self).contexts.client_root@ == old(self).contexts.client_root@,
            final(self).contexts.environment == old(self).contexts.environment,
            r@ == ctx_of(
                old(self).contexts.project_root@,
                old(self).contexts.client_root@,
                pathname@,
                old(self).contexts.environment,
            ),
            assoc_has_key(old(self).contexts.cache@, pathname@) ==> final(self).contexts.derivations
                == old(self).contexts.derivations,
    {
        self.contexts.build(pathname)
    }

    /// The evaluated client chunk for one page.
    ///
    /// `module` is the page module the external transform pipeline produced
    /// for this page, with the script-producing page-loader transform
    /// applied; a module of any other kind is a pipeline contract violation
    /// and fails with `UnexpectedModuleKind`, naming the module. The chunk
    /// carries the runtime entries and is built under the memoized chunking
    /// context for `pathname`.
    pub fn client_chunk(&mut self, module: &ResolvedModule, pathname: &String) -> (r: Result<
        Chunk,
        BuildError,
    >)
        requires
            old(self).wf(),
        ensures
            final(self).wf(),
            final(self).runtime_entries@ == old(self).runtime_entries@,
            final(self).contexts.project_root@ == old(self).contexts.project_root@,
            final(self).contexts.client_root@ == old(self).contexts.client_root@,
            final(self).contexts.environment == old(self).contexts.environment,
            match r {
                Ok(c) => module.capability is Script && c@ == chunk_of(
                    module@,
                    ctx_of(
                        old(self).contexts.project_root@,
                        old(self).contexts.client_root@,
                        pathname@,
                        old(self).contexts.environment,
                    ),
                    true,
                    old(self).runtime_entries@,
                ),
                Err(e) => !(module.capability is Script) && e@ == (ErrV::UnexpectedModuleKind {
                    module: module.ident@,
                }),
            },
    {
        match module.capability {
            Capability::Script => {
                let ctx = self.client_chunking_context(pathname);
                Ok(make_chunk(module, &ctx, true, &self.runtime_entries))
            },
            Capability::GenericChunkable => Err(
                BuildError::UnexpectedModuleKind { module: module.ident.clone() },
            ),
            Capability::Unchunkable => Err(
                BuildError::UnexpectedModuleKind { module: module.ident.clone() },
            ),
        }
    }
}

} // verus!
