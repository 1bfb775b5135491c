//! The modules and resolution outcomes the pipeline works on.
//!
//! The external transform pipeline owns module objects; this library sees
//! each processed module as a plain value: an identity (the cache key the
//! pipeline resolved the request to) plus a capability tag.

use vstd::prelude::*;

verus! {

/// What can be done with a resolved module. The capability set is closed and
/// known at design time, so it is a tagged variant type rather than open
/// dynamic dispatch.
#[derive(Clone, Copy, PartialEq, Eq, Structural, Debug)]
pub enum Capability {
    /// An evaluatable script module: it can become an evaluated chunk and can
    /// carry the runtime bootstrap entries.
    Script,
    /// A generic chunkable asset: it can become a chunk, but the generic path
    /// does not inject runtime bootstrap code.
    GenericChunkable,
    /// Not chunkable at all: fatal when it reaches chunk-group assembly.
    Unchunkable,
}

/// Spec-level image of a [`ResolvedModule`].
pub ghost struct ModuleV {
    pub ident: Seq<char>,
    pub capability: Capability,
}

/// A module as returned by the external transform pipeline: an identity used
/// as a cache key, and a capability tag.
#[derive(Debug)]
pub struct ResolvedModule {
    pub ident: String,
    pub capability: Capability,
}

impl View for ResolvedModule {
    type V = ModuleV;

    open spec fn view(&self) -> ModuleV {
        ModuleV { ident: self.ident@, capability: self.capability }
    }
}

impl Clone for ResolvedModule {
    fn clone(&self) -> (r: Self)
        ensures
            r == *self,
    {
        ResolvedModule { ident: self.ident.clone(), capability: self.capability }
    }
}

/// The spec-level images of a sequence of resolved modules, in order.
pub open spec fn modules_view(s: Seq<ResolvedModule>) -> Seq<ModuleV> {
    s.map_values(|m: ResolvedModule| m@)
}

/// Spec-level image of a [`ResolutionOutcome`].
pub ghost enum OutcomeV {
    Resolved { module: ModuleV },
    Empty,
    Failed,
}

/// What resolving one entry request through the external pipeline came to.
///
/// An empty match is a normal outcome: the entry is silently dropped from
/// later stages. A resolver-level failure is fatal for the whole batch.
#[derive(Debug)]
pub enum ResolutionOutcome {
    Resolved(ResolvedModule),
    Empty,
    Failed,
}

impl View for ResolutionOutcome {
    type V = OutcomeV;

    open spec fn view(&self) -> OutcomeV {
        match self {
            ResolutionOutcome::Resolved(m) => OutcomeV::Resolved { module: m@ },
            ResolutionOutcome::Empty => OutcomeV::Empty,
            ResolutionOutcome::Failed => OutcomeV::Failed,
        }
    }
}

/// The fixed set of runtime-bootstrap module identities, resolved once per
/// build and injected into exactly one chunk (the first entry's).
#[derive(Debug)]
pub struct RuntimeEntries {
    pub modules: Vec<String>,
}

impl View for RuntimeEntries {
    type V = Seq<Seq<char>>;

    open spec fn view(&self) -> Seq<Seq<char>> {
        self.modules.deep_view()
    }
}

impl Clone for RuntimeEntries {
    fn clone(&self) -> (r: Self)
        ensures
            r@ == self@,
    {
        let modules = self.modules.clone();
        proof {
            assert(modules.deep_view() =~= self.modules.deep_view());
        }
        RuntimeEntries { modules }
    }
}

} // verus!
