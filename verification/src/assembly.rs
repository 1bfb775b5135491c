//! Chunk-group assembly: one chunk group per successfully-resolved entry
//! module, with the runtime bootstrap entries injected into the first entry's
//! chunk only.

use vstd::prelude::*;
use crate::chunking::{ChunkingContext, CtxV};
use crate::errors::{BuildError, ErrV};
use crate::model::{modules_view, Capability, ModuleV, ResolvedModule, RuntimeEntries};
use crate::paths::{join, join_spec};

verus! {

/// Spec-level image of a [`Chunk`]: its identity is the module identity, the
/// chunking-context value and the attached runtime entries (or their
/// absence), and it is served at `output_path`.
pub ghost struct ChunkV {
    pub module_ident: Seq<char>,
    pub context: CtxV,
    pub runtime: Option<Seq<Seq<char>>>,
    pub output_path: Seq<char>,
}

/// The chunk built for one module under one chunking context. The runtime
/// entries are attached to at most one chunk across the whole build.
#[derive(Debug)]
pub struct Chunk {
    pub module_ident: String,
    pub context: ChunkingContext,
    pub runtime: Option<RuntimeEntries>,
    pub output_path: String,
}

impl View for Chunk {
    type V = ChunkV;

    open spec fn view(&self) -> ChunkV {
        ChunkV {
            module_ident: self.module_ident@,
            context: self.context@,
            runtime: match &self.runtime {
                Some(r) => Some(r@),
                None => None,
            },
            output_path: self.output_path@,
        }
    }
}

impl Clone for Chunk {
    fn clone(&self) -> (r: Self)
        ensures
            r@ == self@,
    {
        Chunk {
            module_ident: self.module_ident.clone(),
            context: self.context.clone(),
            runtime: match &self.runtime {
                Some(r) => Some(r.clone()),
                None => None,
            },
            output_path: self.output_path.clone(),
        }
    }
}

/// The chunk the assembler builds for `m` under `ctx`: it carries the
/// runtime entries iff `with_runtime`, and is served at
/// `<script dir>/<module identity>`.
pub open spec fn chunk_of(m: ModuleV, ctx: CtxV, with_runtime: bool, runtime: Seq<Seq<char>>) -> ChunkV {
    ChunkV {
        module_ident: m.ident,
        context: ctx,
        runtime: if with_runtime {
            Some(runtime)
        } else {
            None
        },
        output_path: join_spec(ctx.script_dir, m.ident),
    }
}

/// Builds the chunk for one module under one chunking context, attaching the
/// runtime entries iff `with_runtime`.
pub fn make_chunk(
    module: &ResolvedModule,
    ctx: &ChunkingContext,
    with_runtime: bool,
    runtime_entries: &RuntimeEntries,
) -> (c: Chunk)
    ensures
        c@ == chunk_of(module@, ctx@, with_runtime, runtime_entries@),
{
    Chunk {
        module_ident: module.ident.clone(),
        context: ctx.clone(),
        runtime: if with_runtime {
            Some(runtime_entries.clone())
        } else {
            None
        },
        output_path: join(&ctx.script_dir, module.ident.as_str()),
    }
}

/// Spec-level image of a [`ChunkGroup`].
pub ghost struct GroupV {
    pub root: ChunkV,
}

/// The set of chunks that must be delivered together to bootstrap one entry,
/// established by its root chunk; the transitive closure over the root's
/// static dependencies is delegated to the external chunk representation.
#[derive(Debug)]
pub struct ChunkGroup {
    pub root: Chunk,
}

impl View for ChunkGroup {
    type V = GroupV;

    open spec fn view(&self) -> GroupV {
        GroupV { root: self.root@ }
    }
}

impl Clone for ChunkGroup {
    fn clone(&self) -> (r: Self)
        ensures
            r@ == self@,
    {
        ChunkGroup { root: self.root.clone() }
    }
}

impl ChunkGroup {
    /// Wraps a root chunk into the chunk group it bootstraps.
    pub fn from_chunk(root: Chunk) -> (g: ChunkGroup)
        ensures
            g@ == (GroupV { root: root@ }),
    {
        ChunkGroup { root }
    }
}

pub open spec fn groups_view(s: Seq<ChunkGroup>) -> Seq<GroupV> {
    s.map_values(|g: ChunkGroup| g@)
}

/// The chunk groups assembled for the resolved modules, in order: one group
/// per module, rooted at its chunk; the runtime entries are attached iff the
/// module is the first of the resolved sequence and is script-capable (the
/// generic chunkable path does not inject runtime bootstrap code).
pub open spec fn groups_of(mods: Seq<ModuleV>, ctx: CtxV, runtime: Seq<Seq<char>>) -> Seq<GroupV> {
    Seq::new(
        mods.len(),
        |i: int|
            GroupV {
                root: chunk_of(mods[i], ctx, i == 0 && mods[i].capability is Script, runtime),
            },
    )
}

/// `i` is the position of the first unchunkable module of the resolved
/// sequence.
pub open spec fn is_first_unchunkable(mods: Seq<ModuleV>, i: int) -> bool {
    &&& 0 <= i < mods.len()
    &&& mods[i].capability is Unchunkable
    &&& forall|j: int| 0 <= j < i ==> !((#[trigger] mods[j]).capability is Unchunkable)
}

/// The first unchunkable position is unique.
pub proof fn lemma_first_unchunkable_unique(mods: Seq<ModuleV>, i: int, k: int)
    requires
        is_first_unchunkable(mods, i),
        is_first_unchunkable(mods, k),
    ensures
        i == k,
{
}

/// Some unchunkable module implies a first one.
pub proof fn lemma_first_unchunkable_exists(mods: Seq<ModuleV>, i: int)
    requires
        0 <= i < mods.len(),
        mods[i].capability is Unchunkable,
    ensures
        exists|k: int| is_first_unchunkable(mods, k),
    decreases i,
{
    if forall|j: int| 0 <= j < i ==> !((#[trigger] mods[j]).capability is Unchunkable) {
        assert(is_first_unchunkable(mods, i));
    } else {
        let j = choose|j: int|
            0 <= j < i && (#[trigger] mods[j]).capability is Unchunkable;
        lemma_first_unchunkable_exists(mods, j);
    }
}

/// Assembles one chunk group per resolved module, in order. An unchunkable
/// module fails the whole assembly with an `UnchunkableEntry` error naming
/// the first offending module; no partial output is returned.
pub fn assemble_chunk_groups(
    modules: &Vec<ResolvedModule>,
    ctx: &ChunkingContext,
    runtime_entries: &RuntimeEntries,
) -> (r: Result<Vec<ChunkGroup>, BuildError>)
    ensures
        match r {
            Ok(groups) => {
                &&& forall|i: int|
                    0 <= i < modules@.len() ==> !((#[trigger] modules@[i]).capability
                        is Unchunkable)
                &&& groups_view(groups@) == groups_of(
                    modules_view(modules@),
                    ctx@,
                    runtime_entries@,
                )
            },
            Err(e) => exists|i: int|
                is_first_unchunkable(modules_view(modules@), i) && e@ == (ErrV::UnchunkableEntry {
                    module: modules@[i].ident@,
                }),
        },
{
    let mut groups: Vec<ChunkGroup> = Vec::new();
    let mut i: usize = 0;
    while i < modules.len()
        invariant
            i <= modules@.len(),
            groups@.len() == i,
            forall|j: int|
                0 <= j < i ==> !((#[trigger] modules@[j]).capability is Unchunkable),
            forall|j: int|
                0 <= j < i ==> (#[trigger] groups@[j])@ == (GroupV {
                    root: chunk_of(
                        modules@[j]@,
                        ctx@,
                        j == 0 && modules@[j]@.capability is Script,
                        runtime_entries@,
                    ),
                }),
        decreases modules@.len() - i,
    {
        let m = &modules[i];
        match m.capability {
            Capability::Script => {
                let c = make_chunk(m, ctx, i == 0, runtime_entries);
                groups.push(ChunkGroup::from_chunk(c));
            },
            Capability::GenericChunkable => {
                let c = make_chunk(m, ctx, false, runtime_entries);
                groups.push(ChunkGroup::from_chunk(c));
            },
            Capability::Unchunkable => {
                proof {
                    assert(is_first_unchunkable(modules_view(modules@), i as int));
                }
                return Err(BuildError::UnchunkableEntry { module: m.ident.clone() });
            },
        }
        i = i + 1;
    }
    proof {
        assert(groups_view(groups@) =~= groups_of(modules_view(modules@), ctx@, runtime_entries@));
    }
    Ok(groups)
}

/// Single runtime injection: when the first successfully-resolved entry
/// module is script-capable, exactly one assembled chunk carries the runtime
/// entries, and it is the root of the first chunk group.
pub proof fn lemma_single_runtime_injection(mods: Seq<ModuleV>, ctx: CtxV, runtime: Seq<Seq<char>>)
    requires
        mods.len() > 0,
        mods[0].capability is Script,
    ensures
        groups_of(mods, ctx, runtime)[0].root.runtime == Some(runtime),
        forall|i: int|
            1 <= i < groups_of(mods, ctx, runtime).len() ==> (#[trigger] groups_of(
                mods,
                ctx,
                runtime,
            )[i]).root.runtime is None,
{
}

} // verus!
