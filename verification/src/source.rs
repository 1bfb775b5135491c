//! The externally-invoked entry point of the pipeline: from an ordered batch
//! of entry requests and their resolution outcomes to a servable content
//! graph, or a single fatal error.

use vstd::prelude::*;
use crate::assembly::{
    assemble_chunk_groups, groups_of, is_first_unchunkable, lemma_first_unchunkable_unique,
};
use crate::chunking::{ctx_of, ChunkingContext};
use crate::errors::{BuildError, ErrV};
use crate::graph::{html_of, ContentGraph, HtmlAsset, HtmlV};
use crate::model::{modules_view, OutcomeV, ResolutionOutcome, RuntimeEntries};
use crate::resolution::{
    flatten_resolved, is_first_failed, lemma_first_failed_unique, opt_modules_view, options_of,
    outcomes_view, resolve_entries, resolved_of,
};

verus! {

/// Spec-level image of what one build invocation comes to: the bootstrap
/// asset of a finished content graph, or a single fatal error.
pub ghost enum BuildV {
    Built(HtmlV),
    Failed(ErrV),
}

/// What building from a batch of entry requests must come to, as a pure
/// function of the inputs:
///
/// - the first resolver-level failure fails the build with a `Resolution`
///   error naming the offending request;
/// - otherwise the first unchunkable resolved module fails the build with an
///   `UnchunkableEntry` error naming the offending module;
/// - otherwise the build produces the bootstrap asset at
///   `<client_root>/index.html`, listing one chunk group per resolved module
///   in request order, built under the chunking context derived for
///   `pathname`, with the runtime entries injected into the first resolved
///   entry's chunk iff it is script-capable.
pub open spec fn build_result(
    requests: Seq<Seq<char>>,
    outcomes: Seq<OutcomeV>,
    project_root: Seq<char>,
    client_root: Seq<char>,
    pathname: Seq<char>,
    environment: u64,
    runtime: Seq<Seq<char>>,
) -> BuildV {
    if exists|i: int| is_first_failed(outcomes, i) {
        BuildV::Failed(
            ErrV::Resolution { request: requests[choose|i: int| is_first_failed(outcomes, i)] },
        )
    } else {
        let mods = resolved_of(outcomes);
        if exists|i: int| is_first_unchunkable(mods, i) {
            BuildV::Failed(
                ErrV::UnchunkableEntry {
                    module: mods[choose|i: int| is_first_unchunkable(mods, i)].ident,
                },
            )
        } else {
            BuildV::Built(
                html_of(
                    client_root,
                    groups_of(
                        mods,
                        ctx_of(project_root, client_root, pathname, environment),
                        runtime,
                    ),
                ),
            )
        }
    }
}

/// Builds the content graph for a batch of entry requests.
///
/// `outcomes` holds, in request order, what resolving each request through
/// the external transform pipeline came to; the host gathers them with a
/// fan-out/fan-in join and hands them over in request order. The result is
/// pinned to [`build_result`] of the inputs: the build is deterministic, no
/// partial graph is ever returned, and an eager graph is fully materialized
/// while a lazy one has materialized nothing yet.
pub fn create_web_entry_source(
    project_root: &String,
    entry_requests: &Vec<String>,
    outcomes: &Vec<ResolutionOutcome>,
    client_root: &String,
    pathname: &String,
    environment: u64,
    runtime_entries: &RuntimeEntries,
    eager: bool,
) -> (r: Result<ContentGraph, BuildError>)
    requires
        outcomes@.len() == entry_requests@.len(),
    ensures
        ({
            let res = build_result(
                entry_requests.deep_view(),
                outcomes_view(outcomes@),
                project_root@,
                client_root@,
                pathname@,
                environment,
                runtime_entries@,
            );
            match r {
                Ok(g) => {
                    &&& res == BuildV::Built(g.bootstrap@)
                    &&& g.wf()
                    &&& g.eager == eager
                    &&& g.client_root@ == client_root@
                    &&& (eager ==> g.complete())
                    &&& (!eager ==> g.materializations() == 0)
                },
                Err(e) => res == BuildV::Failed(e@),
            }
        }),
{
    let ghost ov = outcomes_view(outcomes@);
    let resolved_opts = match resolve_entries(entry_requests, outcomes) {
        Ok(v) => v,
        Err(e) => {
            proof {
                let i = choose|i: int|
                    is_first_failed(ov, i) && e@ == (ErrV::Resolution {
                        request: entry_requests@[i]@,
                    });
                let k = choose|k: int| is_first_failed(ov, k);
                lemma_first_failed_unique(ov, i, k);
                assert(entry_requests.deep_view()[i] == entry_requests@[i]@);
            }
            return Err(e);
        },
    };
    proof {
        assert(!exists|i: int| is_first_failed(ov, i)) by {
            if exists|i: int| is_first_failed(ov, i) {
                let i = choose|i: int| is_first_failed(ov, i);
                assert(!(outcomes@[i]@ is Failed));
            }
        }
    }
    let modules = flatten_resolved(&resolved_opts);
    proof {
        assert(opt_modules_view(resolved_opts@) =~= options_of(ov));
        assert(modules_view(modules@) == resolved_of(ov));
    }
    let ctx = ChunkingContext::derive(project_root, client_root, pathname, environment);
    let groups = match assemble_chunk_groups(&modules, &ctx, runtime_entries) {
        Ok(gs) => gs,
        Err(e) => {
            proof {
                let mods = modules_view(modules@);
                let i = choose|i: int|
                    is_first_unchunkable(mods, i) && e@ == (ErrV::UnchunkableEntry {
                        module: modules@[i].ident@,
                    });
                let k = choose|k: int| is_first_unchunkable(mods, k);
                lemma_first_unchunkable_unique(mods, i, k);
                assert(mods[i].ident == modules@[i].ident@);
            }
            return Err(e);
        },
    };
    proof {
        let mods = modules_view(modules@);
        assert(!exists|i: int| is_first_unchunkable(mods, i)) by {
            if exists|i: int| is_first_unchunkable(mods, i) {
                let i = choose|i: int| is_first_unchunkable(mods, i);
                assert(!(modules@[i].capability is Unchunkable));
                assert(mods[i].capability is Unchunkable);
            }
        }
    }
    let html = HtmlAsset::new(client_root, groups);
    let g = if eager {
        ContentGraph::new_eager(client_root.clone(), html)
    } else {
        ContentGraph::new_lazy(client_root.clone(), html)
    };
    Ok(g)
}

/// Determinism: the outcome of a build is a pure function of the entry
/// requests, their resolutions, the roots, the pathname, the environment and
/// the runtime entries, so repeated builds over identical inputs produce the
/// same chunk groups in the same order and with the same chunk identities.
/// `create_web_entry_source` pins each of its results to `build_result` of
/// its inputs' views, so two runs over equal views agree.
pub proof fn lemma_build_deterministic(
    requests: Seq<Seq<char>>,
    outcomes: Seq<OutcomeV>,
    project_root: Seq<char>,
    client_root: Seq<char>,
    pathname: Seq<char>,
    environment: u64,
    runtime: Seq<Seq<char>>,
    r1: BuildV,
    r2: BuildV,
)
    requires
        r1 == build_result(
            requests,
            outcomes,
            project_root,
            client_root,
            pathname,
            environment,
            runtime,
        ),
        r2 == build_result(
            requests,
            outcomes,
            project_root,
            client_root,
            pathname,
            environment,
            runtime,
        ),
    ensures
        r1 == r2,
{
}

/// Unchunkable entries are fatal, not silently dropped: when no request
/// failed to resolve and some resolved module is unchunkable, the whole
/// build fails with an `UnchunkableEntry` error; no chunk group is emitted
/// for any entry of that build.
pub proof fn lemma_unchunkable_is_fatal(
    requests: Seq<Seq<char>>,
    outcomes: Seq<OutcomeV>,
    project_root: Seq<char>,
    client_root: Seq<char>,
    pathname: Seq<char>,
    environment: u64,
    runtime: Seq<Seq<char>>,
    i: int,
)
    requires
        forall|j: int| 0 <= j < outcomes.len() ==> !((#[trigger] outcomes[j]) is Failed),
        0 <= i < resolved_of(outcomes).len(),
        resolved_of(outcomes)[i].capability is Unchunkable,
    ensures
        ({
            let res = build_result(
                requests,
                outcomes,
                project_root,
                client_root,
                pathname,
                environment,
                runtime,
            );
            &&& res is Failed
            &&& res->Failed_0 is UnchunkableEntry
        }),
{
    assert(!exists|k: int| is_first_failed(outcomes, k)) by {
        if exists|k: int| is_first_failed(outcomes, k) {
            let k = choose|k: int| is_first_failed(outcomes, k);
            assert(!(outcomes[k] is Failed));
        }
    }
    crate::assembly::lemma_first_unchunkable_exists(resolved_of(outcomes), i);
}

} // verus!
