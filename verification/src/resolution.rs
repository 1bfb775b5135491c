//! Entry resolution: each entry request is resolved independently through the
//! external transform pipeline; this engine orders the answers.
//!
//! Resolutions run concurrently in the host, so no ordering holds between
//! their completion times; the output sequence nevertheless preserves request
//! order (index `i` of the result corresponds to request `i`). An empty match
//! is a normal outcome and is dropped from later stages; a resolver-level
//! failure is fatal for the whole batch.

use vstd::prelude::*;
use crate::errors::{BuildError, ErrV};
use crate::model::{ModuleV, OutcomeV, ResolutionOutcome, ResolvedModule};

verus! {

/// The module a single outcome contributes, if any.
pub open spec fn option_of(o: OutcomeV) -> Option<ModuleV> {
    match o {
        OutcomeV::Resolved { module } => Some(module),
        OutcomeV::Empty => None,
        OutcomeV::Failed => None,
    }
}

/// The outcomes in request order, each reduced to its optional module.
pub open spec fn options_of(s: Seq<OutcomeV>) -> Seq<Option<ModuleV>> {
    Seq::new(s.len(), |i: int| option_of(s[i]))
}

/// The present modules of a sequence of optional modules, in order.
pub open spec fn somes_of(s: Seq<Option<ModuleV>>) -> Seq<ModuleV>
    decreases s.len(),
{
    if s.len() == 0 {
        Seq::empty()
    } else {
        let prefix = somes_of(s.drop_last());
        match s.last() {
            Some(m) => prefix.push(m),
            None => prefix,
        }
    }
}

/// The successfully-resolved modules of a batch, in request order, with
/// absent resolutions dropped.
pub open spec fn resolved_of(s: Seq<OutcomeV>) -> Seq<ModuleV> {
    somes_of(options_of(s))
}

/// `i` is the position of the first resolver-level failure of the batch.
pub open spec fn is_first_failed(s: Seq<OutcomeV>, i: int) -> bool {
    &&& 0 <= i < s.len()
    &&& s[i] is Failed
    &&& forall|j: int| 0 <= j < i ==> !((#[trigger] s[j]) is Failed)
}

/// The first failure position is unique.
pub proof fn lemma_first_failed_unique(s: Seq<OutcomeV>, i: int, k: int)
    requires
        is_first_failed(s, i),
        is_first_failed(s, k),
    ensures
        i == k,
{
}

pub open spec fn opt_module_view(o: Option<ResolvedModule>) -> Option<ModuleV> {
    match o {
        Some(m) => Some(m@),
        None => None,
    }
}

pub open spec fn opt_modules_view(s: Seq<Option<ResolvedModule>>) -> Seq<Option<ModuleV>> {
    s.map_values(|o: Option<ResolvedModule>| opt_module_view(o))
}

pub open spec fn outcomes_view(s: Seq<ResolutionOutcome>) -> Seq<OutcomeV> {
    s.map_values(|o: ResolutionOutcome| o@)
}

/// Orders the batch of resolution answers: index `i` of the result
/// corresponds to request `i`. The first resolver-level failure fails the
/// whole batch with a `Resolution` error naming the offending request;
/// an empty match is represented as an absent entry, not an error.
pub fn resolve_entries(
    requests: &Vec<String>,
    outcomes: &Vec<ResolutionOutcome>,
) -> (r: Result<Vec<Option<ResolvedModule>>, BuildError>)
    requires
        outcomes@.len() == requests@.len(),
    ensures
        match r {
            Ok(v) => {
                &&& forall|i: int|
                    0 <= i < outcomes@.len() ==> !((#[trigger] outcomes@[i])@ is Failed)
                &&& opt_modules_view(v@) == options_of(outcomes_view(outcomes@))
            },
            Err(e) => exists|i: int|
                is_first_failed(outcomes_view(outcomes@), i) && e@ == (ErrV::Resolution {
                    request: requests@[i]@,
                }),
        },
{
    let mut v: Vec<Option<ResolvedModule>> = Vec::new();
    let mut i: usize = 0;
    while i < outcomes.len()
        invariant
            outcomes@.len() == requests@.len(),
            i <= outcomes@.len(),
            v@.len() == i,
            forall|j: int| 0 <= j < i ==> !((#[trigger] outcomes@[j])@ is Failed),
            forall|j: int|
                0 <= j < i ==> opt_module_view(#[trigger] v@[j]) == option_of(outcomes@[j]@),
        decreases outcomes@.len() - i,
    {
        match &outcomes[i] {
            ResolutionOutcome::Resolved(m) => v.push(Some(m.clone())),
            ResolutionOutcome::Empty => v.push(None),
            ResolutionOutcome::Failed => {
                proof {
                    assert(is_first_failed(outcomes_view(outcomes@), i as int));
                }
                return Err(BuildError::Resolution { request: requests[i].clone() });
            },
        }
        i = i + 1;
    }
    proof {
        assert(opt_modules_view(v@) =~= options_of(outcomes_view(outcomes@)));
    }
    Ok(v)
}

proof fn lemma_somes_of_push(s: Seq<Option<ModuleV>>, o: Option<ModuleV>)
    ensures
        somes_of(s.push(o)) == match o {
            Some(m) => somes_of(s).push(m),
            None => somes_of(s),
        },
{
    assert(s.push(o).drop_last() =~= s);
    assert(s.push(o).last() == o);
}

/// Drops the absent resolutions, keeping request order: the result holds
/// exactly the successfully-resolved modules of the batch.
pub fn flatten_resolved(entries: &Vec<Option<ResolvedModule>>) -> (r: Vec<ResolvedModule>)
    ensures
        crate::model::modules_view(r@) == somes_of(opt_modules_view(entries@)),
{
    let ghost ms = opt_modules_view(entries@);
    let mut r: Vec<ResolvedModule> = Vec::new();
    let mut i: usize = 0;
    while i < entries.len()
        invariant
            i <= entries@.len(),
            ms == opt_modules_view(entries@),
            crate::model::modules_view(r@) == somes_of(ms.take(i as int)),
        decreases entries@.len() - i,
    {
        proof {
            assert(ms.take(i + 1) =~= ms.take(i as int).push(ms[i as int]));
            lemma_somes_of_push(ms.take(i as int), ms[i as int]);
        }
        match &entries[i] {
            Some(m) => {
                let ghost before = r@;
                r.push(m.clone());
                proof {
                    assert(crate::model::modules_view(r@) =~= crate::model::modules_view(
                        before,
                    ).push(m@));
                }
            },
            None => {},
        }
        i = i + 1;
    }
    proof {
        assert(ms.take(entries@.len() as int) =~= ms);
    }
    r
}

} // verus!
