//! Chunking contexts: the output-path and environment configuration chunks
//! are built under, and the memoizing builder that derives one per pathname.

use vstd::prelude::*;
use crate::lookup::{assoc_has_key, find_entry};
use crate::paths::{join, join_spec};

verus! {

/// Spec-level image of a [`ChunkingContext`].
pub ghost struct CtxV {
    pub project_root: Seq<char>,
    pub script_dir: Seq<char>,
    pub media_dir: Seq<char>,
    pub environment: u64,
}

/// The script-chunk output directory derived for a pathname:
/// `<client_root>/static/chunks/<pathname>`.
pub open spec fn script_dir_of(client_root: Seq<char>, pathname: Seq<char>) -> Seq<char> {
    join_spec(join_spec(client_root, "static/chunks"@), pathname)
}

/// The media output directory derived for a pathname:
/// `<client_root>/static/media/<pathname>`.
pub open spec fn media_dir_of(client_root: Seq<char>, pathname: Seq<char>) -> Seq<char> {
    join_spec(join_spec(client_root, "static/media"@), pathname)
}

/// The chunking context derived for a pathname: a pure function of the
/// project root, the client root, the pathname and the environment handle.
pub open spec fn ctx_of(
    project_root: Seq<char>,
    client_root: Seq<char>,
    pathname: Seq<char>,
    environment: u64,
) -> CtxV {
    CtxV {
        project_root,
        script_dir: script_dir_of(client_root, pathname),
        media_dir: media_dir_of(client_root, pathname),
        environment: environment,
    }
}

/// The output-directory and environment configuration chunks are built under.
/// Immutable once built; all chunks built under one pathname share one value.
#[derive(Debug)]
pub struct ChunkingContext {
    pub project_root: String,
    pub script_dir: String,
    pub media_dir: String,
    pub environment: u64,
}

impl View for ChunkingContext {
    type V = CtxV;

    open spec fn view(&self) -> CtxV {
        CtxV {
            project_root: self.project_root@,
            script_dir: self.script_dir@,
            media_dir: self.media_dir@,
            environment: self.environment,
        }
    }
}

impl Clone for ChunkingContext {
    fn clone(&self) -> (r: Self)
        ensures
            r == *self,
    {
        ChunkingContext {
            project_root: self.project_root.clone(),
            script_dir: self.script_dir.clone(),
            media_dir: self.media_dir.clone(),
            environment: self.environment,
        }
    }
}

impl ChunkingContext {
    /// Derives the context for one pathname. Path composition cannot fail;
    /// malformed pathnames are accepted as opaque path segments.
    pub fn derive(
        project_root: &String,
        client_root: &String,
        pathname: &String,
        environment: u64,
    ) -> (r: ChunkingContext)
        ensures
            r@ == ctx_of(project_root@, client_root@, pathname@, environment),
    {
        let script_base = join(client_root, "static/chunks");
        let media_base = join(client_root, "static/media");
        ChunkingContext {
            project_root: project_root.clone(),
            script_dir: join(&script_base, pathname.as_str()),
            media_dir: join(&media_base, pathname.as_str()),
            environment,
        }
    }
}

/// Derives chunking contexts and memoizes them per distinct pathname, so
/// repeated requests for one pathname return the cached value rather than
/// rebuilding it.
#[derive(Debug)]
pub struct ChunkingContextBuilder {
    pub project_root: String,
    pub client_root: String,
    pub environment: u64,
    /// Memoization cache in insertion order; the first entry for a pathname
    /// wins.
    pub cache: Vec<(String, ChunkingContext)>,
    /// How many contexts have actually been derived (cache misses).
    pub derivations: usize,
}

impl ChunkingContextBuilder {
    /// Every cached context is the one derived for its pathname, and each
    /// derivation left one cache entry.
    pub open spec fn wf(&self) -> bool {
        &&& forall|k: int|
            0 <= k < self.cache@.len() ==> (#[trigger] self.cache@[k].1)@ == ctx_of(
                self.project_root@,
                self.client_root@,
                self.cache@[k].0@,
                self.environment,
            )
        &&& self.derivations == self.cache@.len()
    }

    pub fn new(project_root: String, client_root: String, environment: u64) -> (r: Self)
        ensures
            r.wf(),
            r.project_root@ == project_root@,
            r.client_root@ == client_root@,
            r.environment == environment,
            r.derivations == 0,
    {
        ChunkingContextBuilder {
            project_root,
            client_root,
            environment,
            cache: Vec::new(),
            derivations: 0,
        }
    }

    /// Returns the context for `pathname`, deriving it on the first request
    /// and serving every later request for the same pathname from the cache.
    pub fn build(&mut self, pathname: &String) -> (r: ChunkingContext)
        requires
            old(self).wf(),
        ensures
            final(self).wf(),
            r@ == ctx_of(old(self).project_root@, old(self).client_root@, pathname@, old(self).environment),
            final(self).project_root@ == old(self).project_root@,
            final(self).client_root@ == old(self).client_root@,
            final(self).environment == old(self).environment,
            assoc_has_key(final(self).cache@, pathname@),
            assoc_has_key(old(self).cache@, pathname@) ==> final(self).derivations == old(
                self,
            ).derivations && final(self).cache@ == old(self).cache@,
            !assoc_has_key(old(self).cache@, pathname@) ==> final(self).derivations == old(
                self,
            ).derivations + 1,
    {
        match find_entry(&self.cache, pathname) {
            Some(i) => self.cache[i].1.clone(),
            None => {
                let ctx = ChunkingContext::derive(
                    &self.project_root,
                    &self.client_root,
                    pathname,
                    self.environment,
                );
                let entry = (pathname.clone(), ctx.clone());
                self.cache.push(entry);
                self.derivations = self.cache.len();
                proof {
                    assert(self.cache@[self.cache@.len() - 1].0@ == pathname@);
                }
                ctx
            },
        }
    }
}

} // verus!
