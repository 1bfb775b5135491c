//! The fatal error kinds of a build invocation. Every error aborts the whole
//! build: no partial chunk graph is ever returned.

use vstd::prelude::*;

verus! {

/// Spec-level image of a [`BuildError`]: the kind together with the name of
/// the offending request or module.
pub ghost enum ErrV {
    Resolution { request: Seq<char> },
    UnchunkableEntry { module: Seq<char> },
    UnexpectedModuleKind { module: Seq<char> },
}

/// A fatal build failure.
///
/// - `Resolution`: a request could not be resolved at all (resolver-level
///   failure); carries the offending request.
/// - `UnchunkableEntry`: a resolved module has neither the script nor the
///   generic chunkable capability; carries the offending module identity.
/// - `UnexpectedModuleKind`: a module that was expected to be a script module
///   (because a script-producing transform was applied) resolved to something
///   else; a defensive check against transform-pipeline contract violations.
#[derive(Debug)]
pub enum BuildError {
    Resolution { request: String },
    UnchunkableEntry { module: String },
    UnexpectedModuleKind { module: String },
}

impl View for BuildError {
    type V = ErrV;

    open spec fn view(&self) -> ErrV {
        match self {
            BuildError::Resolution { request } => ErrV::Resolution { request: request@ },
            BuildError::UnchunkableEntry { module } => ErrV::UnchunkableEntry {
                module: module@,
            },
            BuildError::UnexpectedModuleKind { module } => ErrV::UnexpectedModuleKind {
                module: module@,
            },
        }
    }
}

/// The human-readable message for each error kind: a fixed cause sentence
/// followed by the offending request or module, so the user can fix their
/// entry configuration.
pub open spec fn message_of(e: ErrV) -> Seq<char> {
    match e {
        ErrV::Resolution { request } => "failed to resolve entry request: "@ + request,
        ErrV::UnchunkableEntry { module } => "entry module is not chunkable, so it can't be used to bootstrap the application: "@
            + module,
        ErrV::UnexpectedModuleKind { module } => "expected an EcmaScript module asset: "@
            + module,
    }
}

impl BuildError {
    /// Renders the error for the user; the message names the offending
    /// request or module.
    pub fn message(&self) -> (r: String)
        ensures
            r@ == message_of(self@),
    {
        match self {
            BuildError::Resolution { request } => String::from_str(
                "failed to resolve entry request: ",
            ).concat(request.as_str()),
            BuildError::UnchunkableEntry { module } => String::from_str(
                "entry module is not chunkable, so it can't be used to bootstrap the application: ",
            ).concat(module.as_str()),
            BuildError::UnexpectedModuleKind { module } => String::from_str(
                "expected an EcmaScript module asset: ",
            ).concat(module.as_str()),
        }
    }
}

} // verus!
