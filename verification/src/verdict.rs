//! Verdicts and the rejection taxonomy.
//!
//! Every validation is a closed, local decision: it either admits the
//! mutation, rejects it with a classified reason and a human-readable
//! diagnostic, or reports that a consumed capability could not resolve a
//! dependency (which the substrate retries later, rather than treating as a
//! permanent rejection).

use vstd::prelude::*;

verus! {

/// Why a mutation was rejected.
#[derive(Clone, Copy, PartialEq, Eq, Structural, Debug)]
pub enum RejectionKind {
    /// The claimed author does not match the verified signer.
    StructuralError,
    /// The author is not a contributor of the relevant group revision.
    AuthorizationError,
    /// A group pin is fabricated, or a cross-entity group reference
    /// disagrees.
    ReferentialError,
    /// A write-once field changed.
    ImmutabilityError,
    /// A deprecated record was edited without clearing the deprecation.
    LifecycleError,
    /// A referenced resource exceeds a fixed ceiling.
    ResourceLimitError,
}

/// A rejection: its classified reason and a stable-format diagnostic meant
/// for operators, not for other code.
#[derive(Clone)]
pub struct Rejection {
    pub kind: RejectionKind,
    pub message: String,
}

/// The terminal outcome of a validation.
#[derive(Clone)]
pub enum Verdict {
    Valid,
    Invalid(Rejection),
}

/// A consumed capability (group or blob lookup) failed to resolve; the
/// substrate is expected to retry the whole evaluation later.
#[derive(Clone)]
pub struct UnresolvableDependencyError {
    pub message: String,
}

/// A validation's result: a verdict, or an unresolvable dependency.
pub type ValidationResult = Result<Verdict, UnresolvableDependencyError>;

/// The decision a validation result carries, with diagnostics stripped.
#[derive(Clone, Copy, PartialEq, Eq, Structural, Debug)]
pub enum Outcome {
    Admit,
    Reject(RejectionKind),
    Unresolved,
}

/// The decision of a validation result.
pub open spec fn outcome_of(r: ValidationResult) -> Outcome {
    match r {
        Ok(Verdict::Valid) => Outcome::Admit,
        Ok(Verdict::Invalid(rejection)) => Outcome::Reject(rejection.kind),
        Err(_) => Outcome::Unresolved,
    }
}

/// Runs two checks in order: the first failure (or unresolved lookup) wins.
pub open spec fn first_failure(a: Outcome, b: Outcome) -> Outcome {
    if a is Admit {
        b
    } else {
        a
    }
}

/// An invalid verdict with the given reason and diagnostic.
pub fn reject(kind: RejectionKind, message: &str) -> (r: Verdict)
    ensures
        r matches Verdict::Invalid(rejection) && rejection.kind == kind,
{
    Verdict::Invalid(Rejection { kind, message: String::from_str(message) })
}

/// An unresolvable-dependency report with the given diagnostic.
pub fn unresolved(message: &str) -> UnresolvableDependencyError {
    UnresolvableDependencyError { message: String::from_str(message) }
}

} // verus!
