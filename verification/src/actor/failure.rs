//! Failure classification: transient, logic and critical failures, and the
//! error type that carries one.
use vstd::prelude::*;
use crate::text::{decimal, dec_digits};

verus! {

/// The three classes of failure an agent can meet; each calls for its own
/// recovery.
#[derive(Debug)]
pub enum FailureKind {
    /// Network timeouts, rate limits, an unavailable provider: retried with
    /// exponential backoff from `backoff_base_ms` milliseconds.
    Transient { backoff_base_ms: u64 },
    /// Malformed tool input, unparsable JSON, failed validation: `context`
    /// can be fed back to the model for reflection.
    Logic { context: String },
    /// Exhausted budget, security violations, persistent hallucination:
    /// stop at once, and raise an alert when `alert` is set.
    Critical { alert: bool },
}

/// The failure kind is one that may be retried.
pub open spec fn retryable(kind: FailureKind) -> bool {
    !(kind is Critical)
}

/// The text that `describe` renders for a failure kind.
pub open spec fn describe_kind(kind: FailureKind) -> Seq<char> {
    match kind {
        FailureKind::Transient { backoff_base_ms } => "Transient(backoff="@ + dec_digits(
            backoff_base_ms as nat,
        ) + "ms)"@,
        FailureKind::Logic { context } => "Logic("@ + context@ + ")"@,
        FailureKind::Critical { alert } => "Critical(alert="@ + (if alert {
            "true"@
        } else {
            "false"@
        }) + ")"@,
    }
}

impl Clone for FailureKind {
    fn clone(&self) -> (r: Self)
        ensures
            r == *self,
    {
        match self {
            FailureKind::Transient { backoff_base_ms } => FailureKind::Transient {
                backoff_base_ms: *backoff_base_ms,
            },
            FailureKind::Logic { context } => FailureKind::Logic { context: context.clone() },
            FailureKind::Critical { alert } => FailureKind::Critical { alert: *alert },
        }
    }
}

impl FailureKind {
    /// A transient failure with the default backoff base of 500 ms.
    pub fn transient() -> (r: Self)
        ensures
            r == (FailureKind::Transient { backoff_base_ms: 500 }),
    {
        FailureKind::Transient { backoff_base_ms: 500 }
    }

    /// A transient failure with a backoff base of `base_ms` milliseconds.
    pub fn transient_with_backoff(base_ms: u64) -> (r: Self)
        ensures
            r == (FailureKind::Transient { backoff_base_ms: base_ms }),
    {
        FailureKind::Transient { backoff_base_ms: base_ms }
    }

    /// A logic failure with the given reflection context.
    pub fn logic(context: &str) -> (r: Self)
        ensures
            r matches FailureKind::Logic { context: c } && c@ == context@,
    {
        FailureKind::Logic { context: String::from_str(context) }
    }

    /// A critical failure that raises an alert.
    pub fn critical() -> (r: Self)
        ensures
            r == (FailureKind::Critical { alert: true }),
    {
        FailureKind::Critical { alert: true }
    }

    /// A critical failure without an alert.
    pub fn critical_silent() -> (r: Self)
        ensures
            r == (FailureKind::Critical { alert: false }),
    {
        FailureKind::Critical { alert: false }
    }

    /// Transient and logic failures may be retried; critical ones may not.
    pub fn is_retryable(&self) -> (r: bool)
        ensures
            r == retryable(*self),
    {
        match self {
            FailureKind::Critical { .. } => false,
            _ => true,
        }
    }

    /// The human-readable form, such as `Transient(backoff=500ms)`.
    pub fn describe(&self) -> (s: String)
        ensures
            s@ == describe_kind(*self),
    {
        match self {
            FailureKind::Transient { backoff_base_ms } => {
                let mut s = String::from_str("Transient(backoff=");
                let digits = decimal(*backoff_base_ms);
                s.append(digits.as_str());
                s.append("ms)");
                s
            },
            FailureKind::Logic { context } => {
                let mut s = String::from_str("Logic(");
                s.append(context.as_str());
                s.append(")");
                s
            },
            FailureKind::Critical { alert } => {
                let mut s = String::from_str("Critical(alert=");
                if *alert {
                    s.append("true");
                } else {
                    s.append("false");
                }
                s.append(")");
                s
            },
        }
    }
}

/// An error that carries its failure classification.
///
/// `source` holds the rendered text of the underlying error, where there is
/// one.
#[derive(Debug)]
pub struct AgentError {
    pub kind: FailureKind,
    pub message: String,
    pub source: Option<String>,
}

impl AgentError {
    /// An error of the given kind with no underlying cause.
    pub fn new(kind: FailureKind, message: &str) -> (r: Self)
        ensures
            r.kind == kind,
            r.message@ == message@,
            r.source is None,
    {
        AgentError { kind, message: String::from_str(message), source: None }
    }

    /// An error of the given kind caused by an underlying error, given by its
    /// rendered text.
    pub fn with_source(kind: FailureKind, message: &str, source: &str) -> (r: Self)
        ensures
            r.kind == kind,
            r.message@ == message@,
            r.source matches Some(s) && s@ == source@,
    {
        AgentError {
            kind,
            message: String::from_str(message),
            source: Some(String::from_str(source)),
        }
    }

    /// The human-readable form: `[kind] message`.
    pub fn describe(&self) -> (s: String)
        ensures
            s@ == "["@ + describe_kind(self.kind) + "] "@ + self.message@,
    {
        let mut s = String::from_str("[");
        let k = self.kind.describe();
        s.append(k.as_str());
        s.append("] ");
        s.append(self.message.as_str());
        s
    }
}

} // verus!
