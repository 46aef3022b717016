//! What one invocation produces: a value, or a fault with its kind and cause.

use vstd::prelude::*;
use vstd::string::*;

verus! {

/// Why an invocation failed. Every failure is terminal: nothing is retried.
#[derive(Clone, Copy, Debug, PartialEq, Eq, Structural)]
pub enum FailureKind {
    /// The bytes are not a module header followed by whole sections.
    MalformedBinary,
    /// The bytes are framed as a module, but the runtime's validator refuses them.
    ValidationFailed,
    /// An import does not resolve against the registry, or the runtime
    /// refuses to wire the instance.
    LinkFailed,
    /// The module exports nothing under the entry point's name.
    MissingEntryPoint,
    /// The export under the entry point's name is not a function from
    /// nothing to one 32-bit integer.
    SignatureMismatch,
    /// Guest code faulted while it ran.
    Trap,
}

impl FailureKind {
    /// The kind's name as it appears in diagnostics.
    pub open spec fn label_text(self) -> Seq<char> {
        match self {
            FailureKind::MalformedBinary => "MalformedBinary"@,
            FailureKind::ValidationFailed => "ValidationFailed"@,
            FailureKind::LinkFailed => "LinkFailed"@,
            FailureKind::MissingEntryPoint => "MissingEntryPoint"@,
            FailureKind::SignatureMismatch => "SignatureMismatch"@,
            FailureKind::Trap => "Trap"@,
        }
    }

    pub fn label(self) -> (r: &'static str)
        ensures
            r@ == self.label_text(),
    {
        match self {
            FailureKind::MalformedBinary => "MalformedBinary",
            FailureKind::ValidationFailed => "ValidationFailed",
            FailureKind::LinkFailed => "LinkFailed",
            FailureKind::MissingEntryPoint => "MissingEntryPoint",
            FailureKind::SignatureMismatch => "SignatureMismatch",
            FailureKind::Trap => "Trap",
        }
    }
}

/// Every kind's name has at least one character.
pub proof fn lemma_label_nonempty(kind: FailureKind)
    ensures
        kind.label_text().len() > 0,
{
    reveal_strlit("MalformedBinary");
    reveal_strlit("ValidationFailed");
    reveal_strlit("LinkFailed");
    reveal_strlit("MissingEntryPoint");
    reveal_strlit("SignatureMismatch");
    reveal_strlit("Trap");
}

/// A failure as a mathematical value.
pub struct FailureView {
    pub kind: FailureKind,
    pub detail: Seq<char>,
}

impl FailureView {
    /// The diagnostic shown to a caller: the kind's name, a colon and a
    /// space, then the cause.
    pub open spec fn message(self) -> Seq<char> {
        self.kind.label_text() + ": "@ + self.detail
    }
}

/// A failure: its kind, and the cause in words.
#[derive(Debug, PartialEq, Eq)]
pub struct Failure {
    pub kind: FailureKind,
    pub detail: String,
}

impl View for Failure {
    type V = FailureView;

    open spec fn view(&self) -> FailureView {
        FailureView { kind: self.kind, detail: self.detail@ }
    }
}

impl Failure {
    pub fn new(kind: FailureKind, detail: String) -> (r: Failure)
        ensures
            r@ == (FailureView { kind, detail: detail@ }),
    {
        Failure { kind, detail }
    }

    /// The diagnostic for this failure. It names the kind and is never empty.
    pub fn message(&self) -> (r: String)
        ensures
            r@ == self@.message(),
            r@.len() > 0,
    {
        let mut text = String::from_str(self.kind.label());
        text.append(": ");
        text.append(self.detail.as_str());
        proof {
            lemma_label_nonempty(self.kind);
        }
        text
    }
}

/// An outcome as a mathematical value.
pub enum OutcomeView {
    Value(i32),
    Fault(FailureView),
}

/// The result of one invocation.
#[derive(Debug, PartialEq, Eq)]
pub enum Outcome {
    /// The entry point returned this integer.
    Value(i32),
    /// The invocation failed.
    Fault(Failure),
}

impl View for Outcome {
    type V = OutcomeView;

    open spec fn view(&self) -> OutcomeView {
        match self {
            Outcome::Value(v) => OutcomeView::Value(*v),
            Outcome::Fault(f) => OutcomeView::Fault(f@),
        }
    }
}

} // verus!
