//! The outcome of one evaluation.

use vstd::prelude::*;

verus! {

/// What is to be done with a message.
#[derive(Clone, Copy, Debug, PartialEq, Eq, Structural)]
pub enum Action {
    /// Forward the payload unchanged.
    Allow,
    /// Suppress the message.
    Drop,
    /// Forward the replacement text in place of the payload.
    Redact,
}

impl Action {
    /// The lower-case tag of the action.
    pub open spec fn tag(self) -> Seq<char> {
        match self {
            Action::Allow => "allow"@,
            Action::Drop => "drop"@,
            Action::Redact => "redact"@,
        }
    }

    /// The lower-case tag of the action: `allow`, `drop` or `redact`.
    pub fn as_str(&self) -> (tag: &'static str)
        ensures
            tag@ == self.tag(),
    {
        match self {
            Action::Allow => "allow",
            Action::Drop => "drop",
            Action::Redact => "redact",
        }
    }
}

/// The text that stands in for a redacted payload.
pub open spec fn redaction_marker() -> Seq<char> {
    "[REDACTED]"@
}

/// A verdict as a mathematical value.
pub struct VerdictModel {
    pub action: Action,
    pub reason: Option<Seq<char>>,
    pub sanitized_content: Option<Seq<char>>,
}

impl VerdictModel {
    /// A reason comes with every action but `Allow`, and a replacement text
    /// with `Redact` alone.
    pub open spec fn well_formed(self) -> bool {
        &&& self.reason is Some <==> self.action != Action::Allow
        &&& self.sanitized_content is Some <==> self.action == Action::Redact
    }

    /// The verdict that lets a payload pass.
    pub open spec fn allow() -> VerdictModel {
        VerdictModel { action: Action::Allow, reason: None, sanitized_content: None }
    }

    /// The verdict that suppresses a message for `reason`.
    pub open spec fn dropped(reason: Seq<char>) -> VerdictModel {
        VerdictModel { action: Action::Drop, reason: Some(reason), sanitized_content: None }
    }

    /// The verdict that replaces the whole payload by the marker for `reason`.
    pub open spec fn redacted(reason: Seq<char>) -> VerdictModel {
        VerdictModel {
            action: Action::Redact,
            reason: Some(reason),
            sanitized_content: Some(redaction_marker()),
        }
    }
}

/// The view of an optional string.
pub open spec fn text_of(o: Option<String>) -> Option<Seq<char>> {
    match o {
        Some(s) => Some(s@),
        None => None,
    }
}

/// The result of evaluating one payload. Its fields are fixed at
/// construction, which keeps the value well-formed.
#[derive(Clone, Debug, PartialEq, Eq)]
pub struct Verdict {
    action: Action,
    reason: Option<String>,
    sanitized_content: Option<String>,
}

impl View for Verdict {
    type V = VerdictModel;

    closed spec fn view(&self) -> VerdictModel {
        VerdictModel {
            action: self.action,
            reason: text_of(self.reason),
            sanitized_content: text_of(self.sanitized_content),
        }
    }
}

impl Verdict {
    /// The verdict that lets a payload pass.
    pub fn allow() -> (v: Verdict)
        ensures
            v@ == VerdictModel::allow(),
    {
        Verdict { action: Action::Allow, reason: None, sanitized_content: None }
    }

    /// The verdict that suppresses a message.
    pub fn dropped(reason: String) -> (v: Verdict)
        ensures
            v@ == VerdictModel::dropped(reason@),
    {
        Verdict { action: Action::Drop, reason: Some(reason), sanitized_content: None }
    }

    /// The verdict that replaces the whole payload by the marker.
    pub fn redacted(reason: String) -> (v: Verdict)
        ensures
            v@ == VerdictModel::redacted(reason@),
    {
        Verdict {
            action: Action::Redact,
            reason: Some(reason),
            sanitized_content: Some("[REDACTED]".to_owned()),
        }
    }

    /// The action decided.
    pub fn action(&self) -> (a: Action)
        ensures
            a == self@.action,
    {
        self.action
    }

    /// Why the action was decided, if a rule decided it.
    pub fn reason(&self) -> (r: &Option<String>)
        ensures
            text_of(*r) == self@.reason,
    {
        &self.reason
    }

    /// The text to forward in place of the payload, if there is one.
    pub fn sanitized_content(&self) -> (r: &Option<String>)
        ensures
            text_of(*r) == self@.sanitized_content,
    {
        &self.sanitized_content
    }
}

} // verus!
