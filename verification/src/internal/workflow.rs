//! The ways of rotating, by name.

use vstd::prelude::*;
use vstd::string::*;
use crate::text::equals_text;

verus! {

/// How the application gets its new credentials.
#[derive(Clone, Copy, Debug, PartialEq, Eq)]
pub enum WorkflowKind {
    /// Two users take turns.
    EXCHANGE,
    /// Every rotation creates a user and drops the one before.
    ROTATE,
}

/// The text that tells why a name is no workflow.
pub open spec fn unknown_workflow_text(name: Seq<char>) -> Seq<char> {
    "unknown color: "@ + name
}

/// The workflow of the given name, if there is one.
pub open spec fn workflow_named(name: Seq<char>) -> Result<WorkflowKind, Seq<char>> {
    if name == "exchange"@ {
        Ok(WorkflowKind::EXCHANGE)
    } else if name == "rotate"@ {
        Ok(WorkflowKind::ROTATE)
    } else {
        Err(unknown_workflow_text(name))
    }
}

impl WorkflowKind {
    /// The workflow of the given name, or the text that tells why there is
    /// none.
    pub fn parse(s: &str) -> (kind: Result<WorkflowKind, String>)
        ensures
            match workflow_named(s@) {
                Ok(expected) => kind == Ok::<WorkflowKind, String>(expected),
                Err(text) => kind matches Err(reason) && reason@ == text,
            },
    {
        let name = String::from_str(s);
        if equals_text(&name, "exchange") {
            Ok(WorkflowKind::EXCHANGE)
        } else if equals_text(&name, "rotate") {
            Ok(WorkflowKind::ROTATE)
        } else {
            let mut reason = String::from_str("unknown color: ");
            reason.append(s);
            Err(reason)
        }
    }
}

impl std::str::FromStr for WorkflowKind {
    type Err = String;

    fn from_str(s: &str) -> (kind: Result<Self, Self::Err>)
        ensures
            match workflow_named(s@) {
                Ok(expected) => kind == Ok::<WorkflowKind, String>(expected),
                Err(text) => kind matches Err(reason) && reason@ == text,
            },
    {
        WorkflowKind::parse(s)
    }
}

} // verus!
