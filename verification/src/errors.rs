//! Per-decision failure conditions.  These are reported to the caller and
//! never retried: the event loop logs them and moves on to the next event.

use vstd::prelude::*;

verus! {

/// Why a single decision could not be made.  None of these is fatal to the
/// process; the next event is expected to correct the situation.
#[derive(Clone, Copy, Debug, PartialEq, Eq, Structural)]
pub enum DecisionError {
    /// The tree snapshot holds no focused node.
    NoFocusedNode,
    /// The focused node has no parent in the tree snapshot.
    NoParent,
    /// No workspace is currently focused.
    NoFocusedWorkspace,
}

impl DecisionError {
    /// A short description of the failure, for logging.
    pub fn message(&self) -> (r: &'static str)
        ensures
            r@ == self.message_spec(),
    {
        let r: &'static str = match self {
            DecisionError::NoFocusedNode => "No focused node",
            DecisionError::NoParent => "No parent",
            DecisionError::NoFocusedWorkspace => "No focused workspace",
        };
        r
    }

    /// What `message` returns for each variant.
    pub open spec fn message_spec(&self) -> Seq<char> {
        match self {
            DecisionError::NoFocusedNode => "No focused node"@,
            DecisionError::NoParent => "No parent"@,
            DecisionError::NoFocusedWorkspace => "No focused workspace"@,
        }
    }
}

} // verus!
