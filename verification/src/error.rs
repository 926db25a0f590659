//! The one way in which a cluster description is refused.

use vstd::prelude::*;
use vstd::string::*;

verus! {

/// A tenant identifier holds a dash.
#[derive(Debug, Clone, PartialEq, Eq)]
pub struct DeploymentIdDashError {
    pub id: String,
}

/// What the error says of the identifier `id`.
pub open spec fn dash_message(id: Seq<char>) -> Seq<char> {
    "Deployment ID must not contain dashes ("@ + id + ")"@
}

impl DeploymentIdDashError {
    /// The error in words.
    pub fn message(&self) -> (s: String)
        ensures
            s@ == dash_message(self.id@),
    {
        let mut s = "Deployment ID must not contain dashes (".to_owned();
        s.append(self.id.as_str());
        s.append(")");
        s
    }
}

} // verus!
