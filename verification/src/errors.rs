//! Error kinds of the wizard: transport failure while fetching the schema,
//! a missing or malformed schema category, and failure to spawn the
//! external tool.

use vstd::prelude::*;
use vstd::string::StringExecFns;

verus! {

/// The three failure kinds the wizard can report.
#[derive(Clone, Copy, Debug, PartialEq, Eq, Structural)]
pub enum WizardError {
    /// The metadata document could not be fetched (transport or HTTP failure,
    /// or a body that is not JSON at all).
    Fetch,
    /// A requested category is absent from the document or has the wrong shape.
    Schema,
    /// The external tool could not be spawned.
    Spawn,
}

impl WizardError {
    /// A human-readable description of the error kind.
    pub fn message(&self) -> (r: String)
        ensures
            *self is Fetch ==> r@ == "failed to fetch the metadata document"@,
            *self is Schema ==> r@ == "schema category missing or malformed"@,
            *self is Spawn ==> r@ == "failed to spawn the external tool"@,
    {
        match self {
            WizardError::Fetch => String::from_str("failed to fetch the metadata document"),
            WizardError::Schema => String::from_str("schema category missing or malformed"),
            WizardError::Spawn => String::from_str("failed to spawn the external tool"),
        }
    }
}

} // verus!
