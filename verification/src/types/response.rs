//! What the sending API answers.

use vstd::prelude::*;

verus! {

/// The answer to a send request: whether it succeeded, the identifiers of the
/// messages sent, and the errors reported.
#[derive(Clone, Debug, PartialEq, Eq)]
pub struct SendEmailResponse {
    pub success: bool,
    pub message_ids: Vec<String>,
    pub errors: Vec<String>,
}

} // verus!
