use vstd::prelude::*;

verus! {

/// The library's error taxonomy. A malformed rule file or rule grammar is
/// startup-fatal; a demand to reauthenticate and an exhausted notifier quota
/// surface to the task that owns the remote client.
#[derive(Debug, PartialEq)]
pub enum Error {
    /// The rule file is not valid JSON; carries the syntax error's message.
    Json(String),
    /// A shape error, such as a rule file whose top level is not an array.
    Other(String),
    /// A rule did not compile: a pattern parse error or a mistyped key.
    Rule(crate::scan::Error),
    /// No unexpired token is at hand; the caller must authenticate first.
    Reauthenticate,
    /// The notifier's remote quota is exhausted; fail fast, do not retry.
    OutOfRequests,
}

} // verus!
