use vstd::prelude::*;

verus! {

/// Where the storage collaborator lives. The storage client itself performs
/// I/O and is owned exclusively by the match stage's task, outside this
/// library.
#[derive(Debug, PartialEq)]
pub struct Config {
    pub db_url: String,
}

} // verus!
