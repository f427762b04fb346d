use vstd::prelude::*;

use crate::rule::Rules;

verus! {

/// The whole configuration: the compiled rule set and each collaborator's
/// settings. Loading it from a file happens outside this library; the rules
/// are compiled by this library from their plain parts.
pub struct Config {
    pub rules: Rules,
    pub reddit: crate::reddit::Config,
    pub discord: crate::discord::Config,
    pub twilio: crate::sms::Config,
    pub db: crate::db::Config,
}

} // verus!
