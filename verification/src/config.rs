//! Process-lifetime configuration shared by every relay invocation.

use vstd::prelude::*;

verus! {

/// Mathematical view of a [`Config`]: addresses as character sequences,
/// the redaction threshold as an unbounded natural.
#[verifier::ext_equal]
pub struct SpecConfig {
    pub upstream_lwd: Seq<char>,
    pub bind_addr: Seq<char>,
    pub max_outputs_actions: nat,
    pub exclude_sapling: bool,
    pub exclude_orchard: bool,
}

/// Immutable configuration, loaded once at startup.
///
/// `max_outputs_actions` is the maximum-output-count threshold: a
/// transaction whose Sapling output count reaches it has the payload of
/// all its shielded entries cleared. The two `exclude_*` flags drop an
/// entire shielded pool's entries from every transaction.
#[derive(Clone)]
pub struct Config {
    pub upstream_lwd: String,
    pub bind_addr: String,
    pub max_outputs_actions: u32,
    pub exclude_sapling: bool,
    pub exclude_orchard: bool,
}

impl View for Config {
    type V = SpecConfig;

    open spec fn view(&self) -> SpecConfig {
        SpecConfig {
            upstream_lwd: self.upstream_lwd@,
            bind_addr: self.bind_addr@,
            max_outputs_actions: self.max_outputs_actions as nat,
            exclude_sapling: self.exclude_sapling,
            exclude_orchard: self.exclude_orchard,
        }
    }
}

} // verus!
