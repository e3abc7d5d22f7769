use vstd::prelude::*;
use vstd::string::StringExecFns;

use crate::config::Config;
use crate::digits::{dec_str, u64_to_string};

verus! {

// ---------------------------------------------------------------------------
// Trigger conditions, one spec function per rule, in the fixed rule order.
// ---------------------------------------------------------------------------

/// Archival/GC safety: a non-archival node must not explicitly refuse to save
/// trie changes.  An unset flag does not trigger the rule.
pub open spec fn archival_rule_triggers(c: Config) -> bool {
    c.archive == false && c.save_trie_changes == Some(false)
}

/// Block timing lower bound against the production upper bound.
pub open spec fn production_delay_rule_triggers(c: Config) -> bool {
    c.consensus.min_block_production_delay > c.consensus.max_block_production_delay
}

/// Block timing lower bound against the wait upper bound.
pub open spec fn wait_delay_rule_triggers(c: Config) -> bool {
    c.consensus.min_block_production_delay > c.consensus.max_block_wait_delay
}

/// Header sync rate must not be zero.
pub open spec fn header_sync_rule_triggers(c: Config) -> bool {
    c.consensus.header_sync_expected_height_per_second == 0
}

/// Every garbage-collection limit must be positive.
pub open spec fn gc_rule_triggers(c: Config) -> bool {
    c.gc.gc_blocks_limit == 0 || c.gc.gc_fork_clean_step == 0 || c.gc.gc_num_epochs_to_keep == 0
}

/// A configuration is valid exactly when no rule triggers.
pub open spec fn config_is_valid(c: Config) -> bool {
    &&& !archival_rule_triggers(c)
    &&& !production_delay_rule_triggers(c)
    &&& !wait_delay_rule_triggers(c)
    &&& !header_sync_rule_triggers(c)
    &&& !gc_rule_triggers(c)
}

// ---------------------------------------------------------------------------
// Violation messages, one spec function per rule.
// ---------------------------------------------------------------------------

pub open spec fn archival_message() -> Seq<char> {
    "Configuration with archive = false and save_trie_changes = false is not supported because non-archival nodes must save trie changes in order to do do garbage collection."@
}

pub open spec fn production_delay_message(c: Config) -> Seq<char> {
    "min_block_production_delay: "@ + dec_str(c.consensus.min_block_production_delay as nat)
        + " is greater than max_block_production_delay: "@
        + dec_str(c.consensus.max_block_production_delay as nat)
}

pub open spec fn wait_delay_message(c: Config) -> Seq<char> {
    "min_block_production_delay: "@ + dec_str(c.consensus.min_block_production_delay as nat)
        + " is greater than max_block_wait_delay: "@
        + dec_str(c.consensus.max_block_wait_delay as nat)
}

pub open spec fn header_sync_message() -> Seq<char> {
    "consensus.header_sync_expected_height_per_second should not be 0"@
}

pub open spec fn gc_message(c: Config) -> Seq<char> {
    "gc config values should all be greater than 0, but gc_blocks_limit is "@
        + dec_str(c.gc.gc_blocks_limit as nat) + ", gc_fork_clean_step is "@
        + dec_str(c.gc.gc_fork_clean_step as nat) + ", gc_num_epochs_to_keep is "@
        + dec_str(c.gc.gc_num_epochs_to_keep as nat) + "."@
}

// ---------------------------------------------------------------------------
// Executable message builders, each proved against its spec function.
// ---------------------------------------------------------------------------

pub fn build_archival_message() -> (r: String)
    ensures
        r@ == archival_message(),
{
    String::from_str(
        "Configuration with archive = false and save_trie_changes = false is not supported because non-archival nodes must save trie changes in order to do do garbage collection.",
    )
}

pub fn build_production_delay_message(config: &Config) -> (r: String)
    ensures
        r@ == production_delay_message(*config),
{
    let mut s = String::from_str("min_block_production_delay: ");
    let min = u64_to_string(config.consensus.min_block_production_delay);
    s.append(min.as_str());
    s.append(" is greater than max_block_production_delay: ");
    let max = u64_to_string(config.consensus.max_block_production_delay);
    s.append(max.as_str());
    proof {
        assert(s@ =~= production_delay_message(*config));
    }
    s
}

pub fn build_wait_delay_message(config: &Config) -> (r: String)
    ensures
        r@ == wait_delay_message(*config),
{
    let mut s = String::from_str("min_block_production_delay: ");
    let min = u64_to_string(config.consensus.min_block_production_delay);
    s.append(min.as_str());
    s.append(" is greater than max_block_wait_delay: ");
    let max = u64_to_string(config.consensus.max_block_wait_delay);
    s.append(max.as_str());
    proof {
        assert(s@ =~= wait_delay_message(*config));
    }
    s
}

pub fn build_header_sync_message() -> (r: String)
    ensures
        r@ == header_sync_message(),
{
    String::from_str("consensus.header_sync_expected_height_per_second should not be 0")
}

pub fn build_gc_message(config: &Config) -> (r: String)
    ensures
        r@ == gc_message(*config),
{
    let mut s = String::from_str("gc config values should all be greater than 0, but gc_blocks_limit is ");
    let blocks = u64_to_string(config.gc.gc_blocks_limit);
    s.append(blocks.as_str());
    s.append(", gc_fork_clean_step is ");
    let fork = u64_to_string(config.gc.gc_fork_clean_step);
    s.append(fork.as_str());
    s.append(", gc_num_epochs_to_keep is ");
    let epochs = u64_to_string(config.gc.gc_num_epochs_to_keep);
    s.append(epochs.as_str());
    s.append(".");
    proof {
        assert(s@ =~= gc_message(*config));
    }
    s
}

// ---------------------------------------------------------------------------
// Each rule's contribution to the aggregated report, and the full report body.
// ---------------------------------------------------------------------------

/// The messages the archival/GC-safety rule adds: one when it triggers, none otherwise.
pub open spec fn archival_contribution(c: Config) -> Seq<Seq<char>> {
    if archival_rule_triggers(c) {
        seq![archival_message()]
    } else {
        Seq::<Seq<char>>::empty()
    }
}

pub open spec fn production_delay_contribution(c: Config) -> Seq<Seq<char>> {
    if production_delay_rule_triggers(c) {
        seq![production_delay_message(c)]
    } else {
        Seq::<Seq<char>>::empty()
    }
}

pub open spec fn wait_delay_contribution(c: Config) -> Seq<Seq<char>> {
    if wait_delay_rule_triggers(c) {
        seq![wait_delay_message(c)]
    } else {
        Seq::<Seq<char>>::empty()
    }
}

pub open spec fn header_sync_contribution(c: Config) -> Seq<Seq<char>> {
    if header_sync_rule_triggers(c) {
        seq![header_sync_message()]
    } else {
        Seq::<Seq<char>>::empty()
    }
}

pub open spec fn gc_contribution(c: Config) -> Seq<Seq<char>> {
    if gc_rule_triggers(c) {
        seq![gc_message(c)]
    } else {
        Seq::<Seq<char>>::empty()
    }
}

/// Every triggered rule's message, in the fixed rule evaluation order.
pub open spec fn triggered_messages(c: Config) -> Seq<Seq<char>> {
    archival_contribution(c) + production_delay_contribution(c) + wait_delay_contribution(c)
        + header_sync_contribution(c) + gc_contribution(c)
}

/// How many rules trigger on a configuration.
pub open spec fn count_triggered(c: Config) -> int {
    (if archival_rule_triggers(c) { 1int } else { 0int })
        + (if production_delay_rule_triggers(c) { 1int } else { 0int })
        + (if wait_delay_rule_triggers(c) { 1int } else { 0int })
        + (if header_sync_rule_triggers(c) { 1int } else { 0int })
        + (if gc_rule_triggers(c) { 1int } else { 0int })
}

/// A valid configuration triggers no rule, so the report body is empty;
/// on any other configuration the report carries one message per triggered rule.
pub proof fn lemma_triggered_messages_len(c: Config)
    ensures
        triggered_messages(c).len() == count_triggered(c),
        config_is_valid(c) <==> triggered_messages(c).len() == 0,
{
}

} // verus!
