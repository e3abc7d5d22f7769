use vstd::prelude::*;

verus! {

/// Consensus timing parameters of the node configuration.
///
/// The delays are expressed in milliseconds.
#[derive(Debug)]
pub struct Consensus {
    pub min_block_production_delay: u64,
    pub max_block_production_delay: u64,
    pub max_block_wait_delay: u64,
    pub header_sync_expected_height_per_second: u64,
}

/// Garbage-collection limits of the node configuration.
#[derive(Debug)]
pub struct GCConfig {
    pub gc_blocks_limit: u64,
    pub gc_fork_clean_step: u64,
    pub gc_num_epochs_to_keep: u64,
}

/// The node configuration, as far as semantic validation reads it.
///
/// The value is fully constructed by the caller before validation and is
/// only ever read here.  `save_trie_changes` keeps its three states apart:
/// unset, explicitly true, and explicitly false.
#[derive(Debug)]
pub struct Config {
    pub archive: bool,
    pub save_trie_changes: Option<bool>,
    pub consensus: Consensus,
    pub gc: GCConfig,
    pub tracked_shards: Vec<u64>,
}

impl Default for Config {
    /// A configuration whose fields all sit inside every rule's safe range.
    fn default() -> (r: Self)
        ensures
            r.archive == false,
            r.save_trie_changes is None,
            r.consensus.min_block_production_delay == 600,
            r.consensus.max_block_production_delay == 2000,
            r.consensus.max_block_wait_delay == 6000,
            r.consensus.header_sync_expected_height_per_second == 10,
            r.gc.gc_blocks_limit == 2,
            r.gc.gc_fork_clean_step == 100,
            r.gc.gc_num_epochs_to_keep == 5,
            r.tracked_shards@ == Seq::<u64>::empty(),
    {
        Config {
            archive: false,
            save_trie_changes: None,
            consensus: Consensus {
                min_block_production_delay: 600,
                max_block_production_delay: 2000,
                max_block_wait_delay: 6000,
                header_sync_expected_height_per_second: 10,
            },
            gc: GCConfig { gc_blocks_limit: 2, gc_fork_clean_step: 100, gc_num_epochs_to_keep: 5 },
            tracked_shards: Vec::new(),
        }
    }
}

} // verus!
