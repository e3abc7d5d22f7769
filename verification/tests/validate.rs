use config_validate::config::Config;
use config_validate::validator::validate_config;

#[test]
#[should_panic(expected = "gc config values should all be greater than 0")]
fn test_gc_config_value_nonzero() {
    let mut config = Config::default();
    config.gc.gc_blocks_limit = 0;
    // set tracked_shards to be non-empty
    config.tracked_shards.push(20);
    validate_config(&config).unwrap();
}

#[test]
#[should_panic(
    expected = "Configuration with archive = false and save_trie_changes = false is not supported"
)]
fn test_archive_false_save_trie_changes_false() {
    let mut config = Config::default();
    config.archive = false;
    config.save_trie_changes = Some(false);
    // set tracked_shards to be non-empty
    config.tracked_shards.push(20);
    validate_config(&config).unwrap();
}

#[test]
#[should_panic(
    expected = "\\nconfig.json semantic issue: Configuration with archive = false and save_trie_changes = false is not supported because non-archival nodes must save trie changes in order to do do garbage collection.\\nconfig.json semantic issue: gc config values should all be greater than 0"
)]
fn test_multiple_config_validation_errors() {
    let mut config = Config::default();
    config.archive = false;
    config.save_trie_changes = Some(false);
    config.gc.gc_blocks_limit = 0;
    // set tracked_shards to be non-empty
    config.tracked_shards.push(20);
    validate_config(&config).unwrap();
}

#[test]
fn test_helper_appends_to_real_accumulator() {
    let mut errors = near_config_utils::ValidationErrors::new();
    assert!(errors.is_empty());
    let mut config = Config::default();
    config.save_trie_changes = Some(false);
    config.gc.gc_num_epochs_to_keep = 0;
    config_validate::validator::validate_all_conditions(&config, &mut errors);
    assert!(!errors.is_empty());
    let msg = errors.generate_error_message_per_type().unwrap();
    assert_eq!(
        msg,
        "\nconfig.json semantic issue: Configuration with archive = false and save_trie_changes = false is not supported because non-archival nodes must save trie changes in order to do do garbage collection.\nconfig.json semantic issue: gc config values should all be greater than 0, but gc_blocks_limit is 2, gc_fork_clean_step is 100, gc_num_epochs_to_keep is 0.\n"
    );
}
