use config_validate::config::Config;
use config_validate::digits::u64_to_string;
use config_validate::validator::{validate_config, ValidationError};

fn error_text(config: &Config) -> String {
    let err = validate_config(config).unwrap_err();
    let ValidationError::ConfigSemanticsError { error_message } = err;
    error_message
}

#[test]
fn archival_without_trie_changes_is_the_only_line() {
    let mut config = Config::default();
    config.archive = false;
    config.save_trie_changes = Some(false);
    assert_eq!(
        error_text(&config),
        "\nconfig.json semantic issue: Configuration with archive = false and save_trie_changes = false is not supported because non-archival nodes must save trie changes in order to do do garbage collection.\n"
    );
}

#[test]
fn gc_blocks_limit_zero_cites_all_three_values() {
    let mut config = Config::default();
    config.gc.gc_blocks_limit = 0;
    assert_eq!(
        error_text(&config),
        "\nconfig.json semantic issue: gc config values should all be greater than 0, but gc_blocks_limit is 0, gc_fork_clean_step is 100, gc_num_epochs_to_keep is 5.\n"
    );
}

#[test]
fn combined_violations_keep_the_fixed_order() {
    let expected = "\nconfig.json semantic issue: Configuration with archive = false and save_trie_changes = false is not supported because non-archival nodes must save trie changes in order to do do garbage collection.\nconfig.json semantic issue: gc config values should all be greater than 0, but gc_blocks_limit is 0, gc_fork_clean_step is 100, gc_num_epochs_to_keep is 5.\n";

    let mut config = Config::default();
    config.archive = false;
    config.save_trie_changes = Some(false);
    config.gc.gc_blocks_limit = 0;
    assert_eq!(error_text(&config), expected);

    // The same fields set in the opposite order give the same report.
    let mut config = Config::default();
    config.gc.gc_blocks_limit = 0;
    config.save_trie_changes = Some(false);
    config.archive = false;
    assert_eq!(error_text(&config), expected);
}

#[test]
fn all_fields_in_safe_ranges_is_success() {
    let config = Config::default();
    assert!(validate_config(&config).is_ok());

    let mut config = Config::default();
    config.archive = false;
    config.save_trie_changes = Some(true);
    config.tracked_shards.push(20);
    assert!(validate_config(&config).is_ok());

    // An archival node may explicitly refuse to save trie changes.
    let mut config = Config::default();
    config.archive = true;
    config.save_trie_changes = Some(false);
    assert!(validate_config(&config).is_ok());
}

#[test]
fn min_delay_between_wait_and_production_bounds() {
    let mut config = Config::default();
    config.consensus.min_block_production_delay = 3000;
    config.consensus.max_block_production_delay = 5000;
    config.consensus.max_block_wait_delay = 2000;
    let text = error_text(&config);
    assert_eq!(
        text,
        "\nconfig.json semantic issue: min_block_production_delay: 3000 is greater than max_block_wait_delay: 2000\n"
    );
    assert!(!text.contains("is greater than max_block_production_delay"));
}

#[test]
fn min_delay_above_production_bound_message() {
    let mut config = Config::default();
    config.consensus.min_block_production_delay = 5;
    config.consensus.max_block_production_delay = 4;
    config.consensus.max_block_wait_delay = 6000;
    assert_eq!(
        error_text(&config),
        "\nconfig.json semantic issue: min_block_production_delay: 5 is greater than max_block_production_delay: 4\n"
    );
}

#[test]
fn header_sync_rate_zero_message() {
    let mut config = Config::default();
    config.consensus.header_sync_expected_height_per_second = 0;
    assert_eq!(
        error_text(&config),
        "\nconfig.json semantic issue: consensus.header_sync_expected_height_per_second should not be 0\n"
    );
}

#[test]
fn repeated_validation_is_deterministic() {
    let mut config = Config::default();
    config.save_trie_changes = Some(false);
    config.consensus.header_sync_expected_height_per_second = 0;
    let first = format!("{:?}", validate_config(&config));
    let second = format!("{:?}", validate_config(&config));
    assert_eq!(first, second);

    let valid = Config::default();
    assert_eq!(
        format!("{:?}", validate_config(&valid)),
        format!("{:?}", validate_config(&valid))
    );
}

#[test]
fn toggling_one_field_changes_only_that_rule() {
    let mut config = Config::default();
    config.consensus.header_sync_expected_height_per_second = 0;
    config.gc.gc_blocks_limit = 0;
    let both = error_text(&config);
    assert!(both.contains("header_sync_expected_height_per_second should not be 0"));
    assert!(both.contains("gc config values should all be greater than 0"));

    // Restoring the header sync rate removes only that rule's line.
    config.consensus.header_sync_expected_height_per_second = 10;
    let one = error_text(&config);
    assert!(!one.contains("header_sync_expected_height_per_second should not be 0"));
    assert_eq!(
        one,
        "\nconfig.json semantic issue: gc config values should all be greater than 0, but gc_blocks_limit is 0, gc_fork_clean_step is 100, gc_num_epochs_to_keep is 5.\n"
    );
}

#[test]
fn unset_trie_retention_does_not_trigger_the_archival_rule() {
    let mut config = Config::default();
    config.archive = false;
    config.save_trie_changes = None;
    assert!(validate_config(&config).is_ok());
}

#[test]
fn decimal_rendering_is_exact() {
    assert_eq!(u64_to_string(0), "0");
    assert_eq!(u64_to_string(7), "7");
    assert_eq!(u64_to_string(10), "10");
    assert_eq!(u64_to_string(600), "600");
    assert_eq!(u64_to_string(12345), "12345");
    assert_eq!(u64_to_string(18446744073709551615), "18446744073709551615");
}
