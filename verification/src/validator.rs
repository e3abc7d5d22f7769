use vstd::prelude::*;

use near_config_utils::ValidationErrors;

use crate::accumulator::{
    all_config_semantics, generate_error_message_per_type, messages_of,
    push_config_semantics_error, semantics_report, validation_errors_is_empty,
    validation_errors_new,
};
use crate::config::Config;
use crate::rules::{
    archival_rule_triggers, build_archival_message, build_gc_message, build_header_sync_message,
    build_production_delay_message, build_wait_delay_message, config_is_valid, gc_rule_triggers,
    header_sync_rule_triggers, lemma_triggered_messages_len, production_delay_rule_triggers,
    triggered_messages, wait_delay_rule_triggers,
};

verus! {

/// A semantic validation failure: the one error kind this library produces,
/// carrying the combined multi-line report.
#[derive(Debug)]
pub enum ValidationError {
    ConfigSemanticsError { error_message: String },
}

/// The combined report text a validation error carries.
pub open spec fn error_message_of(e: ValidationError) -> Seq<char> {
    match e {
        ValidationError::ConfigSemanticsError { error_message } => error_message@,
    }
}

/// What `validate_config` promises of its result: success exactly on valid
/// configurations, and on any other configuration a single semantics error
/// whose text is the rendered report of every triggered rule's message, in
/// the fixed rule order.
pub open spec fn validation_outcome(c: Config, r: Result<(), ValidationError>) -> bool {
    &&& r is Ok <==> config_is_valid(c)
    &&& r is Err ==> error_message_of(r->Err_0) == semantics_report(triggered_messages(c))
}

/// Evaluates every rule, in the fixed order, appending one error per
/// triggered rule to the accumulator; no rule is skipped after a failure.
pub fn validate_all_conditions(config: &Config, validation_errors: &mut ValidationErrors)
    ensures
        messages_of(*final(validation_errors)) == messages_of(*old(validation_errors))
            + triggered_messages(*config),
        all_config_semantics(*final(validation_errors)) == all_config_semantics(
            *old(validation_errors),
        ),
{
    if !config.archive && matches!(config.save_trie_changes, Some(false)) {
        let error_message = build_archival_message();
        push_config_semantics_error(validation_errors, error_message);
    }

    if config.consensus.min_block_production_delay > config.consensus.max_block_production_delay {
        let error_message = build_production_delay_message(config);
        push_config_semantics_error(validation_errors, error_message);
    }

    if config.consensus.min_block_production_delay > config.consensus.max_block_wait_delay {
        let error_message = build_wait_delay_message(config);
        push_config_semantics_error(validation_errors, error_message);
    }

    if config.consensus.header_sync_expected_height_per_second == 0 {
        let error_message = build_header_sync_message();
        push_config_semantics_error(validation_errors, error_message);
    }

    if config.gc.gc_blocks_limit == 0 || config.gc.gc_fork_clean_step == 0
        || config.gc.gc_num_epochs_to_keep == 0 {
        let error_message = build_gc_message(config);
        push_config_semantics_error(validation_errors, error_message);
    }

    proof {
        assert(messages_of(*validation_errors) =~= messages_of(*old(validation_errors))
            + triggered_messages(*config));
    }
}

/// Resolves the accumulator: success when it is empty, otherwise one
/// semantics error carrying the rendered report of everything it holds.
pub fn result_with_full_error(validation_errors: &ValidationErrors) -> (r: Result<
    (),
    ValidationError,
>)
    requires
        all_config_semantics(*validation_errors),
    ensures
        r is Ok <==> messages_of(*validation_errors).len() == 0,
        r is Err ==> error_message_of(r->Err_0) == semantics_report(
            messages_of(*validation_errors),
        ),
{
    if validation_errors_is_empty(validation_errors) {
        Ok(())
    } else {
        let full_err_msg = generate_error_message_per_type(validation_errors).unwrap();
        Err(ValidationError::ConfigSemanticsError { error_message: full_err_msg })
    }
}

/// Validates a configuration: every rule is evaluated, every violation is
/// collected, and all of them are reported at once.  This function does not
/// panic; the only failure it produces is the aggregated semantics error.
pub fn validate_config(config: &Config) -> (r: Result<(), ValidationError>)
    ensures
        validation_outcome(*config, r),
{
    let mut validation_errors = validation_errors_new();
    validate_all_conditions(config, &mut validation_errors);
    proof {
        lemma_triggered_messages_len(*config);
        assert(messages_of(validation_errors) =~= triggered_messages(*config));
    }
    result_with_full_error(&validation_errors)
}

/// Determinism: validation is a function of the configuration alone.  Any
/// two outcomes for the same configuration agree on success, and when they
/// fail they carry identical report text.
pub proof fn lemma_validate_deterministic(
    c: Config,
    r1: Result<(), ValidationError>,
    r2: Result<(), ValidationError>,
)
    requires
        validation_outcome(c, r1),
        validation_outcome(c, r2),
    ensures
        r1 is Ok <==> r2 is Ok,
        r1 is Err ==> error_message_of(r1->Err_0) == error_message_of(r2->Err_0),
{
}

/// Independence: each rule's contribution to the report depends only on the
/// fields that rule reads, so changing a field read by one rule leaves every
/// other rule's presence in, or absence from, the report unchanged.
pub proof fn lemma_rule_independence(c1: Config, c2: Config)
    ensures
        c1.archive == c2.archive && c1.save_trie_changes == c2.save_trie_changes
            ==> crate::rules::archival_contribution(c1) == crate::rules::archival_contribution(c2),
        c1.consensus.min_block_production_delay == c2.consensus.min_block_production_delay
            && c1.consensus.max_block_production_delay == c2.consensus.max_block_production_delay
            ==> crate::rules::production_delay_contribution(c1)
            == crate::rules::production_delay_contribution(c2),
        c1.consensus.min_block_production_delay == c2.consensus.min_block_production_delay
            && c1.consensus.max_block_wait_delay == c2.consensus.max_block_wait_delay
            ==> crate::rules::wait_delay_contribution(c1) == crate::rules::wait_delay_contribution(
            c2,
        ),
        c1.consensus.header_sync_expected_height_per_second
            == c2.consensus.header_sync_expected_height_per_second
            ==> crate::rules::header_sync_contribution(c1)
            == crate::rules::header_sync_contribution(c2),
        c1.gc.gc_blocks_limit == c2.gc.gc_blocks_limit && c1.gc.gc_fork_clean_step
            == c2.gc.gc_fork_clean_step && c1.gc.gc_num_epochs_to_keep
            == c2.gc.gc_num_epochs_to_keep ==> crate::rules::gc_contribution(c1)
            == crate::rules::gc_contribution(c2),
{
}

/// Completeness: the report body holds exactly one message per triggered
/// rule, in the fixed rule evaluation order, with no rule skipped after an
/// earlier failure and none repeated.
pub proof fn lemma_report_completeness(c: Config)
    ensures
        triggered_messages(c) == crate::rules::archival_contribution(c)
            + crate::rules::production_delay_contribution(c)
            + crate::rules::wait_delay_contribution(c)
            + crate::rules::header_sync_contribution(c) + crate::rules::gc_contribution(c),
        triggered_messages(c).len() == crate::rules::count_triggered(c),
        crate::rules::archival_contribution(c).len() == (if archival_rule_triggers(c) {
            1int
        } else {
            0int
        }),
        crate::rules::production_delay_contribution(c).len() == (
        if production_delay_rule_triggers(c) {
            1int
        } else {
            0int
        }),
        crate::rules::wait_delay_contribution(c).len() == (if wait_delay_rule_triggers(c) {
            1int
        } else {
            0int
        }),
        crate::rules::header_sync_contribution(c).len() == (if header_sync_rule_triggers(c) {
            1int
        } else {
            0int
        }),
        crate::rules::gc_contribution(c).len() == (if gc_rule_triggers(c) {
            1int
        } else {
            0int
        }),
{
    lemma_triggered_messages_len(c);
}

} // verus!
