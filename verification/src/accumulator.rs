use vstd::prelude::*;

use near_config_utils::ValidationErrors;

verus! {

#[verifier::external_type_specification]
#[verifier::external_body]
pub struct ExValidationErrors(ValidationErrors);

/// The messages of the errors an accumulator holds, in insertion order.
pub uninterp spec fn messages_of(v: ValidationErrors) -> Seq<Seq<char>>;

/// Whether every error an accumulator holds is the configuration-semantics kind.
pub uninterp spec fn all_config_semantics(v: ValidationErrors) -> bool;

/// One rendered report line: the configuration-semantics tag, then the message.
pub open spec fn semantics_line(m: Seq<char>) -> Seq<char> {
    "\nconfig.json semantic issue: "@ + m
}

/// The rendered report lines for a list of messages, in order.
pub open spec fn semantics_lines(msgs: Seq<Seq<char>>) -> Seq<char>
    decreases msgs.len(),
{
    if msgs.len() == 0 {
        Seq::<char>::empty()
    } else {
        semantics_line(msgs[0]) + semantics_lines(msgs.drop_first())
    }
}

/// The full rendered report for a non-empty list of configuration-semantics
/// messages: one tagged line per message, in order, then a final line break.
pub open spec fn semantics_report(msgs: Seq<Seq<char>>) -> Seq<char> {
    semantics_lines(msgs) + "\n"@
}

/// Relies on near_config_utils::ValidationErrors::new: the fresh accumulator
/// holds no errors.
#[verifier::external_body]
pub(crate) fn validation_errors_new() -> (r: ValidationErrors)
    ensures
        messages_of(r) == Seq::<Seq<char>>::empty(),
        all_config_semantics(r),
{
    ValidationErrors::new()
}

/// Relies on near_config_utils::ValidationErrors::push_config_semantics_error:
/// it appends one configuration-semantics error carrying the given message.
#[verifier::external_body]
pub(crate) fn push_config_semantics_error(v: &mut ValidationErrors, error_message: String)
    ensures
        messages_of(*final(v)) == messages_of(*old(v)).push(error_message@),
        all_config_semantics(*final(v)) == all_config_semantics(*old(v)),
{
    v.push_config_semantics_error(error_message)
}

/// Relies on near_config_utils::ValidationErrors::is_empty: true exactly when
/// the accumulator holds no errors.
#[verifier::external_body]
pub(crate) fn validation_errors_is_empty(v: &ValidationErrors) -> (r: bool)
    ensures
        r == (messages_of(*v).len() == 0),
{
    v.is_empty()
}

/// Relies on near_config_utils::ValidationErrors::generate_error_message_per_type:
/// it returns None exactly on an empty accumulator; otherwise the combined text
/// opens each error on a fresh line with that error's tag and message, in
/// insertion order, and ends with a line break.  The clause below states the
/// text only for accumulators whose errors are all of the
/// configuration-semantics kind, whose tag is fixed.
#[verifier::external_body]
pub(crate) fn generate_error_message_per_type(v: &ValidationErrors) -> (r: Option<String>)
    ensures
        (r is Some) == (messages_of(*v).len() > 0),
        all_config_semantics(*v) && messages_of(*v).len() > 0 ==> r->Some_0@ == semantics_report(messages_of(*v)),
{
    v.generate_error_message_per_type()
}

} // verus!
