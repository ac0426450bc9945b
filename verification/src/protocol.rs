//! The confirmation protocol as a state machine: from a classification and
//! the terminal context to the next step, and from that step and the user's
//! answer to the outcome.

use vstd::prelude::*;
use crate::classify::{classify, classify_spec, Classification, ClassificationView};
use crate::error::{
    cancelled_error, hard_error, ErrorKind, RoverError, RoverErrorSuggestion, RoverErrorView,
    RoverResult,
};
use crate::message::{
    local_host_reason, local_question, make_local_host_reason, make_local_question,
    make_prompt_line, make_unparsable_reason, make_unreachable_question,
    make_unsupported_scheme_reason, make_warning_line, prompt_line, unparsable_reason,
    unreachable_question, unsupported_scheme_reason, warning_line,
};
use crate::stream::{first_of, read_byte, rest_of, write_text};
use vstd::utf8::encode_utf8;

verus! {

/// The byte `y`.
pub const LOWER_Y: u8 = 0x79;

/// The byte `Y`.
pub const UPPER_Y: u8 = 0x59;

/// How a validation ended. Each validation ends in exactly one of these.
#[derive(Clone, Copy, Debug, PartialEq, Eq, Structural)]
pub enum ConfirmationOutcome {
    /// Nothing to object to: no interaction took place.
    Proceed,
    /// A warning was written; the publish goes ahead.
    ProceedWithWarning,
    /// The user was asked and said yes.
    UserConfirmed,
    /// The user was asked and did not say yes.
    UserDeclined,
    /// The URL was rejected where nobody could be asked.
    HardFailed,
}

/// What the protocol does next.
#[derive(Clone, Debug, PartialEq, Eq)]
pub enum Step {
    /// Go ahead in silence.
    Proceed,
    /// Write a warning that gives this reason, then go ahead.
    Warn(String),
    /// Put this question to the user and read one byte in answer.
    Prompt(String),
    /// Give up with this failure.
    Fail(RoverError),
}

/// [`Step`] as mathematical text.
pub enum StepView {
    Proceed,
    Warn(Seq<char>),
    Prompt(Seq<char>),
    Fail(RoverErrorView),
}

impl View for Step {
    type V = StepView;

    open spec fn view(&self) -> StepView {
        match self {
            Step::Proceed => StepView::Proceed,
            Step::Warn(reason) => StepView::Warn(reason@),
            Step::Prompt(question) => StepView::Prompt(question@),
            Step::Fail(error) => StepView::Fail(error@),
        }
    }
}

/// The step that follows from a candidate's class. With a terminal every
/// objection becomes a question; without one a URL that no router can use is
/// a failure, and a local host only a warning.
pub open spec fn step_for(url: Seq<char>, class: ClassificationView, is_atty: bool) -> StepView {
    match class {
        ClassificationView::Unparsable => {
            let reason = unparsable_reason(url);
            if is_atty {
                StepView::Prompt(unreachable_question(reason))
            } else {
                StepView::Fail(hard_error(ErrorKind::UnparsableUrl, reason))
            }
        },
        ClassificationView::UnsupportedScheme(scheme) => {
            let reason = unsupported_scheme_reason(url, scheme);
            if is_atty {
                StepView::Prompt(unreachable_question(reason))
            } else {
                StepView::Fail(hard_error(ErrorKind::UnsupportedScheme, reason))
            }
        },
        ClassificationView::LocalHost(host) => {
            let reason = local_host_reason(host);
            if is_atty {
                StepView::Prompt(local_question(reason))
            } else {
                StepView::Warn(reason)
            }
        },
        ClassificationView::ValidPublic => StepView::Proceed,
    }
}

/// The step that a candidate text leads to.
pub open spec fn step_of_candidate(candidate: Seq<char>, is_atty: bool) -> StepView {
    step_for(candidate, classify_spec(candidate), is_atty)
}

/// The text that a step puts on the output.
pub open spec fn step_output(step: StepView) -> Seq<char> {
    match step {
        StepView::Proceed => Seq::empty(),
        StepView::Warn(reason) => warning_line(reason),
        StepView::Prompt(question) => prompt_line(question),
        StepView::Fail(_) => Seq::empty(),
    }
}

/// The answer that a step takes from the input: a prompt takes the first
/// byte if there is one, every other step takes nothing.
pub open spec fn step_response(step: StepView, input: Seq<u8>) -> Option<u8> {
    match step {
        StepView::Prompt(_) => first_of(input),
        _ => None,
    }
}

/// The input that a step leaves behind: a prompt takes one byte off it, if
/// there is one, every other step leaves it alone.
pub open spec fn step_rest(step: StepView, input: Seq<u8>) -> Seq<u8> {
    match step {
        StepView::Prompt(_) => rest_of(input),
        _ => input,
    }
}

/// Only `y`, in either case, says yes.
pub open spec fn is_affirmative(byte: u8) -> bool {
    byte == LOWER_Y || byte == UPPER_Y
}

/// Whether an answer says yes. The end of the input says no.
pub open spec fn confirms(response: Option<u8>) -> bool {
    response matches Some(byte) && is_affirmative(byte)
}

/// How a step ends, given the answer read (which only a prompt looks at).
pub open spec fn outcome_of(step: StepView, response: Option<u8>) -> ConfirmationOutcome {
    match step {
        StepView::Proceed => ConfirmationOutcome::Proceed,
        StepView::Warn(_) => ConfirmationOutcome::ProceedWithWarning,
        StepView::Prompt(_) => if confirms(response) {
            ConfirmationOutcome::UserConfirmed
        } else {
            ConfirmationOutcome::UserDeclined
        },
        StepView::Fail(_) => ConfirmationOutcome::HardFailed,
    }
}

/// What the caller is told: success, or the failure that ends the publish.
pub open spec fn result_of(step: StepView, response: Option<u8>) -> Result<(), RoverErrorView> {
    match step {
        StepView::Proceed => Ok(()),
        StepView::Warn(_) => Ok(()),
        StepView::Prompt(_) => if confirms(response) {
            Ok(())
        } else {
            Err(cancelled_error())
        },
        StepView::Fail(error) => Err(error),
    }
}

impl ConfirmationOutcome {
    /// The outcomes after which the publish goes ahead.
    pub open spec fn permits_publish(self) -> bool {
        self == ConfirmationOutcome::Proceed || self == ConfirmationOutcome::ProceedWithWarning
            || self == ConfirmationOutcome::UserConfirmed
    }

    /// Whether the publish goes ahead. After the other two outcomes the
    /// attempt is over: nothing is tried again.
    pub fn may_publish(&self) -> (allowed: bool)
        ensures
            allowed == self.permits_publish(),
    {
        match self {
            ConfirmationOutcome::Proceed => true,
            ConfirmationOutcome::ProceedWithWarning => true,
            ConfirmationOutcome::UserConfirmed => true,
            ConfirmationOutcome::UserDeclined => false,
            ConfirmationOutcome::HardFailed => false,
        }
    }
}

impl Step {
    /// The text to put on the output before anything is read.
    pub fn output(&self) -> (text: String)
        ensures
            text@ == step_output(self@),
    {
        match self {
            Step::Proceed => String::new(),
            Step::Warn(reason) => make_warning_line(reason.as_str()),
            Step::Prompt(question) => make_prompt_line(question.as_str()),
            Step::Fail(_) => String::new(),
        }
    }

    /// Whether one byte is to be read in answer.
    pub fn awaits_response(&self) -> (awaited: bool)
        ensures
            awaited == (self@ is Prompt),
    {
        match self {
            Step::Prompt(_) => true,
            _ => false,
        }
    }
}

/// Whether `byte` says yes.
pub fn affirmative(byte: u8) -> (yes: bool)
    ensures
        yes == is_affirmative(byte),
{
    byte == LOWER_Y || byte == UPPER_Y
}

/// Whether an answer says yes.
pub fn is_confirmed(response: Option<u8>) -> (yes: bool)
    ensures
        yes == confirms(response),
{
    match response {
        Some(byte) => affirmative(byte),
        None => false,
    }
}

/// The failure that rejects a URL where nobody can be asked.
pub fn make_hard_error(kind: ErrorKind, reason: &str) -> (error: RoverError)
    ensures
        error@ == hard_error(kind, reason@),
{
    RoverError::new(kind, reason).with_suggestion(
        RoverErrorSuggestion::AllowInvalidRoutingUrlOrSpecifyValidUrl,
    )
}

/// Decides the next step for a classified candidate.
pub fn next_step(candidate: &str, class: &Classification, is_atty: bool) -> (step: Step)
    ensures
        step@ == step_for(candidate@, class@, is_atty),
{
    match class {
        Classification::Unparsable => {
            let reason = make_unparsable_reason(candidate);
            if is_atty {
                Step::Prompt(make_unreachable_question(reason.as_str()))
            } else {
                Step::Fail(make_hard_error(ErrorKind::UnparsableUrl, reason.as_str()))
            }
        },
        Classification::UnsupportedScheme(scheme) => {
            let reason = make_unsupported_scheme_reason(candidate, scheme.as_str());
            if is_atty {
                Step::Prompt(make_unreachable_question(reason.as_str()))
            } else {
                Step::Fail(make_hard_error(ErrorKind::UnsupportedScheme, reason.as_str()))
            }
        },
        Classification::LocalHost(host) => {
            let reason = make_local_host_reason(host.as_str());
            if is_atty {
                Step::Prompt(make_local_question(reason.as_str()))
            } else {
                Step::Warn(reason)
            }
        },
        Classification::ValidPublic => Step::Proceed,
    }
}

/// Classifies a candidate and decides the next step.
pub fn plan(candidate: &str, is_atty: bool) -> (step: Step)
    ensures
        step@ == step_of_candidate(candidate@, is_atty),
{
    let class = classify(candidate);
    next_step(candidate, &class, is_atty)
}

/// Names the outcome of a step. `response` is the byte read in answer to a
/// prompt, `None` where the input had ended; other steps do not look at it.
pub fn outcome(step: &Step, response: Option<u8>) -> (end: ConfirmationOutcome)
    ensures
        end == outcome_of(step@, response),
{
    match step {
        Step::Proceed => ConfirmationOutcome::Proceed,
        Step::Warn(_) => ConfirmationOutcome::ProceedWithWarning,
        Step::Prompt(_) => {
            if is_confirmed(response) {
                ConfirmationOutcome::UserConfirmed
            } else {
                ConfirmationOutcome::UserDeclined
            }
        },
        Step::Fail(_) => ConfirmationOutcome::HardFailed,
    }
}

/// Ends a step: the outcome after which the publish goes ahead, or the
/// failure that stops it.
pub fn conclude(step: Step, response: Option<u8>) -> (result: RoverResult<ConfirmationOutcome>)
    ensures
        match result {
            Ok(end) => end == outcome_of(step@, response) && end.permits_publish() && result_of(
                step@,
                response,
            ) is Ok,
            Err(error) => !outcome_of(step@, response).permits_publish() && result_of(
                step@,
                response,
            ) == Err::<(), RoverErrorView>(error@),
        },
{
    match step {
        Step::Proceed => Ok(ConfirmationOutcome::Proceed),
        Step::Warn(_) => Ok(ConfirmationOutcome::ProceedWithWarning),
        Step::Prompt(_) => {
            if is_confirmed(response) {
                Ok(ConfirmationOutcome::UserConfirmed)
            } else {
                Err(RoverError::cancelled())
            }
        },
        Step::Fail(error) => Err(error),
    }
}

/// Carries out a step on streams held in memory: writes what the step has
/// to say, reads one byte where it asks a question, and ends it.
pub fn run_step(step: Step, writer: &mut Vec<u8>, reader: &mut &[u8]) -> (result: RoverResult<
    ConfirmationOutcome,
>)
    ensures
        final(writer)@ == old(writer)@ + encode_utf8(step_output(step@)),
        final(reader)@ == step_rest(step@, old(reader)@),
        match result {
            Ok(end) => end == outcome_of(step@, step_response(step@, old(reader)@))
                && end.permits_publish(),
            Err(error) => !outcome_of(step@, step_response(step@, old(reader)@)).permits_publish()
                && result_of(step@, step_response(step@, old(reader)@)) == Err::<
                (),
                RoverErrorView,
            >(error@),
        },
{
    let text = step.output();
    write_text(writer, text.as_str());
    let response = if step.awaits_response() {
        read_byte(reader)
    } else {
        None
    };
    conclude(step, response)
}

} // verus!
