//! What holds of the protocol for every candidate, stated over the
//! definitions that the functions' contracts use.

use vstd::prelude::*;
use crate::classify::{classification_of, is_local_host, is_supported_scheme, ClassificationView};
use crate::error::{cancelled_error, ErrorKind, RoverErrorSuggestion, RoverErrorView};
use crate::message::{
    local_host_reason, local_question, prompt_line, scheme_notice, unparsable_reason,
    unreachable_question, unsupported_scheme_reason, warning_line,
};
use crate::protocol::{
    confirms, outcome_of, result_of, step_for, step_output, step_response, step_rest,
    ConfirmationOutcome, StepView, LOWER_Y, UPPER_Y,
};
use crate::stream::first_of;
use crate::text::{contains, lemma_contains_self, lemma_contains_within};
use crate::url::UrlParts;

verus! {

/// The message that a step shows or fails with: the question of a prompt,
/// the reason of a warning, the message of a failure.
pub open spec fn step_message(step: StepView) -> Seq<char> {
    match step {
        StepView::Proceed => Seq::empty(),
        StepView::Warn(reason) => reason,
        StepView::Prompt(question) => question,
        StepView::Fail(error) => error.message,
    }
}

/// What a question or a warning holds is on the output once the step is
/// carried out.
pub proof fn lemma_output_shows_message(step: StepView, needle: Seq<char>)
    requires
        step is Prompt || step is Warn,
        contains(step_message(step), needle),
    ensures
        contains(step_output(step), needle),
{
    match step {
        StepView::Prompt(question) => {
            lemma_contains_within(
                prompt_line(question),
                Seq::empty(),
                question,
                " [y/N] "@,
                needle,
            );
        },
        StepView::Warn(reason) => {
            lemma_contains_within(warning_line(reason), "WARN: "@, reason, "\n"@, needle);
        },
        _ => {},
    }
}

/// The reason given for a text that is no URL says so.
pub proof fn lemma_unparsable_reason_says_so(url: Seq<char>)
    ensures
        contains(unparsable_reason(url), "not a valid routing URL"@),
{
    reveal_strlit("` is not a valid routing URL.");
    reveal_strlit("not a valid routing URL");
    let tail = "` is not a valid routing URL."@;
    let needle = "not a valid routing URL"@;
    assert(tail.subrange(5int, 5int + needle.len()) =~= needle);
    lemma_contains_within(unparsable_reason(url), "`"@ + url, tail, Seq::empty(), needle);
}

/// The notice about a scheme names the scheme and the two accepted ones.
pub proof fn lemma_scheme_notice_names_schemes(scheme: Seq<char>)
    ensures
        contains(scheme_notice(scheme), "The `"@ + scheme + "` protocol is not supported"@),
        contains(scheme_notice(scheme), "Valid protocols are `http` and `https`."@),
{
    reveal_strlit(
        "` protocol is not supported by the router. Valid protocols are `http` and `https`.",
    );
    reveal_strlit("` protocol is not supported");
    reveal_strlit(" by the router. Valid protocols are `http` and `https`.");
    reveal_strlit("Valid protocols are `http` and `https`.");
    let tail =
        "` protocol is not supported by the router. Valid protocols are `http` and `https`."@;
    let head = "` protocol is not supported"@;
    let rest = " by the router. Valid protocols are `http` and `https`."@;
    let accepted = "Valid protocols are `http` and `https`."@;
    assert(tail =~= head + rest);
    let named = "The `"@ + scheme + head;
    lemma_contains_self(named);
    lemma_contains_within(scheme_notice(scheme), Seq::empty(), named, rest, named);
    assert(tail.subrange(43int, 43int + accepted.len()) =~= accepted);
    lemma_contains_within(scheme_notice(scheme), "The `"@ + scheme, tail, Seq::empty(), accepted);
}

/// The protocol as a table: how a validation ends for each class of
/// candidate, with and without a terminal, and for each answer.
pub proof fn law_outcome_by_class(
    url: Seq<char>,
    class: ClassificationView,
    is_atty: bool,
    input: Seq<u8>,
)
    ensures
        ({
            let step = step_for(url, class, is_atty);
            let response = step_response(step, input);
            let asked = if confirms(first_of(input)) {
                ConfirmationOutcome::UserConfirmed
            } else {
                ConfirmationOutcome::UserDeclined
            };
            outcome_of(step, response) == match class {
                ClassificationView::Unparsable => if is_atty {
                    asked
                } else {
                    ConfirmationOutcome::HardFailed
                },
                ClassificationView::UnsupportedScheme(_) => if is_atty {
                    asked
                } else {
                    ConfirmationOutcome::HardFailed
                },
                ClassificationView::LocalHost(_) => if is_atty {
                    asked
                } else {
                    ConfirmationOutcome::ProceedWithWarning
                },
                ClassificationView::ValidPublic => ConfirmationOutcome::Proceed,
            }
        }),
{
}

/// Every failure has its kind: a declined prompt is a cancellation, a
/// refusal names what was wrong with the URL and suggests the way out, and
/// streams held in memory never fail.
pub proof fn law_failures_are_typed(
    url: Seq<char>,
    class: ClassificationView,
    is_atty: bool,
    response: Option<u8>,
)
    ensures
        result_of(step_for(url, class, is_atty), response) matches Err(error) ==> {
            &&& error.kind != ErrorKind::IoFailure
            &&& error.kind == ErrorKind::UserCancelled <==> is_atty
            &&& error.kind == ErrorKind::UnparsableUrl <==> !is_atty && class is Unparsable
            &&& error.kind == ErrorKind::UnsupportedScheme <==> !is_atty
                && class is UnsupportedScheme
            &&& error.suggestion is Some <==> !is_atty
        },
{
}

/// A candidate that does not parse is never let through unasked. With a
/// terminal the user is asked; without one the validation fails, suggests the
/// way out, and neither writes nor reads. The question and the failure both
/// say that the candidate is not a valid routing URL.
pub proof fn law_unparsable_is_asked_or_refused(
    url: Seq<char>,
    parsed: Option<UrlParts>,
    is_atty: bool,
    input: Seq<u8>,
)
    requires
        parsed is None,
    ensures
        ({
            let step = step_for(url, classification_of(parsed), is_atty);
            let response = step_response(step, input);
            &&& contains(step_message(step), "not a valid routing URL"@)
            &&& is_atty ==> step is Prompt && contains(
                step_output(step),
                "not a valid routing URL"@,
            )
            &&& !is_atty ==> {
                &&& step matches StepView::Fail(error)
                &&& error.kind == ErrorKind::UnparsableUrl
                &&& error.suggestion == Some(
                    RoverErrorSuggestion::AllowInvalidRoutingUrlOrSpecifyValidUrl,
                )
                &&& outcome_of(step, response) == ConfirmationOutcome::HardFailed
                &&& result_of(step, response) == Err::<(), RoverErrorView>(error)
                &&& step_output(step) == Seq::<char>::empty()
                &&& step_rest(step, input) == input
            }
        }),
{
    let step = step_for(url, classification_of(parsed), is_atty);
    let reason = unparsable_reason(url);
    let needle = "not a valid routing URL"@;
    lemma_unparsable_reason_says_so(url);
    if is_atty {
        lemma_contains_within(
            unreachable_question(reason),
            Seq::empty(),
            reason,
            " Continuing the publish will make this subgraph unreachable by your supergraph. Would you still like to publish?"@,
            needle,
        );
        lemma_output_shows_message(step, needle);
    }
}

/// A URL whose scheme is neither `http` nor `https` is asked about with a
/// terminal and refused without one. The question and the failure both name
/// the scheme and say that only `http` and `https` are supported.
pub proof fn law_unsupported_scheme_is_named(
    url: Seq<char>,
    parts: UrlParts,
    is_atty: bool,
    input: Seq<u8>,
)
    requires
        !is_supported_scheme(parts.scheme),
    ensures
        ({
            let step = step_for(url, classification_of(Some(parts)), is_atty);
            let response = step_response(step, input);
            &&& contains(step_message(step), "not a valid routing URL"@)
            &&& contains(
                step_message(step),
                "The `"@ + parts.scheme + "` protocol is not supported"@,
            )
            &&& contains(step_message(step), "Valid protocols are `http` and `https`."@)
            &&& is_atty ==> {
                &&& step is Prompt
                &&& contains(
                    step_output(step),
                    "The `"@ + parts.scheme + "` protocol is not supported"@,
                )
                &&& contains(step_output(step), "Valid protocols are `http` and `https`."@)
            }
            &&& !is_atty ==> {
                &&& step matches StepView::Fail(error)
                &&& error.kind == ErrorKind::UnsupportedScheme
                &&& error.suggestion == Some(
                    RoverErrorSuggestion::AllowInvalidRoutingUrlOrSpecifyValidUrl,
                )
                &&& outcome_of(step, response) == ConfirmationOutcome::HardFailed
                &&& result_of(step, response) == Err::<(), RoverErrorView>(error)
                &&& step_output(step) == Seq::<char>::empty()
                &&& step_rest(step, input) == input
            }
        }),
{
    let step = step_for(url, classification_of(Some(parts)), is_atty);
    let scheme = parts.scheme;
    let reason = unsupported_scheme_reason(url, scheme);
    let invalid = "not a valid routing URL"@;
    let named = "The `"@ + scheme + "` protocol is not supported"@;
    let accepted = "Valid protocols are `http` and `https`."@;
    let question_tail =
        " Continuing the publish will make this subgraph unreachable by your supergraph. Would you still like to publish?"@;
    lemma_unparsable_reason_says_so(url);
    lemma_scheme_notice_names_schemes(scheme);
    lemma_contains_within(
        reason,
        Seq::empty(),
        unparsable_reason(url),
        " "@ + scheme_notice(scheme),
        invalid,
    );
    lemma_contains_within(
        reason,
        unparsable_reason(url) + " "@,
        scheme_notice(scheme),
        Seq::empty(),
        named,
    );
    lemma_contains_within(
        reason,
        unparsable_reason(url) + " "@,
        scheme_notice(scheme),
        Seq::empty(),
        accepted,
    );
    if is_atty {
        let question = unreachable_question(reason);
        lemma_contains_within(question, Seq::empty(), reason, question_tail, invalid);
        lemma_contains_within(question, Seq::empty(), reason, question_tail, named);
        lemma_contains_within(question, Seq::empty(), reason, question_tail, accepted);
        lemma_output_shows_message(step, named);
        lemma_output_shows_message(step, accepted);
    }
}

/// A URL with a supported scheme and a local host never fails by itself.
/// With a terminal the user is asked, in a question that names the host.
/// Without one a warning that names the host is written, nothing is read,
/// and the publish goes ahead.
pub proof fn law_local_host_is_asked_or_warned(
    url: Seq<char>,
    parts: UrlParts,
    host: Seq<char>,
    is_atty: bool,
    input: Seq<u8>,
)
    requires
        is_supported_scheme(parts.scheme),
        parts.host == Some(host),
        is_local_host(host),
    ensures
        ({
            let step = step_for(url, classification_of(Some(parts)), is_atty);
            let response = step_response(step, input);
            &&& !(step is Fail)
            &&& outcome_of(step, response) != ConfirmationOutcome::HardFailed
            &&& contains(step_message(step), "The host `"@ + host + "` is not routable"@)
            &&& contains(step_output(step), "The host `"@ + host + "` is not routable"@)
            &&& is_atty ==> step is Prompt
            &&& !is_atty ==> {
                &&& step is Warn
                &&& outcome_of(step, response) == ConfirmationOutcome::ProceedWithWarning
                &&& result_of(step, response) is Ok
                &&& step_rest(step, input) == input
            }
        }),
{
    let step = step_for(url, classification_of(Some(parts)), is_atty);
    let reason = local_host_reason(host);
    reveal_strlit(
        "` is not routable via the public internet. Continuing the publish will make this subgraph reachable in local environments only.",
    );
    reveal_strlit("` is not routable");
    reveal_strlit(
        " via the public internet. Continuing the publish will make this subgraph reachable in local environments only.",
    );
    let head = "` is not routable"@;
    let rest =
        " via the public internet. Continuing the publish will make this subgraph reachable in local environments only."@;
    let named = "The host `"@ + host + head;
    assert(
        "` is not routable via the public internet. Continuing the publish will make this subgraph reachable in local environments only."@
            =~= head + rest);
    lemma_contains_self(named);
    lemma_contains_within(reason, Seq::empty(), named, rest, named);
    if is_atty {
        lemma_contains_within(
            local_question(reason),
            Seq::empty(),
            reason,
            " Would you still like to publish?"@,
            named,
        );
    }
    lemma_output_shows_message(step, named);
}

/// A URL with a supported scheme and a host that is not local goes through
/// in silence, with or without a terminal: nothing is written, nothing is
/// read, and the publish goes ahead.
pub proof fn law_public_url_proceeds_silently(
    url: Seq<char>,
    parts: UrlParts,
    is_atty: bool,
    input: Seq<u8>,
)
    requires
        is_supported_scheme(parts.scheme),
        parts.host matches Some(host) ==> !is_local_host(host),
    ensures
        ({
            let step = step_for(url, classification_of(Some(parts)), is_atty);
            let response = step_response(step, input);
            &&& step == StepView::Proceed
            &&& step_output(step) == Seq::<char>::empty()
            &&& step_rest(step, input) == input
            &&& outcome_of(step, response) == ConfirmationOutcome::Proceed
            &&& result_of(step, response) is Ok
        }),
{
}

/// The answer to a question decides, whatever the question: `y` or `Y`
/// confirms and the publish goes ahead; any other byte, and the end of the
/// input, declines, and the validation fails as cancelled.
pub proof fn law_answer_decides(question: Seq<char>, response: Option<u8>)
    ensures
        confirms(response) <==> response == Some(LOWER_Y) || response == Some(UPPER_Y),
        confirms(response) ==> {
            &&& outcome_of(StepView::Prompt(question), response)
                == ConfirmationOutcome::UserConfirmed
            &&& result_of(StepView::Prompt(question), response) is Ok
        },
        !confirms(response) ==> {
            &&& outcome_of(StepView::Prompt(question), response)
                == ConfirmationOutcome::UserDeclined
            &&& result_of(StepView::Prompt(question), response) == Err::<(), RoverErrorView>(
                cancelled_error(),
            )
        },
{
}

/// A prompt takes exactly one byte where there is one, and no other step
/// takes any.
pub proof fn law_one_read_per_prompt(step: StepView, input: Seq<u8>)
    ensures
        step is Prompt && input.len() > 0 ==> step_response(step, input) == Some(input[0])
            && step_rest(step, input) == input.subrange(1, input.len() as int),
        step is Prompt && input.len() == 0 ==> step_response(step, input) is None && step_rest(
            step,
            input,
        ) == input,
        !(step is Prompt) ==> step_response(step, input) is None && step_rest(step, input)
            == input,
        step_rest(step, input).len() + 1 >= input.len(),
{
}

/// The result handed to the caller is success exactly after the outcomes
/// that let the publish go ahead.
pub proof fn law_result_follows_outcome(step: StepView, response: Option<u8>)
    ensures
        result_of(step, response) is Ok <==> outcome_of(step, response).permits_publish(),
{
}

} // verus!
