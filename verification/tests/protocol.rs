use subgraph_publish::protocol::{
    affirmative, conclude, is_confirmed, make_hard_error, next_step, outcome, plan, run_step,
    LOWER_Y, UPPER_Y,
};
use subgraph_publish::{
    Classification, ConfirmationOutcome, ErrorKind, RoverError, RoverErrorSuggestion, Step,
};

const UNREACHABLE: &str = " Continuing the publish will make this subgraph unreachable by your supergraph. Would you still like to publish?";

fn hard(kind: ErrorKind, message: &str) -> RoverError {
    RoverError {
        kind,
        message: message.to_string(),
        suggestion: Some(RoverErrorSuggestion::AllowInvalidRoutingUrlOrSpecifyValidUrl),
    }
}

fn cancelled() -> RoverError {
    RoverError {
        kind: ErrorKind::UserCancelled,
        message: "You cancelled a subgraph publish due to an invalid routing url.".to_string(),
        suggestion: None,
    }
}

#[test]
fn unparsable_with_terminal_is_a_question() {
    let step = next_step("invalid-url", &Classification::Unparsable, true);
    assert_eq!(
        step,
        Step::Prompt(format!("`invalid-url` is not a valid routing URL.{UNREACHABLE}"))
    );
}

#[test]
fn unparsable_without_terminal_is_a_failure() {
    let step = next_step("invalid-url", &Classification::Unparsable, false);
    assert_eq!(
        step,
        Step::Fail(hard(ErrorKind::UnparsableUrl, "`invalid-url` is not a valid routing URL."))
    );
}

#[test]
fn unsupported_scheme_with_terminal_is_a_question() {
    let class = Classification::UnsupportedScheme("ftp".to_string());
    let step = next_step("ftp://invalid-scheme", &class, true);
    assert_eq!(
        step,
        Step::Prompt(format!(
            "`ftp://invalid-scheme` is not a valid routing URL. The `ftp` protocol is not supported by the router. Valid protocols are `http` and `https`.{UNREACHABLE}"
        ))
    );
}

#[test]
fn unsupported_scheme_without_terminal_is_a_failure() {
    let class = Classification::UnsupportedScheme("ftp".to_string());
    let step = next_step("ftp://invalid-scheme", &class, false);
    assert_eq!(
        step,
        Step::Fail(hard(
            ErrorKind::UnsupportedScheme,
            "`ftp://invalid-scheme` is not a valid routing URL. The `ftp` protocol is not supported by the router. Valid protocols are `http` and `https`."
        ))
    );
}

#[test]
fn local_host_with_terminal_is_a_question() {
    let class = Classification::LocalHost("127.0.0.1".to_string());
    let step = next_step("http://127.0.0.1:4000", &class, true);
    assert_eq!(
        step,
        Step::Prompt(
            "The host `127.0.0.1` is not routable via the public internet. Continuing the publish will make this subgraph reachable in local environments only. Would you still like to publish?"
                .to_string()
        )
    );
}

#[test]
fn local_host_without_terminal_is_a_warning() {
    let class = Classification::LocalHost("localhost".to_string());
    let step = next_step("http://localhost:4000", &class, false);
    assert_eq!(
        step,
        Step::Warn(
            "The host `localhost` is not routable via the public internet. Continuing the publish will make this subgraph reachable in local environments only."
                .to_string()
        )
    );
}

#[test]
fn valid_public_proceeds_either_way() {
    assert_eq!(next_step("https://example.com", &Classification::ValidPublic, true), Step::Proceed);
    assert_eq!(next_step("https://example.com", &Classification::ValidPublic, false), Step::Proceed);
}

#[test]
fn plan_classifies_then_decides() {
    assert_eq!(plan("https://example.com/graphql", true), Step::Proceed);
    assert_eq!(plan("https://example.com/graphql", false), Step::Proceed);
    assert_eq!(
        plan("gopher://example.com", false),
        Step::Fail(hard(
            ErrorKind::UnsupportedScheme,
            "`gopher://example.com` is not a valid routing URL. The `gopher` protocol is not supported by the router. Valid protocols are `http` and `https`."
        ))
    );
    assert_eq!(
        plan("", false),
        Step::Fail(hard(ErrorKind::UnparsableUrl, "`` is not a valid routing URL."))
    );
    assert_eq!(
        plan("HTTPS://LOCALHOST", false),
        Step::Warn(
            "The host `localhost` is not routable via the public internet. Continuing the publish will make this subgraph reachable in local environments only."
                .to_string()
        )
    );
}

#[test]
fn step_output_is_what_goes_to_the_stream() {
    assert_eq!(Step::Proceed.output(), "");
    assert_eq!(Step::Warn("careful".to_string()).output(), "WARN: careful\n");
    assert_eq!(Step::Prompt("Sure?".to_string()).output(), "Sure? [y/N] ");
    assert_eq!(Step::Fail(hard(ErrorKind::UnparsableUrl, "no")).output(), "");
}

#[test]
fn only_a_prompt_awaits_a_response() {
    assert!(Step::Prompt("Sure?".to_string()).awaits_response());
    assert!(!Step::Proceed.awaits_response());
    assert!(!Step::Warn("careful".to_string()).awaits_response());
    assert!(!Step::Fail(hard(ErrorKind::UnparsableUrl, "no")).awaits_response());
}

#[test]
fn only_y_in_either_case_is_affirmative() {
    assert_eq!(LOWER_Y, b'y');
    assert_eq!(UPPER_Y, b'Y');
    for byte in 0..=255u8 {
        assert_eq!(affirmative(byte), byte == b'y' || byte == b'Y', "byte {byte}");
        assert_eq!(is_confirmed(Some(byte)), byte == b'y' || byte == b'Y', "byte {byte}");
    }
    assert!(!is_confirmed(None));
}

#[test]
fn prompt_outcome_follows_the_answer() {
    let step = Step::Prompt("Sure?".to_string());
    assert_eq!(outcome(&step, Some(b'y')), ConfirmationOutcome::UserConfirmed);
    assert_eq!(outcome(&step, Some(b'Y')), ConfirmationOutcome::UserConfirmed);
    assert_eq!(outcome(&step, Some(b'n')), ConfirmationOutcome::UserDeclined);
    assert_eq!(outcome(&step, Some(b'\n')), ConfirmationOutcome::UserDeclined);
    assert_eq!(outcome(&step, Some(0xff)), ConfirmationOutcome::UserDeclined);
    assert_eq!(outcome(&step, None), ConfirmationOutcome::UserDeclined);
}

#[test]
fn other_outcomes_ignore_the_answer() {
    for response in [None, Some(b'y'), Some(b'n')] {
        assert_eq!(outcome(&Step::Proceed, response), ConfirmationOutcome::Proceed);
        assert_eq!(
            outcome(&Step::Warn("careful".to_string()), response),
            ConfirmationOutcome::ProceedWithWarning
        );
        assert_eq!(
            outcome(&Step::Fail(hard(ErrorKind::UnparsableUrl, "no")), response),
            ConfirmationOutcome::HardFailed
        );
    }
}

#[test]
fn three_outcomes_permit_the_publish() {
    assert!(ConfirmationOutcome::Proceed.may_publish());
    assert!(ConfirmationOutcome::ProceedWithWarning.may_publish());
    assert!(ConfirmationOutcome::UserConfirmed.may_publish());
    assert!(!ConfirmationOutcome::UserDeclined.may_publish());
    assert!(!ConfirmationOutcome::HardFailed.may_publish());
}

#[test]
fn conclude_gives_outcome_or_failure() {
    assert_eq!(conclude(Step::Proceed, None), Ok(ConfirmationOutcome::Proceed));
    assert_eq!(
        conclude(Step::Warn("careful".to_string()), None),
        Ok(ConfirmationOutcome::ProceedWithWarning)
    );
    assert_eq!(
        conclude(Step::Prompt("Sure?".to_string()), Some(b'Y')),
        Ok(ConfirmationOutcome::UserConfirmed)
    );
    assert_eq!(conclude(Step::Prompt("Sure?".to_string()), Some(b'N')), Err(cancelled()));
    assert_eq!(conclude(Step::Prompt("Sure?".to_string()), None), Err(cancelled()));
    let error = hard(ErrorKind::UnsupportedScheme, "no");
    assert_eq!(conclude(Step::Fail(error.clone()), Some(b'y')), Err(error));
}

#[test]
fn result_is_ok_exactly_when_outcome_permits() {
    let steps = [
        Step::Proceed,
        Step::Warn("careful".to_string()),
        Step::Prompt("Sure?".to_string()),
        Step::Fail(hard(ErrorKind::UnparsableUrl, "no")),
    ];
    for step in steps {
        for response in [None, Some(b'y'), Some(b'Y'), Some(b'x')] {
            let end = outcome(&step, response);
            let result = conclude(step.clone(), response);
            assert_eq!(result.is_ok(), end.may_publish());
            if let Ok(named) = result {
                assert_eq!(named, end);
            }
        }
    }
}

#[test]
fn hard_error_carries_reason_and_suggestion() {
    let error = make_hard_error(ErrorKind::UnparsableUrl, "`x` is not a valid routing URL.");
    assert_eq!(error.kind(), ErrorKind::UnparsableUrl);
    assert_eq!(error.message(), "`x` is not a valid routing URL.");
    assert_eq!(
        error.suggestion(),
        Some(RoverErrorSuggestion::AllowInvalidRoutingUrlOrSpecifyValidUrl)
    );
    assert_eq!(error.to_string(), "`x` is not a valid routing URL.");
}

#[test]
fn error_constructors() {
    let plain = RoverError::new(ErrorKind::UnsupportedScheme, "reason");
    assert_eq!(
        plain,
        RoverError {
            kind: ErrorKind::UnsupportedScheme,
            message: "reason".to_string(),
            suggestion: None
        }
    );
    let suggested =
        plain.with_suggestion(RoverErrorSuggestion::AllowInvalidRoutingUrlOrSpecifyValidUrl);
    assert_eq!(suggested, hard(ErrorKind::UnsupportedScheme, "reason"));
    assert_eq!(RoverError::cancelled(), cancelled());
    let io = RoverError::io_failure("broken pipe");
    assert_eq!(io.kind(), ErrorKind::IoFailure);
    assert_eq!(io.to_string(), "broken pipe");
    assert_eq!(io.suggestion(), None);
}

#[test]
fn run_step_prompt_takes_one_byte_only() {
    let mut input = "yes\n".as_bytes();
    let mut output: Vec<u8> = b"before".to_vec();
    let result = run_step(Step::Prompt("Sure?".to_string()), &mut output, &mut input);
    assert_eq!(result, Ok(ConfirmationOutcome::UserConfirmed));
    assert_eq!(input, b"es\n");
    assert_eq!(output, b"beforeSure? [y/N] ");
}

#[test]
fn run_step_prompt_at_end_of_input_declines() {
    let mut input: &[u8] = &[];
    let mut output: Vec<u8> = Vec::new();
    let result = run_step(Step::Prompt("Sure?".to_string()), &mut output, &mut input);
    assert_eq!(result, Err(cancelled()));
    assert!(input.is_empty());
    assert_eq!(output, b"Sure? [y/N] ");
}

#[test]
fn run_step_without_prompt_reads_nothing() {
    let mut input = "y".as_bytes();
    let mut output: Vec<u8> = Vec::new();
    assert_eq!(
        run_step(Step::Warn("careful".to_string()), &mut output, &mut input),
        Ok(ConfirmationOutcome::ProceedWithWarning)
    );
    assert_eq!(output, b"WARN: careful\n");
    assert_eq!(run_step(Step::Proceed, &mut output, &mut input), Ok(ConfirmationOutcome::Proceed));
    let error = hard(ErrorKind::UnparsableUrl, "no");
    assert_eq!(run_step(Step::Fail(error.clone()), &mut output, &mut input), Err(error));
    assert_eq!(output, b"WARN: careful\n");
    assert_eq!(input, b"y");
}
