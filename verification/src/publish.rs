//! The publish command's settings and the validation of its routing URL on
//! streams held in memory.

use vstd::prelude::*;
use vstd::utf8::encode_utf8;
use crate::classify::{classify, Classification};
use crate::error::{
    cancelled_error, hard_error, verdict_of, ErrorKind, RoverError, RoverErrorView, RoverResult,
};
use crate::message::{
    announcement, make_announcement, make_local_host_reason, make_local_question,
    make_prompt_line, make_unparsable_reason, make_unreachable_question,
    make_unsupported_scheme_reason, make_warning_line, prompt_line, warning_line,
};
use crate::protocol::{
    confirms, is_confirmed, make_hard_error, outcome_of, plan, result_of, run_step,
    step_of_candidate, step_output, step_response, step_rest, ConfirmationOutcome, Step, StepView,
};
use crate::stream::{first_of, lemma_empty_text_adds_nothing, read_byte, rest_of, write_text};

verus! {

/// The settings of one publish of a subgraph schema.
#[derive(Clone, Debug, PartialEq, Eq)]
pub struct Publish {
    /// The graph and variant to publish to.
    pub graph_ref: String,
    /// The subgraph whose schema is published.
    pub subgraph_name: String,
    /// The profile whose credentials are used.
    pub profile_name: String,
    /// Where the schema is read from.
    pub schema: String,
    /// Whether a graph that is not federated is turned into a subgraph.
    pub convert: bool,
    /// The URL by which a router reaches the running subgraph. May be empty
    /// or a placeholder; absent, the URL on record is looked up.
    pub routing_url: Option<String>,
    /// Skip the validation of the routing URL, warnings and prompt included.
    pub allow_invalid_routing_url: bool,
}

impl Publish {
    /// Whether the routing URL has to be looked up before the publish: it
    /// has to where none was given.
    pub fn needs_routing_url(&self) -> (needed: bool)
        ensures
            needed == (self.routing_url is None),
    {
        self.routing_url.is_none()
    }

    /// The line that says what is about to be published, where, and as whom.
    pub fn announcement(&self) -> (text: String)
        ensures
            text@ == announcement(self.graph_ref@, self.subgraph_name@, self.profile_name@),
    {
        make_announcement(
            self.graph_ref.as_str(),
            self.subgraph_name.as_str(),
            self.profile_name.as_str(),
        )
    }

    /// The step that these settings lead to. Where they say to skip the
    /// validation, the URL is not even classified, and where no URL was given
    /// there is none to classify: both go ahead in silence. Otherwise the
    /// URL decides.
    pub open spec fn validation_step(&self, is_atty: bool) -> StepView {
        if self.allow_invalid_routing_url {
            StepView::Proceed
        } else {
            match self.routing_url {
                None => StepView::Proceed,
                Some(url) => step_of_candidate(url@, is_atty),
            }
        }
    }

    /// Decides the step that validates the routing URL of these settings.
    pub fn plan_validation(&self, is_atty: bool) -> (step: Step)
        ensures
            step@ == self.validation_step(is_atty),
    {
        if self.allow_invalid_routing_url {
            return Step::Proceed;
        }
        match &self.routing_url {
            None => Step::Proceed,
            Some(url) => plan(url.as_str(), is_atty),
        }
    }

    /// Validates the routing URL of these settings on streams held in
    /// memory, and names the outcome. Skipping the validation, and having no
    /// URL to look at, both end in `Proceed` with the streams untouched.
    pub fn validate(&self, writer: &mut Vec<u8>, reader: &mut &[u8], is_atty: bool) -> (result:
        RoverResult<ConfirmationOutcome>)
        ensures
            self.allow_invalid_routing_url || self.routing_url is None ==> {
                &&& result matches Ok(end)
                &&& end == ConfirmationOutcome::Proceed
                &&& final(writer)@ == old(writer)@
                &&& final(reader)@ == old(reader)@
            },
            ({
                let step = self.validation_step(is_atty);
                let response = step_response(step, old(reader)@);
                &&& final(writer)@ == old(writer)@ + encode_utf8(step_output(step))
                &&& final(reader)@ == step_rest(step, old(reader)@)
                &&& match result {
                    Ok(end) => end == outcome_of(step, response) && end.permits_publish(),
                    Err(error) => !outcome_of(step, response).permits_publish() && result_of(
                        step,
                        response,
                    ) == Err::<(), RoverErrorView>(error@),
                }
            }),
    {
        proof {
            lemma_empty_text_adds_nothing(writer@);
        }
        run_step(self.plan_validation(is_atty), writer, reader)
    }

    /// Validates a routing URL and carries out whatever the validation asks
    /// for. Without a URL there is nothing to do. With one, the URL is
    /// classified, the step it leads to writes its text to `writer`, a prompt
    /// takes one byte from `reader`, and the result is success or the failure
    /// that stops the publish.
    pub fn handle_maybe_invalid_routing_url(
        maybe_invalid_routing_url: &Option<String>,
        writer: &mut Vec<u8>,
        reader: &mut &[u8],
        is_atty: bool,
    ) -> (result: RoverResult<()>)
        ensures
            maybe_invalid_routing_url is None ==> {
                &&& result is Ok
                &&& final(writer)@ == old(writer)@
                &&& final(reader)@ == old(reader)@
            },
            maybe_invalid_routing_url matches Some(url) ==> {
                let step = step_of_candidate(url@, is_atty);
                &&& final(writer)@ == old(writer)@ + encode_utf8(step_output(step))
                &&& final(reader)@ == step_rest(step, old(reader)@)
                &&& verdict_of(result) == result_of(step, step_response(step, old(reader)@))
            },
    {
        let routing_url = match maybe_invalid_routing_url {
            None => {
                return Ok(());
            },
            Some(url) => url.as_str(),
        };
        match classify(routing_url) {
            Classification::Unparsable => {
                let reason = make_unparsable_reason(routing_url);
                if is_atty {
                    let question = make_unreachable_question(reason.as_str());
                    Self::ask(question.as_str(), reader, writer)
                } else {
                    proof {
                        lemma_empty_text_adds_nothing(writer@);
                    }
                    Self::non_tty_hard_error(ErrorKind::UnparsableUrl, reason.as_str())
                }
            },
            Classification::UnsupportedScheme(scheme) => {
                let reason = make_unsupported_scheme_reason(routing_url, scheme.as_str());
                if is_atty {
                    let question = make_unreachable_question(reason.as_str());
                    Self::ask(question.as_str(), reader, writer)
                } else {
                    proof {
                        lemma_empty_text_adds_nothing(writer@);
                    }
                    Self::non_tty_hard_error(ErrorKind::UnsupportedScheme, reason.as_str())
                }
            },
            Classification::LocalHost(host) => {
                let reason = make_local_host_reason(host.as_str());
                if is_atty {
                    let question = make_local_question(reason.as_str());
                    Self::ask(question.as_str(), reader, writer)
                } else {
                    Self::non_tty_warn_about_local_url(reason.as_str(), writer)
                }
            },
            Classification::ValidPublic => {
                proof {
                    lemma_empty_text_adds_nothing(writer@);
                }
                Ok(())
            },
        }
    }

    /// Asks and keeps only whether the answer lets the publish go ahead.
    fn ask(question: &str, reader: &mut &[u8], writer: &mut Vec<u8>) -> (result: RoverResult<()>)
        ensures
            final(writer)@ == old(writer)@ + encode_utf8(prompt_line(question@)),
            final(reader)@ == rest_of(old(reader)@),
            verdict_of(result) == result_of(StepView::Prompt(question@), first_of(old(reader)@)),
    {
        match Self::prompt_for_publish(question, reader, writer) {
            Ok(_) => Ok(()),
            Err(error) => Err(error),
        }
    }

    /// Puts `message` to the user, followed by the choice of answers, and
    /// reads one byte in answer. Only `y` or `Y` confirms. Any other byte
    /// declines, and so does the end of the input; there is no second try.
    pub fn prompt_for_publish(message: &str, reader: &mut &[u8], writer: &mut Vec<u8>) -> (result:
        RoverResult<Option<bool>>)
        ensures
            final(writer)@ == old(writer)@ + encode_utf8(prompt_line(message@)),
            final(reader)@ == rest_of(old(reader)@),
            confirms(first_of(old(reader)@)) ==> (result matches Ok(answer) && answer == Some(
                true,
            )),
            !confirms(first_of(old(reader)@)) ==> (result matches Err(error) && error@
                == cancelled_error()),
    {
        let line = make_prompt_line(message);
        write_text(writer, line.as_str());
        let response = read_byte(reader);
        if is_confirmed(response) {
            Ok(Some(true))
        } else {
            Err(RoverError::cancelled())
        }
    }

    /// The failure of a URL that is rejected where nobody can be asked: it
    /// carries the reason and suggests the way out.
    pub fn non_tty_hard_error(kind: ErrorKind, reason: &str) -> (result: RoverResult<()>)
        ensures
            result matches Err(error) && error@ == hard_error(kind, reason@),
    {
        Err(make_hard_error(kind, reason))
    }

    /// Writes a warning that gives `reason`. A warning stops nothing.
    pub fn non_tty_warn_about_local_url(reason: &str, writer: &mut Vec<u8>) -> (result:
        RoverResult<()>)
        ensures
            result is Ok,
            final(writer)@ == old(writer)@ + encode_utf8(warning_line(reason@)),
    {
        let line = make_warning_line(reason);
        write_text(writer, line.as_str());
        Ok(())
    }
}

} // verus!
