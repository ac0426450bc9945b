//! The texts shown to the user, each as a mathematical definition and as the
//! function that builds it.

use vstd::prelude::*;
use vstd::string::StringExecFns;

verus! {

/// Why a text that is no URL is rejected.
pub open spec fn unparsable_reason(url: Seq<char>) -> Seq<char> {
    "`"@ + url + "` is not a valid routing URL."@
}

/// What is wrong with `scheme`, and which schemes are accepted.
pub open spec fn scheme_notice(scheme: Seq<char>) -> Seq<char> {
    "The `"@ + scheme
        + "` protocol is not supported by the router. Valid protocols are `http` and `https`."@
}

/// Why a URL with an unsupported scheme is rejected.
pub open spec fn unsupported_scheme_reason(url: Seq<char>, scheme: Seq<char>) -> Seq<char> {
    unparsable_reason(url) + " "@ + scheme_notice(scheme)
}

/// Why a local host deserves a second look.
pub open spec fn local_host_reason(host: Seq<char>) -> Seq<char> {
    "The host `"@ + host
        + "` is not routable via the public internet. Continuing the publish will make this subgraph reachable in local environments only."@
}

/// The question asked about a URL that a router cannot use.
pub open spec fn unreachable_question(reason: Seq<char>) -> Seq<char> {
    reason
        + " Continuing the publish will make this subgraph unreachable by your supergraph. Would you still like to publish?"@
}

/// The question asked about a local host.
pub open spec fn local_question(reason: Seq<char>) -> Seq<char> {
    reason + " Would you still like to publish?"@
}

/// A question as it is put on the output: followed by the choice of answers.
pub open spec fn prompt_line(message: Seq<char>) -> Seq<char> {
    message + " [y/N] "@
}

/// A warning as it is put on the output: marked as one, on a line of its own.
pub open spec fn warning_line(reason: Seq<char>) -> Seq<char> {
    "WARN: "@ + reason + "\n"@
}

/// What is announced before the schema is read and published.
pub open spec fn announcement(graph_ref: Seq<char>, subgraph: Seq<char>, profile: Seq<char>) -> Seq<
    char,
> {
    "Publishing SDL to "@ + graph_ref + " (subgraph: "@ + subgraph
        + ") using credentials from the "@ + profile + " profile."@
}

pub fn make_unparsable_reason(url: &str) -> (text: String)
    ensures
        text@ == unparsable_reason(url@),
{
    let mut text = String::from_str("`");
    text.append(url);
    text.append("` is not a valid routing URL.");
    text
}

pub fn make_scheme_notice(scheme: &str) -> (text: String)
    ensures
        text@ == scheme_notice(scheme@),
{
    let mut text = String::from_str("The `");
    text.append(scheme);
    text.append(
        "` protocol is not supported by the router. Valid protocols are `http` and `https`.",
    );
    text
}

pub fn make_unsupported_scheme_reason(url: &str, scheme: &str) -> (text: String)
    ensures
        text@ == unsupported_scheme_reason(url@, scheme@),
{
    let mut text = make_unparsable_reason(url);
    text.append(" ");
    let notice = make_scheme_notice(scheme);
    text.append(notice.as_str());
    text
}

pub fn make_local_host_reason(host: &str) -> (text: String)
    ensures
        text@ == local_host_reason(host@),
{
    let mut text = String::from_str("The host `");
    text.append(host);
    text.append(
        "` is not routable via the public internet. Continuing the publish will make this subgraph reachable in local environments only.",
    );
    text
}

pub fn make_unreachable_question(reason: &str) -> (text: String)
    ensures
        text@ == unreachable_question(reason@),
{
    let mut text = String::from_str(reason);
    text.append(
        " Continuing the publish will make this subgraph unreachable by your supergraph. Would you still like to publish?",
    );
    text
}

pub fn make_local_question(reason: &str) -> (text: String)
    ensures
        text@ == local_question(reason@),
{
    let mut text = String::from_str(reason);
    text.append(" Would you still like to publish?");
    text
}

pub fn make_prompt_line(message: &str) -> (text: String)
    ensures
        text@ == prompt_line(message@),
{
    let mut text = String::from_str(message);
    text.append(" [y/N] ");
    text
}

pub fn make_warning_line(reason: &str) -> (text: String)
    ensures
        text@ == warning_line(reason@),
{
    let mut text = String::from_str("WARN: ");
    text.append(reason);
    text.append("\n");
    text
}

pub fn make_announcement(graph_ref: &str, subgraph: &str, profile: &str) -> (text: String)
    ensures
        text@ == announcement(graph_ref@, subgraph@, profile@),
{
    let mut text = String::from_str("Publishing SDL to ");
    text.append(graph_ref);
    text.append(" (subgraph: ");
    text.append(subgraph);
    text.append(") using credentials from the ");
    text.append(profile);
    text.append(" profile.");
    text
}

} // verus!
