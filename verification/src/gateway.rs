//! The six gateway operations' decision logic.
//!
//! The caller performs the HTTP round trip itself and hands the raw
//! outcome here; these functions turn it into the operation's typed
//! result or its error text, exactly as the specification functions
//! below define. The two local operations need no network at all.

use vstd::prelude::*;
use vstd::string::StringExecFns;
use crate::decode::parse_creator;
use crate::decode::parse_projects;
use crate::decode::spec_parse_creator;
use crate::decode::spec_parse_projects;
use crate::model::Creator;
use crate::model::CreatorV;
use crate::model::HttpOutcome;
use crate::model::HttpOutcomeV;
use crate::model::ProjectsResponse;
use crate::model::ProjectsResponseV;
use crate::model::is_success_status;
use crate::text::spec_decimal;
use crate::text::u64_to_decimal;

verus! {

/// How an executable result stands for a specification result: same
/// branch, same value through the view, same error text.
pub open spec fn res_rel<T: View>(r: Result<T, String>, sp: Result<T::V, Seq<char>>) -> bool {
    match sp {
        Ok(v) => r matches Ok(x) && x@ == v,
        Err(m) => r matches Err(e) && e@ == m,
    }
}

/// The error text of a request that never got a response.
pub open spec fn spec_transport_error(detail: Seq<char>) -> Seq<char> {
    "Request failed: "@ + detail
}

/// The error text of a response outside the 2xx range, for the two read
/// operations.
pub open spec fn spec_http_error(status: u16) -> Seq<char> {
    "HTTP error: "@ + spec_decimal(status as nat)
}

/// The error text of a failed registration.
pub open spec fn spec_register_error(status: u16) -> Seq<char> {
    "Registration failed: "@ + spec_decimal(status as nat)
}

/// The error text of a failed tip.
pub open spec fn spec_tip_error(status: u16) -> Seq<char> {
    "Tip failed: "@ + spec_decimal(status as nat)
}

/// The error text of a success whose body could not be decoded.
pub open spec fn spec_decode_error() -> Seq<char> {
    "Failed to parse response: invalid response body"@
}

/// The confirmation a successful tip answers with.
pub open spec fn spec_tip_confirmation() -> Seq<char> {
    "Tip sent successfully!"@
}

fn transport_error(detail: &String) -> (r: String)
    ensures
        r@ == spec_transport_error(detail@),
{
    let mut m = String::from_str("Request failed: ");
    m.append(detail.as_str());
    m
}

fn status_error(prefix: &str, status: u16) -> (r: String)
    ensures
        r@ == prefix@ + spec_decimal(status as nat),
{
    let mut m = String::from_str(prefix);
    let d = u64_to_decimal(status as u64);
    m.append(d.as_str());
    m
}

/// What listing projects comes to for each outcome of its round trip.
pub open spec fn spec_projects_response(o: HttpOutcomeV) -> Result<ProjectsResponseV, Seq<char>> {
    match o {
        HttpOutcomeV::TransportFailure { detail } => Err(spec_transport_error(detail)),
        HttpOutcomeV::Response { status, body } => if is_success_status(status) {
            match spec_parse_projects(body) {
                Some(p) => Ok(p),
                None => Err(spec_decode_error()),
            }
        } else {
            Err(spec_http_error(status))
        },
    }
}

/// Interprets the outcome of a project-listing request.
pub fn projects_response(outcome: &HttpOutcome) -> (r: Result<ProjectsResponse, String>)
    ensures
        res_rel(r, spec_projects_response(outcome@)),
{
    match outcome {
        HttpOutcome::TransportFailure { detail } => Err(transport_error(detail)),
        HttpOutcome::Response { status, body } => {
            if 200 <= *status && *status < 300 {
                match parse_projects(body.as_str()) {
                    Some(p) => Ok(p),
                    None => Err(String::from_str("Failed to parse response: invalid response body")),
                }
            } else {
                Err(status_error("HTTP error: ", *status))
            }
        },
    }
}

/// What fetching a creator profile comes to for each outcome of its
/// round trip.
pub open spec fn spec_creator_response(o: HttpOutcomeV) -> Result<CreatorV, Seq<char>> {
    match o {
        HttpOutcomeV::TransportFailure { detail } => Err(spec_transport_error(detail)),
        HttpOutcomeV::Response { status, body } => if is_success_status(status) {
            match spec_parse_creator(body) {
                Some(c) => Ok(c),
                None => Err(spec_decode_error()),
            }
        } else {
            Err(spec_http_error(status))
        },
    }
}

/// Interprets the outcome of a creator-profile request.
pub fn creator_response(outcome: &HttpOutcome) -> (r: Result<Creator, String>)
    ensures
        res_rel(r, spec_creator_response(outcome@)),
{
    match outcome {
        HttpOutcome::TransportFailure { detail } => Err(transport_error(detail)),
        HttpOutcome::Response { status, body } => {
            if 200 <= *status && *status < 300 {
                match parse_creator(body.as_str()) {
                    Some(c) => Ok(c),
                    None => Err(String::from_str("Failed to parse response: invalid response body")),
                }
            } else {
                Err(status_error("HTTP error: ", *status))
            }
        },
    }
}

/// What registering comes to for each outcome of its round trip: any
/// success is enough, the body is not read.
pub open spec fn spec_register_response(o: HttpOutcomeV) -> Result<(), Seq<char>> {
    match o {
        HttpOutcomeV::TransportFailure { detail } => Err(spec_transport_error(detail)),
        HttpOutcomeV::Response { status, body } => if is_success_status(status) {
            Ok(())
        } else {
            Err(spec_register_error(status))
        },
    }
}

/// Interprets the outcome of a registration request.
pub fn register_response(outcome: &HttpOutcome) -> (r: Result<(), String>)
    ensures
        res_rel(r, spec_register_response(outcome@)),
{
    match outcome {
        HttpOutcome::TransportFailure { detail } => Err(transport_error(detail)),
        HttpOutcome::Response { status, body } => {
            if 200 <= *status && *status < 300 {
                Ok(())
            } else {
                Err(status_error("Registration failed: ", *status))
            }
        },
    }
}

/// What sending a tip comes to for each outcome of its round trip: any
/// success answers with the fixed confirmation text, whatever the body
/// held.
pub open spec fn spec_tip_response(o: HttpOutcomeV) -> Result<Seq<char>, Seq<char>> {
    match o {
        HttpOutcomeV::TransportFailure { detail } => Err(spec_transport_error(detail)),
        HttpOutcomeV::Response { status, body } => if is_success_status(status) {
            Ok(spec_tip_confirmation())
        } else {
            Err(spec_tip_error(status))
        },
    }
}

/// Interprets the outcome of a send-tip request.
pub fn tip_response(outcome: &HttpOutcome) -> (r: Result<String, String>)
    ensures
        res_rel(r, spec_tip_response(outcome@)),
{
    match outcome {
        HttpOutcome::TransportFailure { detail } => Err(transport_error(detail)),
        HttpOutcome::Response { status, body } => {
            if 200 <= *status && *status < 300 {
                Ok(String::from_str("Tip sent successfully!"))
            } else {
                Err(status_error("Tip failed: ", *status))
            }
        },
    }
}

/// The greeting text for `name`.
pub open spec fn spec_greeting(name: Seq<char>) -> Seq<char> {
    "Hello, "@ + name + "! Welcome to Angel Requests!"@
}

/// Builds the greeting for `name`; purely local, no network involved.
pub fn greet(name: &str) -> (r: String)
    ensures
        r@ == spec_greeting(name@),
{
    let mut m = String::from_str("Hello, ");
    m.append(name);
    m.append("! Welcome to Angel Requests!");
    m
}

/// The version identifier recorded at build time; kept in step with the
/// package manifest.
pub open spec fn spec_app_version() -> Seq<char> {
    "0.1.0"@
}

/// Returns the build's declared version; purely local, never empty.
pub fn get_app_version() -> (r: String)
    ensures
        r@ == spec_app_version(),
        r@.len() > 0,
{
    proof {
        reveal_strlit("0.1.0");
    }
    String::from_str("0.1.0")
}

/// A successful send always answers with the fixed confirmation text,
/// whatever the response body held.
pub proof fn lemma_tip_confirmation(status: u16, body: Seq<char>)
    requires
        is_success_status(status),
    ensures
        spec_tip_response(HttpOutcomeV::Response { status, body }) == Ok::<Seq<char>, Seq<char>>(
            spec_tip_confirmation(),
        ),
{
}

/// A creator profile round-trips: whenever a success body decodes to a
/// profile, fetching answers with exactly that profile.
pub proof fn lemma_creator_round_trip(status: u16, body: Seq<char>, c: CreatorV)
    requires
        is_success_status(status),
        spec_parse_creator(body) == Some(c),
    ensures
        spec_creator_response(HttpOutcomeV::Response { status, body }) == Ok::<CreatorV, Seq<char>>(
            c,
        ),
{
}

/// A response outside the 2xx range makes every operation fail, and each
/// error text ends in the decimal rendering of the status code.
pub proof fn lemma_non_success_is_error(status: u16, body: Seq<char>)
    requires
        !is_success_status(status),
    ensures
        spec_projects_response(HttpOutcomeV::Response { status, body }) == Err::<
            ProjectsResponseV,
            Seq<char>,
        >("HTTP error: "@ + spec_decimal(status as nat)),
        spec_creator_response(HttpOutcomeV::Response { status, body }) == Err::<CreatorV, Seq<char>>(
            "HTTP error: "@ + spec_decimal(status as nat),
        ),
        spec_register_response(HttpOutcomeV::Response { status, body }) == Err::<(), Seq<char>>(
            "Registration failed: "@ + spec_decimal(status as nat),
        ),
        spec_tip_response(HttpOutcomeV::Response { status, body }) == Err::<Seq<char>, Seq<char>>(
            "Tip failed: "@ + spec_decimal(status as nat),
        ),
{
}

/// A transport failure makes every operation fail, with the transport
/// diagnostic carried in the error text; no failure escapes as a panic.
pub proof fn lemma_transport_failure_is_error(detail: Seq<char>)
    ensures
        spec_projects_response(HttpOutcomeV::TransportFailure { detail }) == Err::<
            ProjectsResponseV,
            Seq<char>,
        >(spec_transport_error(detail)),
        spec_creator_response(HttpOutcomeV::TransportFailure { detail }) == Err::<
            CreatorV,
            Seq<char>,
        >(spec_transport_error(detail)),
        spec_register_response(HttpOutcomeV::TransportFailure { detail }) == Err::<(), Seq<char>>(
            spec_transport_error(detail),
        ),
        spec_tip_response(HttpOutcomeV::TransportFailure { detail }) == Err::<Seq<char>, Seq<char>>(
            spec_transport_error(detail),
        ),
{
}

/// A tip without a token symbol is sent exactly as one whose symbol is
/// `ETH`.
pub proof fn lemma_tip_token_default(to: Seq<char>, amount: Seq<char>, message: Seq<char>)
    ensures
        crate::json::spec_tip_payload(
            crate::model::TipRequestV { to, amount, message, token: None },
        ) == crate::json::spec_tip_payload(
            crate::model::TipRequestV { to, amount, message, token: Some("ETH"@) },
        ),
{
}

/// Omitted listing arguments stand for the first page of twenty items.
pub proof fn lemma_projects_url_defaults()
    ensures
        crate::url::spec_projects_url(None, None) == crate::url::spec_projects_url(
            Some(1u32),
            Some(20u32),
        ),
{
}

} // verus!
