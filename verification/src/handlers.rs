//! The handlers: what each route answers.

use crate::health::HealthState;
use crate::ingest::{drained, Ingest, IngestError, Phase};
use crate::page::{fields_view, page_text, render_page, Field, FieldView, RequestInfo, RequestView};
use crate::response::{bare, html, Response, ResponseView, Status};
use vstd::prelude::*;

verus! {

/// The version that the version route reports.
pub const DCR_VERSION: &'static str = "0.1";

/// The answer of the health route for a flag: 200 "OK" when healthy, 503
/// "KO" when not.
pub open spec fn health_reply(healthy: bool) -> ResponseView {
    if healthy {
        html(Status::Success, "OK"@)
    } else {
        html(Status::ServiceUnavailable, "KO"@)
    }
}

/// A flag as text.
pub open spec fn flag_text(flag: bool) -> Seq<char> {
    if flag {
        "true"@
    } else {
        "false"@
    }
}

/// The answer to a toggle that left the flag at `now`.
pub open spec fn toggle_reply(now: bool) -> ResponseView {
    html(Status::Success, "healthcheck toggled to "@ + flag_text(now) + " state"@)
}

/// The answer of the version route.
pub open spec fn version_reply() -> ResponseView {
    html(Status::Success, DCR_VERSION@)
}

/// The answer of the logger route to a body that was received whole.
pub open spec fn ingested_reply() -> ResponseView {
    html(Status::Success, "data ingested"@)
}

/// The answer of the debug route: the page for the request, without the
/// part that shows the environment.
pub open spec fn debug_reply(request: RequestView) -> ResponseView {
    html(Status::Success, page_text(request, None))
}

/// The answer of the base path: the page for the request, with the
/// environment as given.
pub open spec fn main_reply(request: RequestView, env: Seq<FieldView>) -> ResponseView {
    html(Status::Success, page_text(request, Some(env)))
}

/// The default answer to `GET`.
pub open spec fn not_found_reply() -> ResponseView {
    html(Status::NotFound, "NOT FOUND"@)
}

/// The answer to a method that the path does not accept.
pub open spec fn method_not_allowed_reply() -> ResponseView {
    bare(Status::MethodNotAllowed)
}

/// `reply` once the body has been received whole, the reason before that.
pub open spec fn after_body(phase: Phase, reply: ResponseView) -> Result<
    ResponseView,
    IngestError,
> {
    match drained(phase) {
        Ok(_) => Ok(reply),
        Err(error) => Err(error),
    }
}

/// A response or a failure as a plain value.
pub open spec fn outcome_view(outcome: Result<Response, IngestError>) -> Result<
    ResponseView,
    IngestError,
> {
    match outcome {
        Ok(response) => Ok(response@),
        Err(error) => Err(error),
    }
}

/// Echoes the request: its protocol, method and target, and its headers.
/// The body must have been drained first; it is not part of the answer.
pub fn debug_handler(request: &RequestInfo, body: &Ingest) -> (outcome: Result<
    Response,
    IngestError,
>)
    ensures
        outcome_view(outcome) == after_body(body.phase(), debug_reply(request@)),
{
    match body.check_drained() {
        Ok(_) => Ok(Response::html(Status::Success, render_page(request, None))),
        Err(error) => Err(error),
    }
}

/// Renders the diagnostic page: the request, its headers, and the
/// variables in `env`. Whatever is handed in as `env` is shown to the
/// client, so the caller decides what is disclosed.
pub fn main_handler(request: &RequestInfo, env: &Vec<Field>) -> (response: Response)
    ensures
        response@ == main_reply(request@, fields_view(env@)),
{
    Response::html(Status::Success, render_page(request, Some(env)))
}

/// Reports the health flag, which it does not change.
pub fn health_handler(health: &HealthState) -> (response: Response)
    ensures
        response@ == health_reply(health.is_healthy()),
{
    if health.read() {
        Response::html(Status::Success, "OK".to_owned())
    } else {
        Response::html(Status::ServiceUnavailable, "KO".to_owned())
    }
}

/// Flips the health flag and reports the state that it is in now.
pub fn health_toggle_handler(health: &mut HealthState) -> (response: Response)
    ensures
        final(health).is_healthy() == !old(health).is_healthy(),
        response@ == toggle_reply(final(health).is_healthy()),
{
    let now = health.toggle();
    let mut body = "healthcheck toggled to ".to_owned();
    body.append(if now { "true" } else { "false" });
    body.append(" state");
    Response::html(Status::Success, body)
}

/// Reports the version, the same text on every call.
pub fn version_handler() -> (response: Response)
    ensures
        response@ == version_reply(),
{
    Response::html(Status::Success, DCR_VERSION.to_owned())
}

/// Confirms a body that was received whole, whatever it holds. A body that
/// was not read to its end is not confirmed: the failure is handed back.
pub fn logger_handler(body: &Ingest) -> (outcome: Result<Response, IngestError>)
    ensures
        outcome_view(outcome) == after_body(body.phase(), ingested_reply()),
{
    match body.check_drained() {
        Ok(_) => Ok(Response::html(Status::Success, "data ingested".to_owned())),
        Err(error) => Err(error),
    }
}

/// The default answer to `GET`: 404 "NOT FOUND".
pub fn p404() -> (response: Response)
    ensures
        response@ == not_found_reply(),
{
    Response::html(Status::NotFound, "NOT FOUND".to_owned())
}

/// The answer to a method that the path does not accept: 405, no body.
pub fn method_not_allowed() -> (response: Response)
    ensures
        response@ == method_not_allowed_reply(),
{
    Response::bare(Status::MethodNotAllowed)
}

} // verus!
