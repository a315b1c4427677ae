//! The dispatcher: one request in, one response out.
//!
//! A [`Service`] holds the route table and the health flag. For each request
//! it finds the handler and runs it, and no other. The only state that a
//! request can change is the health flag, and only a request that reaches the
//! toggle handler changes it.

use crate::config::{Config, ConfigError};
use crate::handlers::{
    after_body, debug_handler, debug_reply, health_handler, health_reply, health_toggle_handler,
    ingested_reply, logger_handler, main_handler, main_reply, method_not_allowed,
    method_not_allowed_reply, not_found_reply, outcome_view, p404, toggle_reply, version_handler,
    version_reply,
};
use crate::health::{after_toggles, lemma_toggle_parity, HealthState};
use crate::ingest::{Ingest, IngestError, Phase};
use crate::method::{method_of, Method};
use crate::page::{fields_view, Field, FieldView, RequestInfo, RequestView};
use crate::response::{Response, ResponseView};
use crate::route::{is_routed, route, Handler, RouteTable, DEBUG_PATH};
use vstd::prelude::*;

verus! {

/// The handler that a request reaches when the routes are nested under `base`.
pub open spec fn handler_for(base: Seq<char>, request: RequestView) -> Handler {
    route(base, method_of(request.method), request.path)
}

/// The health flag after a handler has run.
pub open spec fn health_after(handler: Handler, healthy: bool) -> bool {
    if handler == Handler::HealthToggle {
        !healthy
    } else {
        healthy
    }
}

/// The variables that the page may show: those given if the service
/// discloses them, none if it does not.
pub open spec fn disclosed(discloses_env: bool, env: Seq<FieldView>) -> Seq<FieldView> {
    if discloses_env {
        env
    } else {
        Seq::<FieldView>::empty()
    }
}

/// What a handler answers to a request, with the health flag at `healthy`
/// before it runs and the body in `phase`.
pub open spec fn reply(
    handler: Handler,
    healthy: bool,
    discloses_env: bool,
    request: RequestView,
    phase: Phase,
    env: Seq<FieldView>,
) -> Result<ResponseView, IngestError> {
    match handler {
        Handler::Main => Ok(main_reply(request, disclosed(discloses_env, env))),
        Handler::HealthQuery => Ok(health_reply(healthy)),
        Handler::HealthToggle => Ok(toggle_reply(!healthy)),
        Handler::Version => Ok(version_reply()),
        Handler::LoggerIngest => after_body(phase, ingested_reply()),
        Handler::DebugEcho => after_body(phase, debug_reply(request)),
        Handler::NotFound => Ok(not_found_reply()),
        Handler::MethodNotAllowed => Ok(method_not_allowed_reply()),
    }
}

/// Whether a handler answers only once the body has been drained.
pub open spec fn reads_body(handler: Handler) -> bool {
    handler == Handler::LoggerIngest || handler == Handler::DebugEcho
}

/// The health flag after the requests have been served one after the other.
pub open spec fn health_after_all(base: Seq<char>, healthy: bool, requests: Seq<RequestView>) -> bool
    decreases requests.len(),
{
    if requests.len() == 0 {
        healthy
    } else {
        health_after(
            handler_for(base, requests.last()),
            health_after_all(base, healthy, requests.drop_last()),
        )
    }
}

/// How many of the requests reach the toggle handler.
pub open spec fn toggles_among(base: Seq<char>, requests: Seq<RequestView>) -> nat
    decreases requests.len(),
{
    if requests.len() == 0 {
        0
    } else {
        toggles_among(base, requests.drop_last()) + (if handler_for(base, requests.last())
            == Handler::HealthToggle {
            1nat
        } else {
            0nat
        })
    }
}

/// Whatever requests are served and in whatever order, the health flag ends
/// where as many toggles as there are toggling requests among them leave it:
/// every toggle counts once, and no other request touches the flag.
pub proof fn lemma_only_toggles_count(base: Seq<char>, healthy: bool, requests: Seq<RequestView>)
    ensures
        health_after_all(base, healthy, requests) == after_toggles(
            healthy,
            toggles_among(base, requests),
        ),
    decreases requests.len(),
{
    if requests.len() > 0 {
        lemma_only_toggles_count(base, healthy, requests.drop_last());
    }
}

/// Starting healthy, the health route answers 200 "OK" after an even number
/// of toggles and 503 "KO" after an odd number.
pub proof fn lemma_health_reply_after_toggles(n: nat)
    ensures
        health_reply(after_toggles(true, n)) == (if n % 2 == 0 {
            health_reply(true)
        } else {
            health_reply(false)
        }),
{
    lemma_toggle_parity(true, n);
}

/// A request that does not reach the toggle handler leaves the health flag
/// as it is; in particular no `GET` changes it.
pub proof fn lemma_get_keeps_health(base: Seq<char>, healthy: bool, request: RequestView)
    requires
        method_of(request.method) == Method::Get,
    ensures
        handler_for(base, request) != Handler::HealthToggle,
        health_after(handler_for(base, request), healthy) == healthy,
{
}

/// Requests that are all `GET` leave the health flag where it was, however
/// many they are: the health route then answers each of them alike.
pub proof fn lemma_gets_keep_health(base: Seq<char>, healthy: bool, requests: Seq<RequestView>)
    requires
        forall|i: int| 0 <= i < requests.len() ==> method_of(#[trigger] requests[i].method)
            == Method::Get,
    ensures
        health_after_all(base, healthy, requests) == healthy,
    decreases requests.len(),
{
    if requests.len() > 0 {
        lemma_gets_keep_health(base, healthy, requests.drop_last());
        lemma_get_keeps_health(
            base,
            health_after_all(base, healthy, requests.drop_last()),
            requests.last(),
        );
    }
}

/// A path without a route gets the default answer, whatever the state of the
/// service: 404 "NOT FOUND" for `GET`, 405 for every other method.
pub proof fn lemma_unrouted_reply(
    base: Seq<char>,
    healthy: bool,
    discloses_env: bool,
    request: RequestView,
    phase: Phase,
    env: Seq<FieldView>,
)
    requires
        !is_routed(base, request.path),
    ensures
        reply(handler_for(base, request), healthy, discloses_env, request, phase, env) == (
        if method_of(request.method) == Method::Get {
            Ok::<ResponseView, IngestError>(not_found_reply())
        } else {
            Ok::<ResponseView, IngestError>(method_not_allowed_reply())
        }),
{
}

/// The logger route answers a body that was received whole with 200 "data
/// ingested": neither what the body holds nor anything else about the
/// request or the service changes the answer.
pub proof fn lemma_logger_reply_is_fixed(
    healthy: bool,
    discloses_env: bool,
    request: RequestView,
    env: Seq<FieldView>,
)
    ensures
        reply(Handler::LoggerIngest, healthy, discloses_env, request, Phase::Complete, env) == Ok::<
            ResponseView,
            IngestError,
        >(ingested_reply()),
{
}

/// The version route answers with the same text on every call: nothing
/// about the request or the service changes the answer.
pub proof fn lemma_version_reply_is_fixed(
    healthy: bool,
    discloses_env: bool,
    request: RequestView,
    phase: Phase,
    env: Seq<FieldView>,
)
    ensures
        reply(Handler::Version, healthy, discloses_env, request, phase, env) == Ok::<
            ResponseView,
            IngestError,
        >(version_reply()),
{
}

/// The routes and the health flag of one process.
pub struct Service {
    table: RouteTable,
    health: HealthState,
    discloses_env: bool,
}

impl Service {
    /// The base path under which the routes are nested.
    pub closed spec fn base(&self) -> Seq<char> {
        self.table.base()
    }

    /// What the health flag holds.
    pub closed spec fn healthy(&self) -> bool {
        self.health.is_healthy()
    }

    /// Whether the diagnostic page shows the environment that it is given.
    pub closed spec fn discloses_env(&self) -> bool {
        self.discloses_env
    }

    /// A service for the settings, healthy at first. The environment is shown
    /// on the diagnostic page only if `discloses_env` says so. A base path that
    /// is the debug path is refused.
    pub fn new(config: &Config, discloses_env: bool) -> (outcome: Result<Service, ConfigError>)
        ensures
            config.base_path@ == DEBUG_PATH@ <==> outcome is Err,
            outcome matches Err(error) ==> error == ConfigError::PathCollision,
            outcome matches Ok(service) ==> {
                &&& service.base() == config.base_path@
                &&& service.healthy()
                &&& service.discloses_env() == discloses_env
            },
    {
        match RouteTable::new(config.base_path.as_str()) {
            Ok(table) => Ok(Service { table, health: HealthState::new(), discloses_env }),
            Err(error) => Err(error),
        }
    }

    /// The handler that `request` reaches.
    pub fn route(&self, request: &RequestInfo) -> (handler: Handler)
        ensures
            handler == handler_for(self.base(), request@),
    {
        self.table.dispatch(Method::from_name(request.method.as_str()), request.path.as_str())
    }

    /// Whether `handler` answers only once the body has been drained.
    pub fn needs_body(handler: Handler) -> (needed: bool)
        ensures
            needed == reads_body(handler),
    {
        match handler {
            Handler::LoggerIngest | Handler::DebugEcho => true,
            _ => false,
        }
    }

    /// Reads the health flag.
    pub fn is_healthy(&self) -> (healthy: bool)
        ensures
            healthy == self.healthy(),
    {
        self.health.read()
    }

    /// Answers one request: finds its handler and runs it. `body` is what has
    /// been drained of the request's body; only the handlers that read the body
    /// look at it. `env` is the environment of the process; it reaches the
    /// page only if the service discloses it.
    pub fn handle(&mut self, request: &RequestInfo, body: &Ingest, env: &Vec<Field>) -> (outcome:
        Result<Response, IngestError>)
        ensures
            final(self).base() == old(self).base(),
            final(self).discloses_env() == old(self).discloses_env(),
            final(self).healthy() == health_after(
                handler_for(old(self).base(), request@),
                old(self).healthy(),
            ),
            outcome_view(outcome) == reply(
                handler_for(old(self).base(), request@),
                old(self).healthy(),
                old(self).discloses_env(),
                request@,
                body.phase(),
                fields_view(env@),
            ),
    {
        let handler = self.route(request);
        match handler {
            Handler::Main => {
                if self.discloses_env {
                    Ok(main_handler(request, env))
                } else {
                    let nothing: Vec<Field> = Vec::new();
                    assert(fields_view(nothing@) =~= Seq::<FieldView>::empty());
                    Ok(main_handler(request, &nothing))
                }
            },
            Handler::HealthQuery => Ok(health_handler(&self.health)),
            Handler::HealthToggle => Ok(health_toggle_handler(&mut self.health)),
            Handler::Version => Ok(version_handler()),
            Handler::LoggerIngest => logger_handler(body),
            Handler::DebugEcho => debug_handler(request, body),
            Handler::NotFound => Ok(p404()),
            Handler::MethodNotAllowed => Ok(method_not_allowed()),
        }
    }
}

} // verus!
