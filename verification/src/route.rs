//! The route table: which handler answers which path and method.
//!
//! The table is built once from the base path and never changes. A request is
//! matched by its path first: the first entry with that path whose guard
//! accepts the method names the handler. A path that the table knows with a
//! method that none of its entries accepts is answered with "method not
//! allowed"; a path that it does not know falls to the default: "not found"
//! for `GET`, "method not allowed" for every other method.

use crate::config::ConfigError;
use crate::method::{admits, Guard, Method};
use crate::text::same_text;
use vstd::prelude::*;

verus! {

/// The handlers that a request can reach.
#[derive(Clone, Copy, Debug, PartialEq, Eq, Structural)]
pub enum Handler {
    /// The diagnostic page.
    Main,
    /// Reports the health flag.
    HealthQuery,
    /// Flips the health flag.
    HealthToggle,
    /// Reports the version.
    Version,
    /// Drains the body and confirms.
    LoggerIngest,
    /// Drains the body and echoes the request.
    DebugEcho,
    /// The default answer to `GET`.
    NotFound,
    /// The answer to a method that the path does not accept.
    MethodNotAllowed,
}

/// The path of the debug route, which does not depend on the base path.
pub const DEBUG_PATH: &'static str = "/debug";

/// What is appended to the base path for the health route.
pub const HEALTH_SUFFIX: &'static str = "/health";

/// What is appended to the base path for the logger route.
pub const LOGGER_SUFFIX: &'static str = "/logger";

/// What is appended to the base path for the version route.
pub const VERSION_SUFFIX: &'static str = "/version";

/// The path of the health route under `base`.
pub open spec fn health_path(base: Seq<char>) -> Seq<char> {
    base + HEALTH_SUFFIX@
}

/// The path of the logger route under `base`.
pub open spec fn logger_path(base: Seq<char>) -> Seq<char> {
    base + LOGGER_SUFFIX@
}

/// The path of the version route under `base`.
pub open spec fn version_path(base: Seq<char>) -> Seq<char> {
    base + VERSION_SUFFIX@
}

/// The handler for `method` on `path` when the routes are nested under `base`.
pub open spec fn route(base: Seq<char>, method: Method, path: Seq<char>) -> Handler {
    if path == health_path(base) {
        match method {
            Method::Get => Handler::HealthQuery,
            Method::Put | Method::Post => Handler::HealthToggle,
            Method::Other => Handler::MethodNotAllowed,
        }
    } else if path == logger_path(base) {
        match method {
            Method::Put | Method::Post => Handler::LoggerIngest,
            Method::Get | Method::Other => Handler::MethodNotAllowed,
        }
    } else if path == version_path(base) {
        match method {
            Method::Get => Handler::Version,
            _ => Handler::MethodNotAllowed,
        }
    } else if path == DEBUG_PATH@ {
        Handler::DebugEcho
    } else if path == base {
        Handler::Main
    } else {
        match method {
            Method::Get => Handler::NotFound,
            _ => Handler::MethodNotAllowed,
        }
    }
}

/// Whether `path` is one of the five paths that have routes under `base`.
pub open spec fn is_routed(base: Seq<char>, path: Seq<char>) -> bool {
    ||| path == health_path(base)
    ||| path == logger_path(base)
    ||| path == version_path(base)
    ||| path == DEBUG_PATH@
    ||| path == base
}

/// An entry of the table as a plain value.
pub struct RouteEntryView {
    pub path: Seq<char>,
    pub guard: Guard,
    pub handler: Handler,
}

/// One entry of the table: on this path, a method that the guard accepts
/// reaches the handler.
#[derive(Clone, Debug)]
pub struct RouteEntry {
    pub path: String,
    pub guard: Guard,
    pub handler: Handler,
}

impl View for RouteEntry {
    type V = RouteEntryView;

    open spec fn view(&self) -> RouteEntryView {
        RouteEntryView { path: self.path@, guard: self.guard, handler: self.handler }
    }
}

/// The entries of a list as plain values, in the list's order.
pub open spec fn entries_view(entries: Seq<RouteEntry>) -> Seq<RouteEntryView> {
    entries.map_values(|entry: RouteEntry| entry@)
}

/// The entries of the table for `base`, in the order in which they are tried.
pub open spec fn route_entries(base: Seq<char>) -> Seq<RouteEntryView> {
    seq![
        RouteEntryView { path: health_path(base), guard: Guard::Get, handler: Handler::HealthQuery },
        RouteEntryView { path: health_path(base), guard: Guard::Put, handler: Handler::HealthToggle },
        RouteEntryView {
            path: health_path(base),
            guard: Guard::Post,
            handler: Handler::HealthToggle,
        },
        RouteEntryView { path: logger_path(base), guard: Guard::Put, handler: Handler::LoggerIngest },
        RouteEntryView {
            path: logger_path(base),
            guard: Guard::Post,
            handler: Handler::LoggerIngest,
        },
        RouteEntryView { path: version_path(base), guard: Guard::Get, handler: Handler::Version },
        RouteEntryView { path: DEBUG_PATH@, guard: Guard::Any, handler: Handler::DebugEcho },
        RouteEntryView { path: base, guard: Guard::Any, handler: Handler::Main },
    ]
}

/// Whether an entry answers `method` on `path`.
pub open spec fn entry_matches(entry: RouteEntryView, method: Method, path: Seq<char>) -> bool {
    entry.path == path && admits(entry.guard, method)
}

/// The handler of the first entry that answers `method` on `path`, if any.
pub open spec fn first_match(
    entries: Seq<RouteEntryView>,
    method: Method,
    path: Seq<char>,
) -> Option<Handler>
    decreases entries.len(),
{
    if entries.len() == 0 {
        None
    } else {
        match first_match(entries.drop_last(), method, path) {
            Some(handler) => Some(handler),
            None => if entry_matches(entries.last(), method, path) {
                Some(entries.last().handler)
            } else {
                None
            },
        }
    }
}

/// Whether some entry has `path`.
pub open spec fn knows_path(entries: Seq<RouteEntryView>, path: Seq<char>) -> bool
    decreases entries.len(),
{
    entries.len() > 0 && (knows_path(entries.drop_last(), path) || entries.last().path == path)
}

/// The handler that a table with `entries` gives to `method` on `path`.
pub open spec fn lookup(entries: Seq<RouteEntryView>, method: Method, path: Seq<char>) -> Handler {
    match first_match(entries, method, path) {
        Some(handler) => handler,
        None => if knows_path(entries, path) {
            Handler::MethodNotAllowed
        } else if method == Method::Get {
            Handler::NotFound
        } else {
            Handler::MethodNotAllowed
        },
    }
}

/// A match among the first entries of a table is the match of the table.
pub proof fn lemma_first_match_stays(
    entries: Seq<RouteEntryView>,
    n: int,
    method: Method,
    path: Seq<char>,
)
    requires
        0 <= n <= entries.len(),
        first_match(entries.take(n), method, path) is Some,
    ensures
        first_match(entries, method, path) == first_match(entries.take(n), method, path),
    decreases entries.len() - n,
{
    if n < entries.len() {
        assert(entries.take(n + 1).drop_last() =~= entries.take(n));
        lemma_first_match_stays(entries, n + 1, method, path);
    } else {
        assert(entries.take(n) =~= entries);
    }
}

/// The lengths of the three suffixes and of the debug path, and the
/// character in which the health suffix and the logger suffix differ.
pub proof fn lemma_suffixes()
    ensures
        HEALTH_SUFFIX@.len() == 7,
        LOGGER_SUFFIX@.len() == 7,
        VERSION_SUFFIX@.len() == 8,
        DEBUG_PATH@.len() == 6,
        HEALTH_SUFFIX@[1] == 'h',
        LOGGER_SUFFIX@[1] == 'l',
{
    reveal_strlit("/health");
    reveal_strlit("/logger");
    reveal_strlit("/version");
    reveal_strlit("/debug");
}

/// Whatever the base path, the health, logger and version routes and the base
/// path itself are four different paths, and none of the three nested routes
/// is the debug path.
pub proof fn lemma_paths_distinct(base: Seq<char>)
    ensures
        health_path(base) != logger_path(base),
        health_path(base) != version_path(base),
        logger_path(base) != version_path(base),
        health_path(base) != base,
        logger_path(base) != base,
        version_path(base) != base,
        health_path(base) != DEBUG_PATH@,
        logger_path(base) != DEBUG_PATH@,
        version_path(base) != DEBUG_PATH@,
{
    lemma_suffixes();
    assert(health_path(base)[base.len() as int + 1] == 'h');
    assert(logger_path(base)[base.len() as int + 1] == 'l');
    assert(health_path(base).len() == base.len() + 7);
    assert(logger_path(base).len() == base.len() + 7);
    assert(version_path(base).len() == base.len() + 8);
}

/// Looking a request up in the table for `base` gives the handler that the
/// routing rules name, as long as the base path is not the debug path.
pub proof fn lemma_lookup_is_route(base: Seq<char>, method: Method, path: Seq<char>)
    requires
        base != DEBUG_PATH@,
    ensures
        lookup(route_entries(base), method, path) == route(base, method, path),
{
    lemma_paths_distinct(base);
    let entries = route_entries(base);
    assert(entries.take(8) =~= entries);
    lemma_prefix_step(entries, 0, method, path);
    lemma_prefix_step(entries, 1, method, path);
    lemma_prefix_step(entries, 2, method, path);
    lemma_prefix_step(entries, 3, method, path);
    lemma_prefix_step(entries, 4, method, path);
    lemma_prefix_step(entries, 5, method, path);
    lemma_prefix_step(entries, 6, method, path);
    lemma_prefix_step(entries, 7, method, path);
}

/// How the first match and the known paths of the first `n + 1` entries follow
/// from those of the first `n`.
pub proof fn lemma_prefix_step(
    entries: Seq<RouteEntryView>,
    n: int,
    method: Method,
    path: Seq<char>,
)
    requires
        0 <= n < entries.len(),
    ensures
        first_match(entries.take(n + 1), method, path) == (match first_match(
            entries.take(n),
            method,
            path,
        ) {
            Some(handler) => Some(handler),
            None => if entry_matches(entries[n], method, path) {
                Some(entries[n].handler)
            } else {
                None
            },
        }),
        knows_path(entries.take(n + 1), path) == (knows_path(entries.take(n), path)
            || entries[n].path == path),
{
    assert(entries.take(n + 1).drop_last() =~= entries.take(n));
    assert(entries.take(n + 1).last() == entries[n]);
}

/// No two entries of the table have the same path and the same guard, as
/// long as the base path is not the debug path.
pub proof fn lemma_one_entry_per_method(base: Seq<char>, i: int, j: int)
    requires
        base != DEBUG_PATH@,
        0 <= i < j < route_entries(base).len(),
    ensures
        !(route_entries(base)[i].path == route_entries(base)[j].path && route_entries(
            base,
        )[i].guard == route_entries(base)[j].guard),
{
    lemma_paths_distinct(base);
}

/// A path without a route is answered by the default: "not found" for `GET`,
/// "method not allowed" for every other method.
pub proof fn lemma_unrouted_path(base: Seq<char>, method: Method, path: Seq<char>)
    requires
        !is_routed(base, path),
    ensures
        route(base, method, path) == (if method == Method::Get {
            Handler::NotFound
        } else {
            Handler::MethodNotAllowed
        }),
{
}

/// A path with a route is never answered with "not found", whatever the
/// method: the path is matched before the method.
pub proof fn lemma_routed_path_is_found(base: Seq<char>, method: Method, path: Seq<char>)
    requires
        is_routed(base, path),
    ensures
        route(base, method, path) != Handler::NotFound,
{
}

/// The route table of one process.
pub struct RouteTable {
    base: String,
    entries: Vec<RouteEntry>,
}

impl RouteTable {
    /// The base path that the table was built from.
    pub closed spec fn base(&self) -> Seq<char> {
        self.base@
    }

    /// The entries of the table, in the order in which they are tried.
    pub closed spec fn entries(&self) -> Seq<RouteEntryView> {
        entries_view(self.entries@)
    }

    #[verifier::type_invariant]
    spec fn wf(self) -> bool {
        &&& self.base@ != DEBUG_PATH@
        &&& entries_view(self.entries@) == route_entries(self.base@)
    }

    /// Builds the table for a base path. A base path that is the debug path
    /// is refused: the debug route and the diagnostic page would share it.
    pub fn new(base: &str) -> (outcome: Result<RouteTable, ConfigError>)
        ensures
            base@ == DEBUG_PATH@ <==> outcome is Err,
            outcome matches Err(error) ==> error == ConfigError::PathCollision,
            outcome matches Ok(table) ==> table.base() == base@ && table.entries()
                == route_entries(base@),
    {
        if same_text(base, DEBUG_PATH) {
            return Err(ConfigError::PathCollision);
        }
        let mut entries: Vec<RouteEntry> = Vec::new();
        entries.push(
            RouteEntry {
                path: nested_path(base, HEALTH_SUFFIX),
                guard: Guard::Get,
                handler: Handler::HealthQuery,
            },
        );
        entries.push(
            RouteEntry {
                path: nested_path(base, HEALTH_SUFFIX),
                guard: Guard::Put,
                handler: Handler::HealthToggle,
            },
        );
        entries.push(
            RouteEntry {
                path: nested_path(base, HEALTH_SUFFIX),
                guard: Guard::Post,
                handler: Handler::HealthToggle,
            },
        );
        entries.push(
            RouteEntry {
                path: nested_path(base, LOGGER_SUFFIX),
                guard: Guard::Put,
                handler: Handler::LoggerIngest,
            },
        );
        entries.push(
            RouteEntry {
                path: nested_path(base, LOGGER_SUFFIX),
                guard: Guard::Post,
                handler: Handler::LoggerIngest,
            },
        );
        entries.push(
            RouteEntry {
                path: nested_path(base, VERSION_SUFFIX),
                guard: Guard::Get,
                handler: Handler::Version,
            },
        );
        entries.push(
            RouteEntry { path: DEBUG_PATH.to_owned(), guard: Guard::Any, handler: Handler::DebugEcho },
        );
        entries.push(RouteEntry { path: base.to_owned(), guard: Guard::Any, handler: Handler::Main });
        proof {
            assert(entries_view(entries@) =~= route_entries(base@));
        }
        Ok(RouteTable { base: base.to_owned(), entries })
    }

    /// The handler for `method` on `path`.
    pub fn dispatch(&self, method: Method, path: &str) -> (handler: Handler)
        ensures
            handler == route(self.base(), method, path@),
            handler == lookup(self.entries(), method, path@),
    {
        proof {
            use_type_invariant(self);
            lemma_lookup_is_route(self.base@, method, path@);
        }
        let ghost entries = entries_view(self.entries@);
        let mut known = false;
        let mut i: usize = 0;
        while i < self.entries.len()
            invariant
                i <= self.entries.len(),
                entries == entries_view(self.entries@),
                lookup(entries, method, path@) == route(self.base@, method, path@),
                first_match(entries.take(i as int), method, path@) is None,
                known == knows_path(entries.take(i as int), path@),
            decreases self.entries.len() - i,
        {
            let entry = &self.entries[i];
            proof {
                lemma_prefix_step(entries, i as int, method, path@);
            }
            if same_text(entry.path.as_str(), path) {
                known = true;
                if entry.guard.admits(method) {
                    proof {
                        lemma_first_match_stays(entries, i + 1, method, path@);
                    }
                    return entry.handler;
                }
            }
            i += 1;
        }
        proof {
            assert(entries.take(i as int) =~= entries);
        }
        if known {
            Handler::MethodNotAllowed
        } else if method == Method::Get {
            Handler::NotFound
        } else {
            Handler::MethodNotAllowed
        }
    }

    /// The base path that the table was built from.
    pub fn base_path(&self) -> (base: &str)
        ensures
            base@ == self.base(),
    {
        self.base.as_str()
    }

    /// The entries of the table, in the order in which they are tried.
    pub fn route_list(&self) -> (list: &Vec<RouteEntry>)
        ensures
            entries_view(list@) == self.entries(),
    {
        &self.entries
    }
}

/// The path of a route nested under `base`: the base path, then the suffix.
pub fn nested_path(base: &str, suffix: &str) -> (path: String)
    ensures
        path@ == base@ + suffix@,
{
    let mut path = base.to_owned();
    path.append(suffix);
    path
}

} // verus!
