//! The route table, the access policy and the dispatcher. A routing
//! configuration maps route keys to handlers guarded by access levels;
//! resolution extracts the identity, looks the route up, applies the
//! policy, and either hands the handler out or short-circuits into a
//! failure — in that order, never another.

use vstd::prelude::*;

use crate::constants::spec_unauthorized_error_msg;
use crate::errors::ServerFailure;
use crate::errors::invalid_route_failure;
use crate::errors::route_not_found_message;
use crate::errors::unauthorized_failure;
use crate::errors::unauthorized_message;
use crate::event::ClaimValue;
use crate::event::HttpMethod;
use crate::event::RequestEvent;
use crate::auth::spec_claims_lookup;
use crate::auth::spec_is_admin;
use crate::auth::spec_is_authenticated;
use crate::request::RequestMetadata;
use crate::request::parse_request_metadata;
use crate::request::spec_metadata_ok;
use crate::request::spec_sub_failure;
use crate::request::spec_sub_inconsistent;
use crate::response::envelope_err_body;
use crate::response::spec_error_body;
use crate::response::spec_status;
use crate::util::lookup;
use crate::util::spec_lookup;

verus! {

/// The trust classification a route demands. The levels are not ordered:
/// each has its own predicate, and `Forbidden` denies everyone.
#[derive(Clone, Copy, PartialEq, Eq, Structural, Debug)]
pub enum AccessLevel {
    Guest,
    User,
    Admin,
    Forbidden,
}

/// The access policy: whether an identity meets a required level. Guest
/// admits everyone; User demands authentication; Admin demands
/// authentication and the admin group; Forbidden admits no one. The
/// subject never takes part in the decision.
pub open spec fn spec_allowed(level: AccessLevel, identity: RequestMetadata) -> bool {
    match level {
        AccessLevel::Guest => true,
        AccessLevel::User => identity.is_authenticated,
        AccessLevel::Admin => identity.is_authenticated && identity.is_admin,
        AccessLevel::Forbidden => false,
    }
}

/// The access policy's decision function.
pub fn allowed(level: AccessLevel, identity: &RequestMetadata) -> (r: bool)
    ensures
        r == spec_allowed(level, *identity),
{
    match level {
        AccessLevel::Guest => true,
        AccessLevel::User => identity.is_authenticated,
        AccessLevel::Admin => identity.is_authenticated && identity.is_admin,
        AccessLevel::Forbidden => false,
    }
}

/// A function-style route: one handler behind one access level.
pub struct FunctionRoute<H> {
    pub access_level: AccessLevel,
    pub handler: H,
}

/// A resource-style route: one handler behind four access levels, one per
/// CRUD verb, since different verbs on the same resource may require
/// different trust.
pub struct CrudRoute<H> {
    pub create_access_level: AccessLevel,
    pub read_access_level: AccessLevel,
    pub update_access_level: AccessLevel,
    pub delete_access_level: AccessLevel,
    pub handler: H,
}

/// The route table: immutable after registration, keyed by route key. The
/// handler slot is generic so that callers may store any callable or
/// description of one.
pub struct RoutingConfig<H> {
    pub function_routes: Vec<(String, FunctionRoute<H>)>,
    pub crud_routes: Vec<(String, CrudRoute<H>)>,
}

/// No two entries of a route list carry the same key.
pub open spec fn unique_keys<T>(entries: Seq<(String, T)>) -> bool {
    forall|i: int, j: int| 0 <= i < j < entries.len() ==> entries[i].0@ != entries[j].0@
}

/// A lookup that misses found no entry carrying the key.
proof fn lemma_lookup_none<T>(entries: Seq<(String, T)>, key: Seq<char>)
    requires
        spec_lookup(entries, key) is None,
    ensures
        forall|i: int| 0 <= i < entries.len() ==> entries[i].0@ != key,
    decreases entries.len(),
{
    if entries.len() > 0 {
        lemma_lookup_none(entries.drop_first(), key);
        assert forall|i: int| 0 <= i < entries.len() implies entries[i].0@ != key by {
            if i >= 1 {
                assert(entries.drop_first()[i - 1] == entries[i]);
            }
        }
    }
}

/// Prepending an entry makes its key resolve to it and leaves every other
/// key's lookup unchanged.
proof fn lemma_lookup_prepend<T>(entries: Seq<(String, T)>, entry: (String, T), key: Seq<char>)
    ensures
        spec_lookup(entries.insert(0, entry), key) == (if entry.0@ == key {
            Some(entry.1)
        } else {
            spec_lookup(entries, key)
        }),
{
    let extended = entries.insert(0, entry);
    assert(extended[0] == entry);
    assert(extended.drop_first() =~= entries);
}

impl<H> RoutingConfig<H> {
    /// The table's invariant: no route key is registered twice, in either
    /// list.
    pub open spec fn wf(self) -> bool {
        unique_keys(self.function_routes@) && unique_keys(self.crud_routes@)
    }

    /// An empty route table.
    pub fn new() -> (r: Self)
        ensures
            r.wf(),
            r.function_routes@.len() == 0,
            r.crud_routes@.len() == 0,
    {
        RoutingConfig { function_routes: Vec::new(), crud_routes: Vec::new() }
    }

    /// Registers a function-style route under `key`. A key already
    /// registered is refused, keeping the table unchanged, so that no two
    /// entries ever share a key.
    pub fn register_function_route(&mut self, key: String, route: FunctionRoute<H>) -> (r: bool)
        requires
            old(self).wf(),
        ensures
            final(self).wf(),
            final(self).crud_routes == old(self).crud_routes,
            r == (spec_lookup(old(self).function_routes@, key@) is None),
            r ==> forall|k: Seq<char>|
                spec_lookup(final(self).function_routes@, k) == (if k == key@ {
                    Some(route)
                } else {
                    spec_lookup(old(self).function_routes@, k)
                }),
            !r ==> final(self).function_routes == old(self).function_routes,
    {
        if lookup(&self.function_routes, key.as_str()).is_some() {
            return false;
        }
        proof {
            lemma_lookup_none(self.function_routes@, key@);
            assert forall|k: Seq<char>| true implies spec_lookup(
                self.function_routes@.insert(0, (key, route)),
                k,
            ) == (if k == key@ {
                Some((key, route).1)
            } else {
                spec_lookup(self.function_routes@, k)
            }) by {
                lemma_lookup_prepend(self.function_routes@, (key, route), k);
            }
        }
        self.function_routes.insert(0, (key, route));
        true
    }

    /// Registers a resource-style route under `key`, refusing a key
    /// already registered.
    pub fn register_crud_route(&mut self, key: String, route: CrudRoute<H>) -> (r: bool)
        requires
            old(self).wf(),
        ensures
            final(self).wf(),
            final(self).function_routes == old(self).function_routes,
            r == (spec_lookup(old(self).crud_routes@, key@) is None),
            r ==> forall|k: Seq<char>|
                spec_lookup(final(self).crud_routes@, k) == (if k == key@ {
                    Some(route)
                } else {
                    spec_lookup(old(self).crud_routes@, k)
                }),
            !r ==> final(self).crud_routes == old(self).crud_routes,
    {
        if lookup(&self.crud_routes, key.as_str()).is_some() {
            return false;
        }
        proof {
            lemma_lookup_none(self.crud_routes@, key@);
            assert forall|k: Seq<char>| true implies spec_lookup(
                self.crud_routes@.insert(0, (key, route)),
                k,
            ) == (if k == key@ {
                Some((key, route).1)
            } else {
                spec_lookup(self.crud_routes@, k)
            }) by {
                lemma_lookup_prepend(self.crud_routes@, (key, route), k);
            }
        }
        self.crud_routes.insert(0, (key, route));
        true
    }
}

/// The function-style route an event resolves to: only an invoke-style
/// method reaches these routes.
pub open spec fn spec_function_route<H>(c: RoutingConfig<H>, e: RequestEvent) -> Option<
    FunctionRoute<H>,
> {
    if e.method is Post {
        match e.route_key {
            Some(key) => spec_lookup(c.function_routes@, key@),
            None => None,
        }
    } else {
        None
    }
}

/// The resource-style route an event's key resolves to, before the verb
/// is considered.
pub open spec fn spec_crud_route<H>(c: RoutingConfig<H>, e: RequestEvent) -> Option<CrudRoute<H>> {
    match e.route_key {
        Some(key) => spec_lookup(c.crud_routes@, key@),
        None => None,
    }
}

/// The access level a resource-style route demands of one verb. A method
/// outside the four CRUD verbs maps to no verb at all, so the route does
/// not serve it and resolution falls through to "route not found".
pub open spec fn spec_crud_level<H>(route: CrudRoute<H>, method: HttpMethod) -> Option<
    AccessLevel,
> {
    match method {
        HttpMethod::Post => Some(route.create_access_level),
        HttpMethod::Get => Some(route.read_access_level),
        HttpMethod::Put => Some(route.update_access_level),
        HttpMethod::Delete => Some(route.delete_access_level),
        HttpMethod::Other => None,
    }
}

/// What an event resolves to in a route table: the handler to invoke and
/// the access level demanded of this (route, verb) pair. Function-style
/// routes take precedence, as the dispatcher searches them first. An
/// event whose method no registered route serves resolves to nothing.
pub open spec fn spec_resolved<H>(c: RoutingConfig<H>, e: RequestEvent) -> Option<
    (H, AccessLevel),
> {
    match spec_function_route(c, e) {
        Some(route) => Some((route.handler, route.access_level)),
        None => match spec_crud_route(c, e) {
            Some(route) => match spec_crud_level(route, e.method) {
                Some(level) => Some((route.handler, level)),
                None => None,
            },
            None => None,
        },
    }
}

/// The identity summary an event determines (meaningful whenever the
/// event is not internally inconsistent).
pub open spec fn spec_metadata(e: RequestEvent) -> RequestMetadata {
    RequestMetadata {
        is_authenticated: spec_is_authenticated(e),
        is_admin: spec_is_admin(e),
        user_sub: if spec_is_authenticated(e) {
            match spec_claims_lookup(e, "sub"@) {
                Some(ClaimValue::Text(sub)) => Some(sub),
                _ => None,
            }
        } else {
            None
        },
    }
}

/// A consistent event determines its identity summary uniquely.
pub proof fn lemma_metadata_unique(e: RequestEvent, m: RequestMetadata)
    requires
        !spec_sub_inconsistent(e),
        spec_metadata_ok(e, m),
    ensures
        m == spec_metadata(e),
{
}

fn find_function_route<'a, H>(config: &'a RoutingConfig<H>, event: &RequestEvent) -> (r: Option<
    (&'a H, AccessLevel),
>)
    ensures
        match r {
            Some((h, level)) => spec_function_route(*config, *event) matches Some(route) && *h
                == route.handler && level == route.access_level,
            None => spec_function_route(*config, *event) is None,
        },
{
    match event.method {
        HttpMethod::Post => match &event.route_key {
            Some(key) => match lookup(&config.function_routes, key.as_str()) {
                Some(route) => Some((&route.handler, route.access_level)),
                None => None,
            },
            None => None,
        },
        _ => None,
    }
}

fn find_crud_route<'a, H>(config: &'a RoutingConfig<H>, event: &RequestEvent) -> (r: Option<
    (&'a H, AccessLevel),
>)
    ensures
        match r {
            Some((h, level)) => spec_crud_route(*config, *event) matches Some(route) && *h
                == route.handler && spec_crud_level(route, event.method) == Some(level),
            None => match spec_crud_route(*config, *event) {
                Some(route) => spec_crud_level(route, event.method) is None,
                None => true,
            },
        },
{
    match &event.route_key {
        Some(key) => match lookup(&config.crud_routes, key.as_str()) {
            Some(route) => match event.method {
                HttpMethod::Post => Some((&route.handler, route.create_access_level)),
                HttpMethod::Get => Some((&route.handler, route.read_access_level)),
                HttpMethod::Put => Some((&route.handler, route.update_access_level)),
                HttpMethod::Delete => Some((&route.handler, route.delete_access_level)),
                HttpMethod::Other => None,
            },
            None => None,
        },
        None => None,
    }
}

/// The dispatcher's decision: extracts the identity, resolves the route,
/// applies the access policy, and hands out the handler to invoke with
/// the extracted identity — or the failure that ends the request instead.
/// Identity extraction always precedes route lookup, route lookup the
/// access check, and the access check the handing out of a handler; a
/// request failing an earlier step never reaches a later one.
pub fn resolve_route<'a, H>(config: &'a RoutingConfig<H>, event: &RequestEvent) -> (r: Result<
    (&'a H, RequestMetadata),
    ServerFailure,
>)
    ensures
        match r {
            Ok((h, m)) => {
                &&& !spec_sub_inconsistent(*event)
                &&& spec_metadata_ok(*event, m)
                &&& m == spec_metadata(*event)
                &&& spec_resolved(*config, *event) matches Some((hh, level)) && *h == hh
                    && spec_allowed(level, m)
            },
            Err(f) => if spec_sub_inconsistent(*event) {
                spec_sub_failure(*event, f)
            } else if spec_resolved(*config, *event) is None {
                f.behaviour is LogWarningForwardToClient && f.message@ == route_not_found_message(
                    event.path,
                )
            } else {
                &&& (match spec_resolved(*config, *event) {
                    Some((hh, level)) => !spec_allowed(level, spec_metadata(*event)),
                    None => false,
                })
                &&& f.behaviour is ReturnUnauthorized
                &&& f.message@ == unauthorized_message()
            },
        },
{
    let metadata = match parse_request_metadata(event) {
        Ok(m) => m,
        Err(f) => {
            return Err(f);
        },
    };
    let resolved = match find_function_route(config, event) {
        Some(hl) => Some(hl),
        None => find_crud_route(config, event),
    };
    let (handler, level) = match resolved {
        Some(hl) => hl,
        None => {
            return Err(invalid_route_failure(&event.path));
        },
    };
    if allowed(level, &metadata) {
        proof {
            lemma_metadata_unique(*event, metadata);
        }
        Ok((handler, metadata))
    } else {
        proof {
            lemma_metadata_unique(*event, metadata);
        }
        Err(unauthorized_failure())
    }
}

/// Law: a Guest route admits every identity, including the fully
/// anonymous one.
pub proof fn lemma_guest_always_allowed(identity: RequestMetadata)
    ensures
        spec_allowed(AccessLevel::Guest, identity),
{
}

/// Law: an Admin route admits an identity exactly when it is both
/// authenticated and in the admin group; an admin-group identity that is
/// not authenticated is still denied.
pub proof fn lemma_admin_needs_authentication(identity: RequestMetadata)
    ensures
        spec_allowed(AccessLevel::Admin, identity) <==> (identity.is_authenticated
            && identity.is_admin),
{
}

/// Law: dispatch to an unregistered route key ends in a forwarded,
/// client-visible failure — translated to status 200 with an envelope
/// naming the attempted path, never to a 500 or a 401.
pub proof fn lemma_unknown_route_forwarded(event: RequestEvent, f: ServerFailure)
    requires
        f.behaviour is LogWarningForwardToClient,
        f.message@ == route_not_found_message(event.path),
    ensures
        spec_status(f.behaviour) == 200,
        spec_error_body(f) == envelope_err_body(route_not_found_message(event.path)),
{
}

/// Law: an authenticated identity outside the admin group never meets an
/// Admin route's demand, and the unauthorized failure raised for it is
/// translated to exactly 401 with the fixed unauthorized text.
pub proof fn lemma_admin_route_refused(event: RequestEvent, f: ServerFailure)
    requires
        spec_metadata(event).is_authenticated,
        !spec_metadata(event).is_admin,
        f.behaviour is ReturnUnauthorized,
    ensures
        !spec_allowed(AccessLevel::Admin, spec_metadata(event)),
        spec_status(f.behaviour) == 401,
        spec_error_body(f) == spec_unauthorized_error_msg(),
{
}

} // verus!
