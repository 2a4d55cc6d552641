//! Routing: which handler answers a request, once it is let through.

use vstd::prelude::*;
use crate::auth::{accepts, authorize};
use crate::protocol::opt_view;
use crate::text::{chars_eq, from_chars, matches_at, occurs_at, str_eq, to_chars};

verus! {

/// A request's method, as far as routing tells methods apart.
#[derive(Clone, Copy, PartialEq, Eq, Structural, Debug)]
pub enum Method {
    Get,
    Post,
    Other,
}

/// The handler that answers a request, with what it takes from the path or
/// the query.
pub enum Route {
    /// The request is not let through: status 403.
    Forbidden,
    /// No handler answers this request: status 404.
    NotFound,
    Health,
    ListContainers,
    CreateContainer,
    ContainerInspect(String),
    ContainerStart(String),
    ContainerStop(String),
    ContainerLogs(String),
    RunnerStatus(String),
    RunnerSetup,
    Compose,
    ComposeStatus(String),
}

/// What a `Route` stands for.
pub ghost enum RouteModel {
    Forbidden,
    NotFound,
    Health,
    ListContainers,
    CreateContainer,
    ContainerInspect(Seq<char>),
    ContainerStart(Seq<char>),
    ContainerStop(Seq<char>),
    ContainerLogs(Seq<char>),
    RunnerStatus(Seq<char>),
    RunnerSetup,
    Compose,
    ComposeStatus(Seq<char>),
}

impl View for Route {
    type V = RouteModel;

    open spec fn view(&self) -> RouteModel {
        match *self {
            Route::Forbidden => RouteModel::Forbidden,
            Route::NotFound => RouteModel::NotFound,
            Route::Health => RouteModel::Health,
            Route::ListContainers => RouteModel::ListContainers,
            Route::CreateContainer => RouteModel::CreateContainer,
            Route::ContainerInspect(id) => RouteModel::ContainerInspect(id@),
            Route::ContainerStart(id) => RouteModel::ContainerStart(id@),
            Route::ContainerStop(id) => RouteModel::ContainerStop(id@),
            Route::ContainerLogs(id) => RouteModel::ContainerLogs(id@),
            Route::RunnerStatus(path) => RouteModel::RunnerStatus(path@),
            Route::RunnerSetup => RouteModel::RunnerSetup,
            Route::Compose => RouteModel::Compose,
            Route::ComposeStatus(path) => RouteModel::ComposeStatus(path@),
        }
    }
}

/// What the `url` crate reads from a query string: its names and values, in
/// their order, decoded.
pub uninterp spec fn form_pairs(query: Seq<char>) -> Seq<(Seq<char>, Seq<char>)>;

/// The views of a sequence of pairs of strings.
pub open spec fn pair_views(pairs: Seq<(String, String)>) -> Seq<(Seq<char>, Seq<char>)> {
    Seq::new(pairs.len(), |i: int| (pairs[i].0@, pairs[i].1@))
}

/// Reads a query string with `url::form_urlencoded::parse`. Nothing is
/// claimed of the pairs but that they are the ones named by `form_pairs`.
#[verifier::external_body]
fn parse_query(query: &str) -> (r: Vec<(String, String)>)
    ensures
        pair_views(r@) == form_pairs(query@),
{
    url::form_urlencoded::parse(query.as_bytes()).into_owned().collect()
}

/// The value of the last pair named `key`, where there is one.
pub open spec fn last_value(pairs: Seq<(Seq<char>, Seq<char>)>, key: Seq<char>) -> Option<Seq<char>>
    decreases pairs.len(),
{
    if pairs.len() == 0 {
        None
    } else if pairs.last().0 == key {
        Some(pairs.last().1)
    } else {
        last_value(pairs.drop_last(), key)
    }
}

/// The value of the last pair named `key`, where there is one: of two pairs
/// with one name the later one counts.
pub fn param(pairs: &Vec<(String, String)>, key: &str) -> (r: Option<String>)
    ensures
        opt_view(r) == last_value(pair_views(pairs@), key@),
{
    let mut n: usize = pairs.len();
    assert(pair_views(pairs@).take(n as int) =~= pair_views(pairs@));
    while n > 0
        invariant
            n <= pairs.len(),
            last_value(pair_views(pairs@), key@) == last_value(
                pair_views(pairs@).take(n as int),
                key@,
            ),
        decreases n,
    {
        let ghost here = pair_views(pairs@).take(n as int);
        assert(here.last() == (pairs@[n - 1].0@, pairs@[n - 1].1@));
        assert(here.drop_last() =~= pair_views(pairs@).take(n - 1));
        if str_eq(pairs[n - 1].0.as_str(), key) {
            return Some(pairs[n - 1].1.clone());
        }
        n -= 1;
    }
    None
}

/// The value of the query's parameter `key`, where the request has a query
/// that holds it.
pub open spec fn query_value(query: Option<Seq<char>>, key: Seq<char>) -> Option<Seq<char>> {
    match query {
        Some(q) => last_value(form_pairs(q), key),
        None => None,
    }
}

/// What every path of a container's action begins with.
pub open spec fn container_prefix() -> Seq<char> {
    "/docker/container/"@
}

/// Whether `c` is a digit or a letter from `a` to `f`.
pub open spec fn is_hex(c: char) -> bool {
    ('0' <= c && c <= '9') || ('a' <= c && c <= 'f')
}

/// Whether `id` is a container's id: 64 lowercase hexadecimal digits.
pub open spec fn is_container_id(id: Seq<char>) -> bool {
    id.len() == 64 && forall|i: int| 0 <= i < 64 ==> is_hex(#[trigger] id[i])
}

/// The id and the action of a path of a container's action: the path is the
/// prefix, a container's id, a slash, and the action, which is all that
/// follows.
pub open spec fn container_path(path: Seq<char>) -> Option<(Seq<char>, Seq<char>)> {
    let n = container_prefix().len() as int;
    if occurs_at(path, container_prefix(), 0) && path.len() > n + 64 && is_container_id(
        path.subrange(n, n + 64),
    ) && path[n + 64] == '/' {
        Some((path.subrange(n, n + 64), path.skip(n + 65)))
    } else {
        None
    }
}

/// The handler of a container's action; none for an action that is not known.
pub open spec fn action_route(id: Seq<char>, action: Seq<char>) -> RouteModel {
    if action == "inspect"@ {
        RouteModel::ContainerInspect(id)
    } else if action == "start"@ {
        RouteModel::ContainerStart(id)
    } else if action == "stop"@ {
        RouteModel::ContainerStop(id)
    } else if action == "logs"@ {
        RouteModel::ContainerLogs(id)
    } else {
        RouteModel::NotFound
    }
}

/// The handler of a path that is not one of a container's action.
pub open spec fn plain_route(
    method: Method,
    path: Seq<char>,
    target: Option<Seq<char>>,
) -> RouteModel {
    if path == "/runner/status"@ && target is Some && method == Method::Get {
        RouteModel::RunnerStatus(target->0)
    } else if path == "/runner"@ && method == Method::Post {
        RouteModel::RunnerSetup
    } else if path == "/docker/compose"@ && method == Method::Post {
        RouteModel::Compose
    } else if path == "/docker/compose/status"@ && target is Some && method == Method::Get {
        RouteModel::ComposeStatus(target->0)
    } else {
        RouteModel::NotFound
    }
}

/// The handler for a method, a path, and the value of the query's parameter
/// `path`. The first rule that fits decides; a status route without that
/// parameter is not found.
pub open spec fn route_for(
    method: Method,
    path: Seq<char>,
    target: Option<Seq<char>>,
) -> RouteModel {
    if path == "/health"@ && method == Method::Get {
        RouteModel::Health
    } else if path == "/docker/containers/list"@ && method == Method::Get {
        RouteModel::ListContainers
    } else if path == "/docker/container"@ && method == Method::Post {
        RouteModel::CreateContainer
    } else {
        match container_path(path) {
            Some(found) => action_route(found.0, found.1),
            None => plain_route(method, path, target),
        }
    }
}

/// The handler for a request: none but `Forbidden` unless the request is let
/// through, whatever its method and path.
pub open spec fn route_of(
    method: Method,
    path: Seq<char>,
    query: Option<Seq<char>>,
    token: Option<Seq<char>>,
    key_hash: Seq<char>,
) -> RouteModel {
    if !accepts(token, key_hash) {
        RouteModel::Forbidden
    } else {
        route_for(method, path, query_value(query, "path"@))
    }
}

/// Whether `c` is a digit or a letter from `a` to `f`.
pub fn hex(c: char) -> (r: bool)
    ensures
        r == is_hex(c),
{
    ('0' <= c && c <= '9') || ('a' <= c && c <= 'f')
}

/// The id and the action of a path of a container's action.
pub fn container_action(path: &str) -> (r: Option<(String, String)>)
    ensures
        match r {
            Some(found) => container_path(path@) == Some((found.0@, found.1@)),
            None => container_path(path@) is None,
        },
{
    proof {
        reveal_strlit("/docker/container/");
    }
    let chars = to_chars(path);
    let prefix = to_chars("/docker/container/");
    let n: usize = prefix.len();
    if !matches_at(&chars, &prefix, 0) || chars.len() <= n + 64 {
        return None;
    }
    let mut i: usize = n;
    while i < n + 64
        invariant
            n == 18,
            n == container_prefix().len(),
            n <= i <= n + 64,
            chars.len() > n + 64,
            chars@ == path@,
            forall|k: int| n <= k < i ==> is_hex(#[trigger] chars@[k]),
        decreases n + 64 - i,
    {
        if !hex(chars[i]) {
            assert(path@.subrange(n as int, n + 64)[i - n] == chars@[i as int]);
            return None;
        }
        i += 1;
    }
    assert forall|k: int| 0 <= k < 64 implies is_hex(#[trigger] path@.subrange(n as int, n + 64)[k]) by {
        assert(path@.subrange(n as int, n + 64)[k] == chars@[n + k]);
    }
    if chars[n + 64] != '/' {
        return None;
    }
    let id = from_chars(&chars, n, n + 64);
    let action = from_chars(&chars, n + 65, chars.len());
    Some((id, action))
}

/// The handler of a container's action; none for an action that is not known.
pub fn container_route(id: String, action: &str) -> (r: Route)
    ensures
        r@ == action_route(id@, action@),
{
    if str_eq(action, "inspect") {
        Route::ContainerInspect(id)
    } else if str_eq(action, "start") {
        Route::ContainerStart(id)
    } else if str_eq(action, "stop") {
        Route::ContainerStop(id)
    } else if str_eq(action, "logs") {
        Route::ContainerLogs(id)
    } else {
        Route::NotFound
    }
}

/// The handler for a method, a path, and the value of the query's parameter
/// `path`.
pub fn route(method: Method, path: &str, target: Option<String>) -> (r: Route)
    ensures
        r@ == route_for(method, path@, opt_view(target)),
{
    let get = method == Method::Get;
    let post = method == Method::Post;
    if get && str_eq(path, "/health") {
        return Route::Health;
    }
    if get && str_eq(path, "/docker/containers/list") {
        return Route::ListContainers;
    }
    if post && str_eq(path, "/docker/container") {
        return Route::CreateContainer;
    }
    if let Some(found) = container_action(path) {
        return container_route(found.0, found.1.as_str());
    }
    if get && str_eq(path, "/runner/status") {
        if let Some(t) = target {
            return Route::RunnerStatus(t);
        }
        return Route::NotFound;
    }
    if post && str_eq(path, "/runner") {
        return Route::RunnerSetup;
    }
    if post && str_eq(path, "/docker/compose") {
        return Route::Compose;
    }
    if get && str_eq(path, "/docker/compose/status") {
        if let Some(t) = target {
            return Route::ComposeStatus(t);
        }
        return Route::NotFound;
    }
    Route::NotFound
}

/// The handler for a request. `token` is the value of the request's key
/// header, `None` where the header is missing or is not text; `query` is the
/// request's query string, where it has one. A request that is not let
/// through is forbidden before its path is looked at.
pub fn router(
    method: Method,
    path: &str,
    query: Option<&str>,
    token: Option<&str>,
    key_hash: &str,
) -> (r: Route)
    ensures
        r@ == route_of(
            method,
            path@,
            match query {
                Some(q) => Some(q@),
                None => None,
            },
            match token {
                Some(t) => Some(t@),
                None => None,
            },
            key_hash@,
        ),
        key_hash@.len() != 60 ==> r@ == RouteModel::Forbidden,
{
    if !authorize(token, key_hash) {
        return Route::Forbidden;
    }
    let target = match query {
        Some(q) => {
            let pairs = parse_query(q);
            param(&pairs, "path")
        },
        None => None,
    };
    route(method, path, target)
}

/// The path of a container's action, written out.
pub open spec fn action_path(id: Seq<char>, action: Seq<char>) -> Seq<char> {
    container_prefix() + id + "/"@ + action
}

/// Whether an action is one that a handler answers.
pub open spec fn is_known_action(action: Seq<char>) -> bool {
    action == "inspect"@ || action == "start"@ || action == "stop"@ || action == "logs"@
}

/// A request that is not let through is forbidden, whatever its method, path
/// and query.
pub proof fn unmatched_token_is_forbidden(
    method: Method,
    path: Seq<char>,
    query: Option<Seq<char>>,
    token: Option<Seq<char>>,
    key_hash: Seq<char>,
)
    requires
        !accepts(token, key_hash),
    ensures
        route_of(method, path, query, token, key_hash) == RouteModel::Forbidden,
{
}

proof fn action_path_is_no_plain_path(id: Seq<char>, action: Seq<char>)
    ensures
        action_path(id, action).len() == 19 + id.len() + action.len(),
        container_prefix().len() == 18,
        occurs_at(action_path(id, action), container_prefix(), 0),
        action_path(id, action) != "/health"@,
        action_path(id, action) != "/docker/containers/list"@,
        action_path(id, action) != "/docker/container"@,
        action_path(id, action) != "/runner/status"@,
        action_path(id, action) != "/runner"@,
        action_path(id, action) != "/docker/compose"@,
        action_path(id, action) != "/docker/compose/status"@,
        forall|k: int| 0 <= k < id.len() ==> action_path(id, action)[18 + k] == id[k],
        action_path(id, action)[18 + id.len() as int] == '/',
        forall|k: int|
            0 <= k < action.len() ==> action_path(id, action)[19 + id.len() + k] == action[k],
{
    reveal_strlit("/docker/container/");
    reveal_strlit("/");
    reveal_strlit("/health");
    reveal_strlit("/docker/containers/list");
    reveal_strlit("/docker/container");
    reveal_strlit("/runner/status");
    reveal_strlit("/runner");
    reveal_strlit("/docker/compose");
    reveal_strlit("/docker/compose/status");
    let p = action_path(id, action);
    assert(p.subrange(0, 18) =~= container_prefix());
    assert(p[1] == 'd');
    assert(p[10] == 'n');
    assert(p[17] == '/');
}

proof fn known_actions_hold_no_slash(action: Seq<char>, k: int)
    requires
        is_known_action(action),
        0 <= k < action.len(),
    ensures
        action[k] != '/',
{
    reveal_strlit("inspect");
    reveal_strlit("start");
    reveal_strlit("stop");
    reveal_strlit("logs");
}

/// A path of a container's action whose id is not 64 lowercase hexadecimal
/// digits is not found, whatever the action, the method and the query.
pub proof fn malformed_id_is_not_found(
    method: Method,
    id: Seq<char>,
    action: Seq<char>,
    target: Option<Seq<char>>,
)
    requires
        !is_container_id(id),
    ensures
        route_for(method, action_path(id, action), target) == RouteModel::NotFound,
{
    let p = action_path(id, action);
    action_path_is_no_plain_path(id, action);
    match container_path(p) {
        None => {},
        Some(found) => {
            assert(found.0 == p.subrange(18, 82));
            assert(found.1 == p.skip(83));
            if id.len() < 64 {
                assert(found.0[id.len() as int] == p[18 + id.len() as int]);
                assert(!is_hex('/'));
            } else if id.len() == 64 {
                assert(found.0 =~= id);
            } else {
                let k = id.len() - 65;
                assert(found.1[k] == p[18 + id.len() as int]);
                if is_known_action(found.1) {
                    known_actions_hold_no_slash(found.1, k);
                }
            }
        },
    }
}

/// A path of a container's action with a well-formed id and an action that
/// no handler answers is not found, whatever the method and the query.
pub proof fn unknown_action_is_not_found(
    method: Method,
    id: Seq<char>,
    action: Seq<char>,
    target: Option<Seq<char>>,
)
    requires
        is_container_id(id),
        !is_known_action(action),
    ensures
        route_for(method, action_path(id, action), target) == RouteModel::NotFound,
{
    let p = action_path(id, action);
    action_path_is_no_plain_path(id, action);
    assert(p.subrange(18, 82) =~= id);
    assert(p.skip(83) =~= action);
}

/// A path of a container's action with a well-formed id and a known action
/// is answered by that action's handler for that id, whatever the method and
/// the query.
pub proof fn known_action_is_routed(
    method: Method,
    id: Seq<char>,
    action: Seq<char>,
    target: Option<Seq<char>>,
)
    requires
        is_container_id(id),
        is_known_action(action),
    ensures
        route_for(method, action_path(id, action), target) == action_route(id, action),
        action_route(id, action) != RouteModel::NotFound,
{
    let p = action_path(id, action);
    action_path_is_no_plain_path(id, action);
    assert(p.subrange(18, 82) =~= id);
    assert(p.skip(83) =~= action);
}

} // verus!
