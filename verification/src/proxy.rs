//! Requests that are passed on to other servers: which server a path leads to,
//! and what becomes of its reply.

use vstd::prelude::*;
use vstd::string::*;

use crate::acme::opt_view;
use crate::text;

verus! {

/// One route: the paths that begin with `prefix` lead to `upstream`.
#[derive(Debug)]
struct Route {
    prefix: String,
    upstream: String,
}

/// The routes to other servers. Seen from outside, a map from the beginnings
/// of paths to the servers that they lead to.
#[derive(Debug)]
pub struct ReverseProxy {
    routes: Vec<Route>,
}

impl View for ReverseProxy {
    type V = Map<Seq<char>, Seq<char>>;

    closed spec fn view(&self) -> Map<Seq<char>, Seq<char>> {
        Map::new(
            |k: Seq<char>| exists|i: int| self.leads(i, k),
            |k: Seq<char>| self.routes@[choose|i: int| self.leads(i, k)].upstream@,
        )
    }
}

/// The server that the longest route of a path leads to, among the routes with
/// at most `n` characters.
pub open spec fn longest_route(
    routes: Map<Seq<char>, Seq<char>>,
    path: Seq<char>,
    n: nat,
) -> Option<Seq<char>>
    recommends
        n <= path.len(),
    decreases n,
{
    if routes.dom().contains(path.take(n as int)) {
        Some(routes[path.take(n as int)])
    } else if n == 0 {
        None
    } else {
        longest_route(routes, path, (n - 1) as nat)
    }
}

/// The server that a path leads to: that of the longest route with which the
/// path begins.
pub open spec fn upstream_of(routes: Map<Seq<char>, Seq<char>>, path: Seq<char>) -> Option<
    Seq<char>,
> {
    longest_route(routes, path, path.len())
}

/// A route of the path, and no longer one, decides.
proof fn lemma_longest_route_found(
    routes: Map<Seq<char>, Seq<char>>,
    path: Seq<char>,
    n: nat,
    best: nat,
)
    requires
        best <= n <= path.len(),
        routes.dom().contains(path.take(best as int)),
        forall|m: int| best < m <= n ==> !routes.dom().contains(#[trigger] path.take(m)),
    ensures
        longest_route(routes, path, n) == Some(routes[path.take(best as int)]),
    decreases n,
{
    if n > best {
        lemma_longest_route_found(routes, path, (n - 1) as nat, best);
    }
}

/// Without a route of the path, it leads nowhere.
proof fn lemma_longest_route_none(routes: Map<Seq<char>, Seq<char>>, path: Seq<char>, n: nat)
    requires
        n <= path.len(),
        forall|m: int| 0 <= m <= n ==> !routes.dom().contains(#[trigger] path.take(m)),
    ensures
        longest_route(routes, path, n) is None,
    decreases n,
{
    assert(!routes.dom().contains(path.take(n as int)));
    if n > 0 {
        lemma_longest_route_none(routes, path, (n - 1) as nat);
    }
}

impl ReverseProxy {
    /// Whether the route at a position is that of a prefix.
    closed spec fn leads(&self, i: int, prefix: Seq<char>) -> bool {
        0 <= i < self.routes@.len() && self.routes@[i].prefix@ == prefix
    }

    /// Whether no two routes have the same prefix.
    pub closed spec fn wf(&self) -> bool {
        forall|i: int, j: int|
            0 <= i < j < self.routes@.len() ==> #[trigger] self.routes@[i].prefix@
                != #[trigger] self.routes@[j].prefix@
    }

    /// What the route at a position says of the map.
    proof fn lemma_route(&self, i: int)
        requires
            self.wf(),
            0 <= i < self.routes@.len(),
        ensures
            self@.dom().contains(self.routes@[i].prefix@),
            self@[self.routes@[i].prefix@] == self.routes@[i].upstream@,
    {
        let k = self.routes@[i].prefix@;
        assert(self.leads(i, k));
        let j = choose|j: int| self.leads(j, k);
        assert(self.leads(j, k));
        assert(i == j);
    }

    /// No routes.
    pub fn new() -> (proxy: Self)
        ensures
            proxy.wf(),
            proxy@ == Map::<Seq<char>, Seq<char>>::empty(),
    {
        let proxy: ReverseProxy = ReverseProxy { routes: Vec::new() };
        proof {
            assert forall|k: Seq<char>| !proxy@.dom().contains(k) by {
                assert(forall|i: int| !proxy.leads(i, k));
            }
            assert(proxy@ =~= Map::<Seq<char>, Seq<char>>::empty());
        }
        proxy
    }

    /// The position of the route of a prefix.
    fn position(&self, prefix: &String) -> (at: Option<usize>)
        ensures
            match at {
                Some(i) => self.leads(i as int, prefix@),
                None => forall|i: int| !self.leads(i, prefix@),
            },
    {
        let mut i: usize = 0;
        while i < self.routes.len()
            invariant
                i <= self.routes@.len(),
                forall|j: int| 0 <= j < i ==> !self.leads(j, prefix@),
            decreases self.routes@.len() - i,
        {
            if self.routes[i].prefix == *prefix {
                return Some(i);
            }
            i += 1;
        }
        None
    }

    /// Lets the paths that begin with `path` lead to `upstream`. A route that
    /// was there for `path` is replaced.
    pub fn add_route(&mut self, path: &str, upstream: &str)
        requires
            old(self).wf(),
        ensures
            final(self).wf(),
            final(self)@ == old(self)@.insert(path@, upstream@),
    {
        let prefix: String = path.to_string();
        let at: Option<usize> = self.position(&prefix);
        let route: Route = Route { prefix, upstream: upstream.to_string() };
        let ghost slot: int = match at {
            Some(i) => i as int,
            None => self.routes@.len() as int,
        };
        match at {
            Some(i) => self.routes.set(i, route),
            None => self.routes.push(route),
        }
        proof {
            let before = *old(self);
            let after = *self;
            assert forall|i: int|
                0 <= i < after.routes@.len() && i != slot implies #[trigger] after.routes@[i]
                == before.routes@[i] && before.routes@[i].prefix@ != path@ by {
                if before.routes@[i].prefix@ == path@ {
                    assert(before.leads(i, path@));
                    assert(before.leads(slot, path@));
                }
            }
            assert(after.wf());
            after.lemma_route(slot);
            assert forall|k: Seq<char>| #[trigger]
                after@.dom().contains(k) == before@.insert(path@, upstream@).dom().contains(k) by {
                if k != path@ {
                    if after@.dom().contains(k) {
                        let i = choose|i: int| after.leads(i, k);
                        assert(after.leads(i, k));
                        assert(after.routes@[i] == before.routes@[i]);
                        assert(before.leads(i, k));
                    }
                    if before@.dom().contains(k) {
                        let i = choose|i: int| before.leads(i, k);
                        assert(before.leads(i, k));
                        assert(after.routes@[i] == before.routes@[i]);
                        assert(after.leads(i, k));
                    }
                }
            }
            assert forall|k: Seq<char>| #[trigger]
                after@.dom().contains(k) implies after@[k] == before@.insert(
                path@,
                upstream@,
            )[k] by {
                let i = choose|i: int| after.leads(i, k);
                assert(after.leads(i, k));
                after.lemma_route(i);
                if k != path@ {
                    assert(after.routes@[i] == before.routes@[i]);
                    before.lemma_route(i);
                }
            }
            assert(after@ =~= before@.insert(path@, upstream@));
        }
    }

    /// The server that a path leads to.
    pub fn get_upstream(&self, path: &str) -> (upstream: Option<String>)
        requires
            self.wf(),
        ensures
            match upstream {
                Some(u) => upstream_of(self@, path@) == Some(u@),
                None => upstream_of(self@, path@) is None,
            },
    {
        let mut best: Option<usize> = None;
        let mut best_len: usize = 0;
        let mut i: usize = 0;
        while i < self.routes.len()
            invariant
                i <= self.routes@.len(),
                best matches Some(b) ==> b < i && self.routes@[b as int].prefix@.is_prefix_of(path@)
                    && best_len == self.routes@[b as int].prefix@.len(),
                forall|j: int|
                    0 <= j < i && (#[trigger] self.routes@[j]).prefix@.is_prefix_of(path@)
                        ==> best is Some && self.routes@[j].prefix@.len() <= best_len,
            decreases self.routes@.len() - i,
        {
            if text::starts_with(path, self.routes[i].prefix.as_str()) {
                let len: usize = self.routes[i].prefix.as_str().unicode_len();
                if best.is_none() || len > best_len {
                    best = Some(i);
                    best_len = len;
                }
            }
            i += 1;
        }
        proof {
            assert forall|m: int|
                0 <= m <= path@.len() && (best is None || best_len < m) implies !self@.dom().contains(
                #[trigger] path@.take(m),
            ) by {
                if self@.dom().contains(path@.take(m)) {
                    let j = choose|j: int| self.leads(j, path@.take(m));
                    assert(self.leads(j, path@.take(m)));
                    assert(self.routes@[j].prefix@.is_prefix_of(path@));
                }
            }
            match best {
                Some(b) => {
                    let k = self.routes@[b as int].prefix@;
                    assert(k == path@.take(best_len as int));
                    self.lemma_route(b as int);
                    lemma_longest_route_found(self@, path@, path@.len(), best_len as nat);
                },
                None => {
                    lemma_longest_route_none(self@, path@, path@.len());
                },
            }
        }
        match best {
            Some(b) => Some(self.routes[b].upstream.clone()),
            None => None,
        }
    }
}

impl Default for ReverseProxy {
    /// No routes.
    fn default() -> (proxy: Self)
        ensures
            proxy.wf(),
            proxy@ == Map::<Seq<char>, Seq<char>>::empty(),
    {
        ReverseProxy::new()
    }
}

/// A path leads to the server of a route exactly where it begins with that
/// route and with no longer one, and nowhere exactly where it begins with none.
pub proof fn law_longest_route_wins(routes: Map<Seq<char>, Seq<char>>, path: Seq<char>)
    ensures
        upstream_of(routes, path) is None <==> forall|k: Seq<char>| #[trigger]
            routes.dom().contains(k) ==> !k.is_prefix_of(path),
        forall|k: Seq<char>| #[trigger]
            routes.dom().contains(k) && k.is_prefix_of(path) && (forall|other: Seq<char>| #[trigger]
                routes.dom().contains(other) && other.is_prefix_of(path) ==> other.len() <= k.len())
                ==> upstream_of(routes, path) == Some(routes[k]),
{
    if upstream_of(routes, path) is None {
        assert forall|k: Seq<char>| #[trigger] routes.dom().contains(k) implies !k.is_prefix_of(
            path,
        ) by {
            if k.is_prefix_of(path) {
                lemma_longest_route_some(routes, path, path.len(), k);
            }
        }
    }
    if forall|k: Seq<char>| #[trigger] routes.dom().contains(k) ==> !k.is_prefix_of(path) {
        assert forall|m: int| 0 <= m <= path.len() implies !routes.dom().contains(
            #[trigger] path.take(m),
        ) by {
            assert(path.take(m).is_prefix_of(path));
        }
        lemma_longest_route_none(routes, path, path.len());
    }
    assert forall|k: Seq<char>| #[trigger]
        routes.dom().contains(k) && k.is_prefix_of(path) && (forall|other: Seq<char>| #[trigger]
            routes.dom().contains(other) && other.is_prefix_of(path) ==> other.len()
                <= k.len()) implies upstream_of(routes, path) == Some(routes[k]) by {
        assert(k == path.take(k.len() as int));
        assert forall|m: int| k.len() < m <= path.len() implies !routes.dom().contains(
            #[trigger] path.take(m),
        ) by {
            assert(path.take(m).is_prefix_of(path));
        }
        lemma_longest_route_found(routes, path, path.len(), k.len());
    }
}

/// With a route of the path, it leads somewhere.
proof fn lemma_longest_route_some(
    routes: Map<Seq<char>, Seq<char>>,
    path: Seq<char>,
    n: nat,
    k: Seq<char>,
)
    requires
        routes.dom().contains(k),
        k.is_prefix_of(path),
        k.len() <= n <= path.len(),
    ensures
        longest_route(routes, path, n) is Some,
    decreases n,
{
    if n == k.len() {
        assert(path.take(n as int) == k);
    } else if !routes.dom().contains(path.take(n as int)) {
        lemma_longest_route_some(routes, path, (n - 1) as nat, k);
    }
}

/// A route that was added is the one that its own path leads by, whatever
/// other routes there are.
pub proof fn law_added_route_is_found(
    routes: Map<Seq<char>, Seq<char>>,
    path: Seq<char>,
    upstream: Seq<char>,
)
    ensures
        upstream_of(routes.insert(path, upstream), path) == Some(upstream),
{
    assert(path.take(path.len() as int) == path);
}

/// Adding a route changes nothing for a path that does not begin with it.
pub proof fn law_added_route_leaves_others(
    routes: Map<Seq<char>, Seq<char>>,
    route: Seq<char>,
    upstream: Seq<char>,
    path: Seq<char>,
)
    requires
        !route.is_prefix_of(path),
    ensures
        upstream_of(routes.insert(route, upstream), path) == upstream_of(routes, path),
{
    lemma_other_route(routes, route, upstream, path, path.len());
}

/// Adding a route changes nothing for a path that does not begin with it, up
/// to any length.
proof fn lemma_other_route(
    routes: Map<Seq<char>, Seq<char>>,
    route: Seq<char>,
    upstream: Seq<char>,
    path: Seq<char>,
    n: nat,
)
    requires
        !route.is_prefix_of(path),
        n <= path.len(),
    ensures
        longest_route(routes.insert(route, upstream), path, n) == longest_route(routes, path, n),
    decreases n,
{
    assert(path.take(n as int).is_prefix_of(path));
    if n > 0 {
        lemma_other_route(routes, route, upstream, path, (n - 1) as nat);
    }
}

/// What passing on a request waits for.
#[derive(Clone, Copy, Debug, PartialEq, Eq, Structural)]
pub enum Exchange {
    /// The beginning of the reply.
    Sending,
    /// The body of a reply with this status.
    Receiving { status: u16 },
}

/// Something to do to pass on a request.
#[derive(Debug)]
pub enum ProxyAction {
    /// Get what stands at an address.
    Get { uri: String },
    /// Read the body of the reply.
    ReadBody,
}

/// The mathematical content of [`ProxyAction`].
pub enum ProxyActionView {
    Get { uri: Seq<char> },
    ReadBody,
}

impl View for ProxyAction {
    type V = ProxyActionView;

    open spec fn view(&self) -> ProxyActionView {
        match self {
            ProxyAction::Get { uri } => ProxyActionView::Get { uri: uri@ },
            ProxyAction::ReadBody => ProxyActionView::ReadBody,
        }
    }
}

/// What came of passing on a request.
#[derive(Debug)]
pub enum ProxyEvent {
    /// A reply with this status began.
    Replied { status: u16 },
    /// The body of the reply.
    Body(Vec<u8>),
    /// The server could not be asked, or its reply not be read; the text says
    /// why.
    Failed(String),
}

/// The mathematical content of [`ProxyEvent`].
pub enum ProxyEventView {
    Replied { status: u16 },
    Body(Seq<u8>),
    Failed(Seq<char>),
}

impl View for ProxyEvent {
    type V = ProxyEventView;

    open spec fn view(&self) -> ProxyEventView {
        match self {
            ProxyEvent::Replied { status } => ProxyEventView::Replied { status: *status },
            ProxyEvent::Body(body) => ProxyEventView::Body(body@),
            ProxyEvent::Failed(why) => ProxyEventView::Failed(why@),
        }
    }
}

/// The reply that is passed back.
#[derive(Debug)]
pub struct ProxyResponse {
    pub status: u16,
    pub body: Vec<u8>,
}

/// The mathematical content of [`ProxyResponse`].
pub struct ProxyResponseView {
    pub status: u16,
    pub body: Seq<u8>,
}

impl View for ProxyResponse {
    type V = ProxyResponseView;

    open spec fn view(&self) -> ProxyResponseView {
        ProxyResponseView { status: self.status, body: self.body@ }
    }
}

/// Why there is no reply to pass back.
#[derive(Debug)]
pub enum ProxyError {
    /// The server could not be asked, or its reply not be read.
    Upstream(String),
    /// The status of the reply is none of HTTP.
    InvalidStatus,
}

/// The mathematical content of [`ProxyError`].
pub enum ProxyErrorView {
    Upstream(Seq<char>),
    InvalidStatus,
}

impl View for ProxyError {
    type V = ProxyErrorView;

    open spec fn view(&self) -> ProxyErrorView {
        match self {
            ProxyError::Upstream(why) => ProxyErrorView::Upstream(why@),
            ProxyError::InvalidStatus => ProxyErrorView::InvalidStatus,
        }
    }
}

/// What follows from an event: another action, or the end.
#[derive(Debug)]
pub enum ProxyProgress {
    Continue(Exchange, ProxyAction),
    Finished(Result<ProxyResponse, ProxyError>),
}

/// The mathematical content of [`ProxyProgress`].
pub enum ProxyProgressView {
    Continue(Exchange, ProxyActionView),
    Finished(Result<ProxyResponseView, ProxyErrorView>),
}

impl View for ProxyProgress {
    type V = ProxyProgressView;

    open spec fn view(&self) -> ProxyProgressView {
        match self {
            ProxyProgress::Continue(exchange, action) => ProxyProgressView::Continue(
                *exchange,
                action@,
            ),
            ProxyProgress::Finished(Ok(response)) => ProxyProgressView::Finished(Ok(response@)),
            ProxyProgress::Finished(Err(e)) => ProxyProgressView::Finished(Err(e@)),
        }
    }
}

/// Whether a number is a status of HTTP.
pub open spec fn is_status(code: u16) -> bool {
    100 <= code < 1000
}

impl Exchange {
    /// Whether an event answers what is waited for.
    pub open spec fn accepts(self, event: ProxyEventView) -> bool {
        match self {
            Exchange::Sending => event is Replied || event is Failed,
            Exchange::Receiving { .. } => event is Body || event is Failed,
        }
    }

    /// Whether an event answers what is waited for.
    pub fn takes(&self, event: &ProxyEvent) -> (fits: bool)
        ensures
            fits == self.accepts(event@),
    {
        match self {
            Exchange::Sending => matches!(event, ProxyEvent::Replied { .. }) || matches!(
                event,
                ProxyEvent::Failed(_)
            ),
            Exchange::Receiving { .. } => matches!(event, ProxyEvent::Body(_)) || matches!(
                event,
                ProxyEvent::Failed(_)
            ),
        }
    }
}

/// What an event means for a request that is passed on. The status and the body
/// of the reply are passed back as they are.
pub open spec fn exchange_next(exchange: Exchange, event: ProxyEventView) -> ProxyProgressView {
    match (exchange, event) {
        (Exchange::Sending, ProxyEventView::Replied { status }) => if is_status(status) {
            ProxyProgressView::Continue(Exchange::Receiving { status }, ProxyActionView::ReadBody)
        } else {
            ProxyProgressView::Finished(Err(ProxyErrorView::InvalidStatus))
        },
        (Exchange::Receiving { status }, ProxyEventView::Body(body)) =>
            ProxyProgressView::Finished(Ok(ProxyResponseView { status, body })),
        (_, ProxyEventView::Failed(why)) => ProxyProgressView::Finished(
            Err(ProxyErrorView::Upstream(why)),
        ),
        _ => arbitrary(),
    }
}

/// The address that a request is passed on to: the server's, and behind it the
/// path and query of the request, if it has them.
pub open spec fn upstream_uri(path_and_query: Option<Seq<char>>, upstream: Seq<char>) -> Seq<char> {
    match path_and_query {
        Some(p) => upstream + p,
        None => upstream,
    }
}

/// `axum::http::status::InvalidStatusCode`, the error of
/// `axum::http::StatusCode::from_u16`.
#[verifier::external_type_specification]
#[verifier::external_body]
pub struct ExInvalidStatusCode(axum::http::status::InvalidStatusCode);

/// Checks a status with `axum::http::StatusCode::from_u16`: it takes the
/// numbers from 100 to 999, and leaves them as they are.
#[verifier::external_body]
fn check_status(code: u16) -> (status: Result<u16, axum::http::status::InvalidStatusCode>)
    ensures
        status is Ok == is_status(code),
        status matches Ok(s) ==> s == code,
{
    axum::http::StatusCode::from_u16(code).map(|status| status.as_u16())
}

/// Begins to pass on a request, given its path and query, to a server.
pub fn proxy_request(path_and_query: Option<String>, upstream: String) -> (begun: (
    Exchange,
    ProxyAction,
))
    ensures
        begun.0 == Exchange::Sending,
        begun.1@ == (ProxyActionView::Get {
            uri: upstream_uri(opt_view(path_and_query), upstream@),
        }),
{
    let uri: String = match path_and_query {
        Some(p) => upstream.concat(p.as_str()),
        None => upstream,
    };
    (Exchange::Sending, ProxyAction::Get { uri })
}

/// Goes on passing on a request after an event.
pub fn step_exchange(exchange: Exchange, event: ProxyEvent) -> (progress: ProxyProgress)
    requires
        exchange.accepts(event@),
    ensures
        progress@ == exchange_next(exchange, event@),
{
    match (exchange, event) {
        (Exchange::Sending, ProxyEvent::Replied { status }) => match check_status(status) {
            Ok(code) => ProxyProgress::Continue(
                Exchange::Receiving { status: code },
                ProxyAction::ReadBody,
            ),
            Err(_) => ProxyProgress::Finished(Err(ProxyError::InvalidStatus)),
        },
        (Exchange::Receiving { status }, ProxyEvent::Body(body)) => ProxyProgress::Finished(
            Ok(ProxyResponse { status, body }),
        ),
        (_, ProxyEvent::Failed(why)) => ProxyProgress::Finished(Err(ProxyError::Upstream(why))),
        _ => vstd::pervasive::unreached(),
    }
}

/// What a server replied is passed back unchanged: its status, where that is
/// one of HTTP, and its body.
pub proof fn law_reply_is_passed_back(status: u16, body: Seq<u8>)
    requires
        is_status(status),
    ensures
        exchange_next(Exchange::Sending, ProxyEventView::Replied { status }) matches
            ProxyProgressView::Continue(next, action) && action is ReadBody && exchange_next(
            next,
            ProxyEventView::Body(body),
        ) == ProxyProgressView::Finished(Ok(ProxyResponseView { status, body })),
{
}

/// A request is passed on to the server's address, with the path and query of
/// the request behind it and nothing else.
pub proof fn law_request_keeps_its_path(path_and_query: Seq<char>, upstream: Seq<char>)
    ensures
        upstream_uri(None, upstream) == upstream,
        upstream_uri(Some(path_and_query), upstream).len() == upstream.len() + path_and_query.len(),
        upstream_uri(Some(path_and_query), upstream).take(upstream.len() as int) == upstream,
        upstream_uri(Some(path_and_query), upstream).skip(upstream.len() as int) == path_and_query,
{
    let uri = upstream_uri(Some(path_and_query), upstream);
    assert(uri.take(upstream.len() as int) == upstream);
    assert(uri.skip(upstream.len() as int) == path_and_query);
}

/// The body of a reply is asked for exactly where its status has three digits,
/// and the status that is passed back is the one that came. Why a server could
/// not be asked, or its reply not be read, is what is reported.
pub proof fn law_replies(status: u16, body: Seq<u8>, why: Seq<char>)
    ensures
        100 <= status <= 999 ==> exchange_next(
            Exchange::Sending,
            ProxyEventView::Replied { status },
        ) == ProxyProgressView::Continue(
            Exchange::Receiving { status },
            ProxyActionView::ReadBody,
        ),
        !(100 <= status <= 999) ==> exchange_next(
            Exchange::Sending,
            ProxyEventView::Replied { status },
        ) == ProxyProgressView::Finished(Err(ProxyErrorView::InvalidStatus)),
        exchange_next(Exchange::Receiving { status }, ProxyEventView::Body(body))
            == ProxyProgressView::Finished(Ok(ProxyResponseView { status, body })),
        exchange_next(Exchange::Sending, ProxyEventView::Failed(why))
            == ProxyProgressView::Finished(Err(ProxyErrorView::Upstream(why))),
        exchange_next(Exchange::Receiving { status }, ProxyEventView::Failed(why))
            == ProxyProgressView::Finished(Err(ProxyErrorView::Upstream(why))),
{
}

/// The beginning of a reply is waited for before its body, and a failure may
/// come in place of either.
pub proof fn law_answers_that_an_exchange_accepts(exchange: Exchange, event: ProxyEventView)
    ensures
        exchange.accepts(event) <==> match event {
            ProxyEventView::Replied { .. } => exchange is Sending,
            ProxyEventView::Body(_) => exchange is Receiving,
            ProxyEventView::Failed(_) => true,
        },
{
}

} // verus!
