//! The route handlers and the auth middleware. Handlers are functions from the
//! per-request context and the request to a response; only the middleware
//! touches the session codec, decoding the incoming token into an identity
//! before the handler runs and re-encoding the identity afterwards when the
//! handler changed it.

use vstd::prelude::*;
use crate::http::{css_v, redirect_v, css_response, redirect_response, HttpResponse, HttpResponseV};
use crate::pages::{
    home_page_v,
    login_page_v,
    invalid_msg,
    internal_msg,
    home_page,
    login_page,
};
use crate::session::{decoded_identity, Identity, SessionCodec};
use crate::sqlstore::{SqlStore, StoreError};
use crate::store::{lookup_spec, CredentialStore, CredentialV};

verus! {

/// A request, as far as the auth boundary reads one: which route it asks for,
/// and for the login submission, the two form fields (a field that was absent
/// or not a plain string arrives as nothing).
pub enum Route {
    Home,
    Style,
    LoginForm,
    LoginPost { username: Option<String>, password: Option<String> },
    Logout,
}

/// Mathematical image of a [`Route`].
pub enum RouteV {
    Home,
    Style,
    LoginForm,
    LoginPost { username: Option<Seq<char>>, password: Option<Seq<char>> },
    Logout,
}

impl View for Route {
    type V = RouteV;

    open spec fn view(&self) -> RouteV {
        match self {
            Route::Home => RouteV::Home,
            Route::Style => RouteV::Style,
            Route::LoginForm => RouteV::LoginForm,
            Route::LoginPost { username, password } => RouteV::LoginPost {
                username: match username {
                    Some(u) => Some(u@),
                    None => None,
                },
                password: match password {
                    Some(p) => Some(p@),
                    None => None,
                },
            },
            Route::Logout => RouteV::Logout,
        }
    }
}

/// The per-request context: the identity the middleware decoded, which a
/// handler may read, set or clear.
pub struct RequestContext {
    pub identity: Option<Identity>,
}

impl View for RequestContext {
    type V = Option<Seq<char>>;

    open spec fn view(&self) -> Option<Seq<char>> {
        match self.identity {
            Some(id) => Some(id@),
            None => None,
        }
    }
}

/// What the home route serves: the home page when the identity is present and
/// non-empty, a redirect to the login form otherwise. The identity is left as
/// it was.
pub open spec fn home_response_v(ident: Option<Seq<char>>) -> HttpResponseV {
    match ident {
        Some(u) => if u.len() == 0 {
            redirect_v("/login"@)
        } else {
            home_page_v(u)
        },
        None => redirect_v("/login"@),
    }
}

/// What one request does, given the store's rows, the stylesheet, the identity
/// attached to the request, and the route: the response, and the identity the
/// request leaves behind.
pub open spec fn step_spec(
    rows: Seq<CredentialV>,
    stylesheet: Seq<char>,
    ident: Option<Seq<char>>,
    route: RouteV,
) -> (HttpResponseV, Option<Seq<char>>) {
    match route {
        RouteV::Home => (home_response_v(ident), ident),
        RouteV::Style => (css_v(stylesheet), ident),
        RouteV::LoginForm => (login_page_v(""@), ident),
        RouteV::LoginPost { username, password } => match (username, password) {
            (Some(u), Some(p)) => match lookup_spec(rows, u, p) {
                Some(su) => (redirect_v("/"@), Some(su)),
                None => (login_page_v(invalid_msg()), ident),
            },
            _ => (login_page_v(invalid_msg()), ident),
        },
        RouteV::Logout => (redirect_v("/login"@), None),
    }
}

/// Serves the home route for the identity at hand.
pub fn home_route(ctx: &RequestContext) -> (r: HttpResponse)
    ensures
        r@ == home_response_v(ctx@),
{
    match &ctx.identity {
        Some(id) => if id.username.as_str().is_empty() {
            redirect_response("/login")
        } else {
            home_page(&id.username)
        },
        None => redirect_response("/login"),
    }
}

/// Turns the outcome of a credential lookup into the login response: a match
/// signs the session in as the stored username and redirects home; no match
/// renders the login page with the generic invalid-credentials message; a
/// store failure renders it with a distinct internal-error message, so that
/// neither case leaks which field was wrong. Only a match touches the
/// identity.
pub fn login_decision(outcome: Result<Option<String>, StoreError>, ctx: &mut RequestContext) -> (r:
    HttpResponse)
    ensures
        (match outcome {
            Ok(Some(u)) => r@ == redirect_v("/"@) && final (ctx)@ == Some(u@),
            Ok(None) => r@ == login_page_v(invalid_msg()) && final (ctx)@ == old(ctx)@,
            Err(_) => r@ == login_page_v(internal_msg()) && final (ctx)@ == old(ctx)@,
        }),
{
    match outcome {
        Ok(Some(username)) => {
            ctx.identity = Some(Identity { username });
            redirect_response("/")
        },
        Ok(None) => login_page("Invalid username/password"),
        Err(_) => login_page("internal server error"),
    }
}

/// Dispatches one request against an in-memory credential store: exactly
/// [`step_spec`] of the store's rows, the request's identity and the route.
pub fn dispatch(
    store: &CredentialStore,
    stylesheet: &str,
    ctx: &mut RequestContext,
    route: &Route,
) -> (r: HttpResponse)
    ensures
        ({
            let (rv, ident_out) = step_spec(store@, stylesheet@, old(ctx)@, route@);
            r@ == rv && final (ctx)@ == ident_out
        }),
{
    match route {
        Route::Home => home_route(ctx),
        Route::Style => css_response(stylesheet),
        Route::LoginForm => login_page(""),
        Route::LoginPost { username, password } => match (username, password) {
            (Some(u), Some(p)) => {
                let outcome = store.verify(u, p);
                login_decision(Ok(outcome), ctx)
            },
            _ => login_page("Invalid username/password"),
        },
        Route::Logout => {
            ctx.identity = None;
            redirect_response("/login")
        },
    }
}

/// Dispatches one request against the persistent store, reopening the database
/// for each login submission as the login handler does, without re-running the
/// bootstrap script. Every route but the login submission behaves exactly as
/// [`step_spec`] says (no route but that one consults the store); the login
/// submission answers with one of its three outcomes — signed in and
/// redirected home, rejected with the invalid-credentials page, or the
/// internal-error page when the store cannot be reached — according to what
/// the database held.
pub fn dispatch_db(
    db_name: &String,
    stylesheet: &str,
    ctx: &mut RequestContext,
    route: &Route,
) -> (r: HttpResponse)
    ensures
        !(route@ matches RouteV::LoginPost { .. }) ==> ({
            let (rv, ident_out) = step_spec(Seq::empty(), stylesheet@, old(ctx)@, route@);
            r@ == rv && final (ctx)@ == ident_out
        }),
        route@ matches RouteV::LoginPost { username, password } ==> (match (username, password) {
            (Some(u), Some(p)) => (r@ == redirect_v("/"@) && final (ctx)@ == Some(u)) || (r@
                == login_page_v(invalid_msg()) && final (ctx)@ == old(ctx)@) || (r@
                == login_page_v(internal_msg()) && final (ctx)@ == old(ctx)@),
            _ => r@ == login_page_v(invalid_msg()) && final (ctx)@ == old(ctx)@,
        }),
{
    match route {
        Route::Home => home_route(ctx),
        Route::Style => css_response(stylesheet),
        Route::LoginForm => login_page(""),
        Route::LoginPost { username, password } => match (username, password) {
            (Some(u), Some(p)) => match SqlStore::open(db_name, false) {
                Ok(store) => {
                    let outcome = store.verify(u, p);
                    login_decision(outcome, ctx)
                },
                Err(e) => login_decision(Err(e), ctx),
            },
            _ => login_page("Invalid username/password"),
        },
        Route::Logout => {
            ctx.identity = None;
            redirect_response("/login")
        },
    }
}

/// What the middleware does to the client's stored token once the handler has
/// run: leave it, issue a fresh one, or clear it.
pub enum TokenAction {
    Unchanged,
    Issue(Vec<u8>),
    Clear,
}

/// The incoming token as a sequence, when one arrived.
pub open spec fn token_view(token: Option<Vec<u8>>) -> Option<Seq<u8>> {
    match token {
        Some(t) => Some(t@),
        None => None,
    }
}

/// The identity an incoming token carries under `key`: none when no token
/// arrived, and whatever the token decodes to otherwise.
pub open spec fn incoming_identity(key: Seq<u8>, token: Option<Seq<u8>>) -> Option<Seq<char>> {
    match token {
        Some(t) => decoded_identity(key, t),
        None => None,
    }
}

/// The username an optional identity carries.
pub open spec fn ident_opt_view(ident: Option<Identity>) -> Option<Seq<char>> {
    match ident {
        Some(id) => Some(id@),
        None => None,
    }
}

/// That `action` records the step from identity `before` to identity
/// `current` faithfully under `key`: an unchanged identity leaves the client's
/// token alone (and nothing else does); a dropped identity clears it; a set or
/// replaced identity issues a fresh token sealing the new identity, or — only
/// as the degradation when sealing fails — clears it, never crashing and never
/// leaving a stale identity behind.
pub open spec fn action_seals(
    key: Seq<u8>,
    before: Option<Seq<char>>,
    current: Option<Seq<char>>,
    action: TokenAction,
) -> bool {
    &&& (current == before <==> action is Unchanged)
    &&& (current != before ==> match current {
        None => action is Clear,
        Some(u) => (action matches TokenAction::Issue(t) && decoded_identity(key, t@) == Some(u))
            || action is Clear,
    })
}

/// Whether two optional identities carry the same username.
fn same_identity(a: &Option<Identity>, b: &Option<Identity>) -> (r: bool)
    ensures
        r == (ident_opt_view(*a) == ident_opt_view(*b)),
{
    match (a, b) {
        (None, None) => true,
        (Some(x), Some(y)) => x.username == y.username,
        _ => false,
    }
}

/// What the middleware does once the handler has run: when the identity is
/// unchanged, the client's token is left alone; when the handler cleared it,
/// the token is cleared; when the handler set or replaced it, a fresh token
/// sealing the new identity is issued — or, should sealing fail, the token is
/// cleared, so a failure degrades to an anonymous session and never to a
/// crash or a stale identity.
pub fn seal_identity(
    codec: &SessionCodec,
    before: &Option<Identity>,
    current: &Option<Identity>,
) -> (r: TokenAction)
    requires
        codec.wf(),
    ensures
        action_seals(codec.key@, ident_opt_view(*before), ident_opt_view(*current), r),
{
    if same_identity(before, current) {
        TokenAction::Unchanged
    } else {
        match current {
            None => TokenAction::Clear,
            Some(id) => match codec.encode(id) {
                Some(t) => TokenAction::Issue(t),
                None => TokenAction::Clear,
            },
        }
    }
}

/// One whole request through the auth middleware: the incoming token is
/// decoded to the request's identity (a missing, damaged or forged token
/// counts as anonymous), the route is handled against the in-memory store, and
/// when — and only when — the handler changed the identity, the middleware
/// answers with the token action that records the change: a fresh token
/// sealing the new identity (or, should sealing fail, a cleared token, never a
/// crash), or a cleared token when the identity was dropped.
pub fn handle_request(
    codec: &SessionCodec,
    store: &CredentialStore,
    stylesheet: &str,
    token: Option<Vec<u8>>,
    route: &Route,
) -> (r: (HttpResponse, TokenAction))
    requires
        codec.wf(),
    ensures
        ({
            let ident_in = incoming_identity(codec.key@, token_view(token));
            let (rv, ident_out) = step_spec(store@, stylesheet@, ident_in, route@);
            &&& r.0@ == rv
            &&& action_seals(codec.key@, ident_in, ident_out, r.1)
        }),
{
    let ident_in: Option<Identity> = match &token {
        Some(t) => codec.decode(t),
        None => None,
    };
    let ident_before: Option<Identity> = match &ident_in {
        Some(id) => Some(Identity { username: id.username.clone() }),
        None => None,
    };
    let mut ctx = RequestContext { identity: ident_in };
    let response = dispatch(store, stylesheet, &mut ctx, route);
    let action = seal_identity(codec, &ident_before, &ctx.identity);
    (response, action)
}

/// One whole request through the auth middleware against the persistent store:
/// as [`handle_request`], but the login submission consults the database as
/// [`dispatch_db`] does. Every route but the login submission is pinned
/// exactly; the login submission answers with one of its three outcomes, and
/// whichever it is, the token action records the identity step it implies:
/// signed in as the submitted username with a token sealing it (unchanged when
/// the request already carried that identity), or rejected — with the invalid
/// or the internal message — with the identity and token untouched.
pub fn handle_request_db(
    codec: &SessionCodec,
    db_name: &String,
    stylesheet: &str,
    token: Option<Vec<u8>>,
    route: &Route,
) -> (r: (HttpResponse, TokenAction))
    requires
        codec.wf(),
    ensures
        ({
            let ident_in = incoming_identity(codec.key@, token_view(token));
            &&& !(route@ matches RouteV::LoginPost { .. }) ==> {
                let (rv, ident_out) = step_spec(Seq::empty(), stylesheet@, ident_in, route@);
                r.0@ == rv && action_seals(codec.key@, ident_in, ident_out, r.1)
            }
            &&& route@ matches RouteV::LoginPost { username, password } ==> (match (
                username,
                password,
            ) {
                (Some(u), Some(p)) => (r.0@ == redirect_v("/"@) && action_seals(
                    codec.key@,
                    ident_in,
                    Some(u),
                    r.1,
                )) || (r.0@ == login_page_v(invalid_msg()) && action_seals(
                    codec.key@,
                    ident_in,
                    ident_in,
                    r.1,
                )) || (r.0@ == login_page_v(internal_msg()) && action_seals(
                    codec.key@,
                    ident_in,
                    ident_in,
                    r.1,
                )),
                _ => r.0@ == login_page_v(invalid_msg()) && action_seals(
                    codec.key@,
                    ident_in,
                    ident_in,
                    r.1,
                ),
            })
        }),
{
    let ident_in: Option<Identity> = match &token {
        Some(t) => codec.decode(t),
        None => None,
    };
    let ident_before: Option<Identity> = match &ident_in {
        Some(id) => Some(Identity { username: id.username.clone() }),
        None => None,
    };
    let mut ctx = RequestContext { identity: ident_in };
    let response = dispatch_db(db_name, stylesheet, &mut ctx, route);
    let action = seal_identity(codec, &ident_before, &ctx.identity);
    (response, action)
}

} // verus!
