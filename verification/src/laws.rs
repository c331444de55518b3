//! The laws of the auth boundary, stated over the request step function
//! [`step_spec`] and the store's lookup, and proved for every store, every
//! stylesheet and every prior identity.

use vstd::prelude::*;
use crate::handlers::{step_spec, RouteV};
use crate::http::redirect_v;
use crate::pages::{home_page_v, invalid_msg, login_page_v};
use crate::store::{lemma_lookup_exact, lookup_spec, row_matches, CredentialV};

verus! {

/// A login submission with a pair the store holds (and a non-empty username)
/// redirects to the home route and signs the session in as that username,
/// whatever identity the request carried before; the home route then serves
/// that username's home page and keeps the identity.
pub proof fn lemma_login_then_home(
    rows: Seq<CredentialV>,
    stylesheet: Seq<char>,
    ident: Option<Seq<char>>,
    u: Seq<char>,
    p: Seq<char>,
)
    requires
        exists|i: int| 0 <= i < rows.len() && row_matches(rows, i, u, p),
        u.len() > 0,
    ensures
        ({
            let (r1, ident1) = step_spec(
                rows,
                stylesheet,
                ident,
                RouteV::LoginPost { username: Some(u), password: Some(p) },
            );
            &&& r1 == redirect_v("/"@)
            &&& ident1 == Some(u)
            &&& step_spec(rows, stylesheet, ident1, RouteV::Home).0 == home_page_v(u)
            &&& step_spec(rows, stylesheet, ident1, RouteV::Home).1 == ident1
        }),
{
    lemma_lookup_exact(rows, u, p);
}

/// A login submission with a pair the store does not hold renders the login
/// page with the generic invalid-credentials message and leaves an anonymous
/// request anonymous; the home route immediately after still redirects to the
/// login form.
pub proof fn lemma_rejected_login(
    rows: Seq<CredentialV>,
    stylesheet: Seq<char>,
    u: Seq<char>,
    p: Seq<char>,
)
    requires
        forall|i: int| 0 <= i < rows.len() ==> !row_matches(rows, i, u, p),
    ensures
        ({
            let (r1, ident1) = step_spec(
                rows,
                stylesheet,
                None,
                RouteV::LoginPost { username: Some(u), password: Some(p) },
            );
            &&& r1 == login_page_v(invalid_msg())
            &&& ident1 is None
            &&& step_spec(rows, stylesheet, ident1, RouteV::Home).0 == redirect_v("/login"@)
        }),
{
    lemma_lookup_exact(rows, u, p);
}

/// Logging out always clears the identity and redirects to the login form, and
/// the home route immediately after redirects there again — whatever the prior
/// authenticated state was.
pub proof fn lemma_logout_then_home(
    rows: Seq<CredentialV>,
    stylesheet: Seq<char>,
    ident: Option<Seq<char>>,
)
    ensures
        ({
            let (r1, ident1) = step_spec(rows, stylesheet, ident, RouteV::Logout);
            &&& r1 == redirect_v("/login"@)
            &&& ident1 is None
            &&& step_spec(rows, stylesheet, ident1, RouteV::Home).0 == redirect_v("/login"@)
            &&& step_spec(rows, stylesheet, ident1, RouteV::Home).1 is None
        }),
{
}

/// A login submission authenticates by literal match alone: it redirects home
/// exactly when some stored row equals the submitted username and password,
/// character for character — so quoting or query syntax inside a field counts
/// for nothing beyond its literal characters — and then the identity signed in
/// is the submitted username itself. Any other submission leaves the identity
/// alone and renders the invalid-credentials page.
pub proof fn lemma_literal_match_only(
    rows: Seq<CredentialV>,
    stylesheet: Seq<char>,
    ident: Option<Seq<char>>,
    u: Seq<char>,
    p: Seq<char>,
)
    ensures
        ({
            let (r1, ident1) = step_spec(
                rows,
                stylesheet,
                ident,
                RouteV::LoginPost { username: Some(u), password: Some(p) },
            );
            &&& (r1 == redirect_v("/"@) <==> exists|i: int|
                0 <= i < rows.len() && row_matches(rows, i, u, p))
            &&& (r1 == redirect_v("/"@) ==> ident1 == Some(u))
            &&& (!exists|i: int| 0 <= i < rows.len() && row_matches(rows, i, u, p)) ==> (r1
                == login_page_v(invalid_msg()) && ident1 == ident)
        }),
{
    lemma_lookup_exact(rows, u, p);
    let (r1, ident1) = step_spec(
        rows,
        stylesheet,
        ident,
        RouteV::LoginPost { username: Some(u), password: Some(p) },
    );
    if lookup_spec(rows, u, p) is None {
        assert(r1 == login_page_v(invalid_msg()));
        assert(r1.status != 302 ==> r1 != redirect_v("/"@));
        if login_page_v(invalid_msg()).status == 302 {
            assert(false);
        }
    }
}

} // verus!
