//! Page rendering: the home and login pages each come from a single template
//! with one named variable, substituted by handlebars. A variable the template
//! does not use renders as empty, and a rendering failure degrades to a plain
//! generic error page for that request only.

use vstd::prelude::*;
use crate::http::{html_v, html_response, HttpResponse, HttpResponseV, BodyKind};

verus! {

/// What handlebars renders from `template` with the variable `name` bound to
/// `value`: nothing when the template is rejected.
pub uninterp spec fn template_rendered(
    template: Seq<char>,
    name: Seq<char>,
    value: Seq<char>,
) -> Option<Seq<char>>;

/// Relies on handlebars::Handlebars::render_template with a one-entry data
/// map: deterministic in the template text, the variable name and its value.
#[verifier::external_body]
fn render_template_one(template: &str, name: &str, value: &str) -> (r: Option<String>)
    ensures
        r matches Some(s) ==> template_rendered(template@, name@, value@) == Some(s@),
        r is None ==> template_rendered(template@, name@, value@) is None,
{
    let registry = handlebars::Handlebars::new();
    let mut data = serde_json::Map::new();
    data.insert(String::from(name), serde_json::Value::String(String::from(value)));
    registry.render_template(template, &serde_json::Value::Object(data)).ok()
}

/// The home page template; `username` is its one variable.
pub open spec fn home_template() -> Seq<char> {
    "<html><head><title>Home</title><link rel=\"stylesheet\" href=\"/style\"></head><body><h1>Home</h1><p>Welcome, {{username}}!</p><p><a href=\"/logout\">Log out</a></p></body></html>"@
}

/// The login page template; `error` is its one variable.
pub open spec fn login_template() -> Seq<char> {
    "<html><head><title>Login</title><link rel=\"stylesheet\" href=\"/style\"></head><body><h1>Login</h1><p>{{error}}</p><form method=\"post\" action=\"/login\"><input name=\"username\" placeholder=\"username\"><input name=\"password\" type=\"password\" placeholder=\"password\"><button type=\"submit\">Log in</button></form></body></html>"@
}

/// The generic error body served when a template cannot be rendered.
pub open spec fn fallback_body() -> Seq<char> {
    "internal server error"@
}

/// The safe response for a request whose page failed to render.
pub open spec fn fallback_v() -> HttpResponseV {
    HttpResponseV {
        status: 500,
        content_type: BodyKind::Html,
        body: fallback_body(),
        location: None,
    }
}

/// The home page for `username`: the home template rendered with it, or the
/// safe fallback when rendering fails.
pub open spec fn home_page_v(username: Seq<char>) -> HttpResponseV {
    match template_rendered(home_template(), "username"@, username) {
        Some(b) => html_v(b),
        None => fallback_v(),
    }
}

/// The login page carrying `error`: the login template rendered with it, or
/// the safe fallback when rendering fails. The form itself is the page with an
/// empty error.
pub open spec fn login_page_v(error: Seq<char>) -> HttpResponseV {
    match template_rendered(login_template(), "error"@, error) {
        Some(b) => html_v(b),
        None => fallback_v(),
    }
}

/// The generic message shown for absent or mismatching credentials.
pub open spec fn invalid_msg() -> Seq<char> {
    "Invalid username/password"@
}

/// The message shown when the credential store cannot be reached.
pub open spec fn internal_msg() -> Seq<char> {
    "internal server error"@
}

/// The safe fallback response for a request whose template failed to render.
fn fallback_response() -> (r: HttpResponse)
    ensures
        r@ == fallback_v(),
{
    HttpResponse {
        status: 500,
        content_type: BodyKind::Html,
        body: String::from_str("internal server error"),
        location: None,
    }
}

/// Renders the home page for `username`.
pub fn home_page(username: &String) -> (r: HttpResponse)
    ensures
        r@ == home_page_v(username@),
{
    let template =
        "<html><head><title>Home</title><link rel=\"stylesheet\" href=\"/style\"></head><body><h1>Home</h1><p>Welcome, {{username}}!</p><p><a href=\"/logout\">Log out</a></p></body></html>";
    match render_template_one(template, "username", username.as_str()) {
        Some(body) => html_response(body.as_str()),
        None => fallback_response(),
    }
}

/// Renders the login page carrying `error`; an empty error renders the bare
/// form.
pub fn login_page(error: &str) -> (r: HttpResponse)
    ensures
        r@ == login_page_v(error@),
{
    let template =
        "<html><head><title>Login</title><link rel=\"stylesheet\" href=\"/style\"></head><body><h1>Login</h1><p>{{error}}</p><form method=\"post\" action=\"/login\"><input name=\"username\" placeholder=\"username\"><input name=\"password\" type=\"password\" placeholder=\"password\"><button type=\"submit\">Log in</button></form></body></html>";
    match render_template_one(template, "error", error) {
        Some(body) => html_response(body.as_str()),
        None => fallback_response(),
    }
}

} // verus!
