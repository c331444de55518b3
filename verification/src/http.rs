//! The slice of an HTTP response that the auth boundary decides: status,
//! content type, body, and the redirect location.

use vstd::prelude::*;

verus! {

/// Content type of a response body.
#[derive(Clone, Copy, PartialEq, Eq, Structural)]
pub enum BodyKind {
    Html,
    Css,
}

/// An HTTP response, as far as this library decides one: the status code,
/// the content type, the body, and an optional `Location` header.
pub struct HttpResponse {
    pub status: u16,
    pub content_type: BodyKind,
    pub body: String,
    pub location: Option<String>,
}

/// Mathematical image of an [`HttpResponse`].
#[verifier::ext_equal]
pub struct HttpResponseV {
    pub status: u16,
    pub content_type: BodyKind,
    pub body: Seq<char>,
    pub location: Option<Seq<char>>,
}

impl View for HttpResponse {
    type V = HttpResponseV;

    open spec fn view(&self) -> HttpResponseV {
        HttpResponseV {
            status: self.status,
            content_type: self.content_type,
            body: self.body@,
            location: match self.location {
                Some(l) => Some(l@),
                None => None,
            },
        }
    }
}

/// The spec-level successful HTML page: status 200, no redirect.
pub open spec fn html_v(body: Seq<char>) -> HttpResponseV {
    HttpResponseV { status: 200, content_type: BodyKind::Html, body, location: None }
}

/// The spec-level redirect: status 302 with a `Location` header and an empty body.
pub open spec fn redirect_v(location: Seq<char>) -> HttpResponseV {
    HttpResponseV {
        status: 302,
        content_type: BodyKind::Html,
        body: Seq::empty(),
        location: Some(location),
    }
}

/// The spec-level stylesheet response: status 200, `text/css`.
pub open spec fn css_v(body: Seq<char>) -> HttpResponseV {
    HttpResponseV { status: 200, content_type: BodyKind::Css, body, location: None }
}

/// A 200 `text/html` response holding `content`.
pub fn html_response(content: &str) -> (r: HttpResponse)
    ensures
        r@ == html_v(content@),
{
    HttpResponse {
        status: 200,
        content_type: BodyKind::Html,
        body: String::from_str(content),
        location: None,
    }
}

/// A 302 redirect to `location`, with an empty body.
pub fn redirect_response(location: &str) -> (r: HttpResponse)
    ensures
        r@ == redirect_v(location@),
{
    HttpResponse {
        status: 302,
        content_type: BodyKind::Html,
        body: String::new(),
        location: Some(String::from_str(location)),
    }
}

/// A 200 `text/css` response holding `content`.
pub fn css_response(content: &str) -> (r: HttpResponse)
    ensures
        r@ == css_v(content@),
{
    HttpResponse {
        status: 200,
        content_type: BodyKind::Css,
        body: String::from_str(content),
        location: None,
    }
}

} // verus!
