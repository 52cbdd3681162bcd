//! Routing a parsed request to its response.
//!
//! The rules, in priority order: a `GET` of the root path `/` is served
//! the fixed success page; any other request whose line parsed fully
//! (all three fields present) is served the fixed not-found page; every
//! remaining request is malformed and served the builder's default
//! bad-request page.

use vstd::prelude::*;
use vstd::string::*;

use crate::request::HttpMessage;
use crate::request::HttpVerb;
use crate::request::HttpVersion;
use crate::response::bad_request_body_text;
use crate::response::not_found_body_text;
use crate::response::ok_body_text;
use crate::response::HttpResponse;
use crate::response::HttpResponseBuilder;
use crate::response::HttpResponseCode;

verus! {

/// The path field holds exactly the root path `/`.
pub open spec fn spec_is_root(p: Option<String>) -> bool {
    match p {
        Some(p) => p@ == seq!['/'],
        None => false,
    }
}

/// The request line parsed fully: all three fields are present.
pub open spec fn spec_well_formed(m: HttpMessage) -> bool {
    m.http_verb is Some && m.http_version is Some && m.request_path is Some
}

/// The request asks for the root page: a fully parsed line whose verb
/// is `GET` and whose path is `/`.
pub open spec fn spec_routes_to_root(m: HttpMessage) -> bool {
    &&& spec_well_formed(m)
    &&& m.http_verb == Some(HttpVerb::Get)
    &&& spec_is_root(m.request_path)
}

/// The status code the routing rules pick for a request.
pub open spec fn spec_route_code(m: HttpMessage) -> HttpResponseCode {
    if spec_routes_to_root(m) {
        HttpResponseCode::Success
    } else if spec_well_formed(m) {
        HttpResponseCode::NotFound
    } else {
        HttpResponseCode::BadRequest
    }
}

/// The protocol version the routing rules pick for a request.
pub open spec fn spec_route_version(m: HttpMessage) -> HttpVersion {
    if spec_well_formed(m) {
        HttpVersion::V1_1
    } else {
        HttpVersion::V1_0
    }
}

/// The body the routing rules pick for a request.
pub open spec fn spec_route_body(m: HttpMessage) -> Seq<char> {
    if spec_routes_to_root(m) {
        ok_body_text()
    } else if spec_well_formed(m) {
        not_found_body_text()
    } else {
        bad_request_body_text()
    }
}

impl HttpMessage {
    /// The response the routing rules owe this request.  The `Server`
    /// and `Content-Type` headers always hold the builder defaults;
    /// the code, version and body follow the routing rules exactly.
    pub fn process(&self) -> (r: HttpResponse)
        ensures
            r.http_response_code == spec_route_code(*self),
            r.http_version == spec_route_version(*self),
            r.body@ == spec_route_body(*self),
            r.http_options.server@ == crate::response::default_server_text(),
            r.http_options.content_type@ == crate::response::default_content_type_text(),
    {
        let is_root_get = match (&self.http_verb, &self.request_path) {
            (Some(HttpVerb::Get), Some(p)) => {
                let ps = p.as_str();
                let hit = ps.unicode_len() == 1 && ps.get_char(0) == '/';
                proof {
                    assert(self.http_verb == Some(HttpVerb::Get));
                    assert(self.request_path == Some(*p));
                    if hit {
                        assert(p@ =~= seq!['/']);
                    } else if p@ == seq!['/'] {
                        assert(p@.len() == 1);
                        assert(p@[0] == '/');
                        assert(false);
                    }
                    assert(hit == (self.http_verb == Some(HttpVerb::Get) && spec_is_root(
                        self.request_path,
                    )));
                }
                hit
            },
            _ => false,
        };
        proof {
            assert(is_root_get == (self.http_verb == Some(HttpVerb::Get) && spec_is_root(
                self.request_path,
            )));
        }
        if self.http_verb.is_some() && self.http_version.is_some() && self.request_path.is_some() {
            if is_root_get {
                let mut b = HttpResponseBuilder::new();
                b.http_response_code(HttpResponseCode::Success);
                b.http_version(HttpVersion::V1_1);
                b.body("<html><body><h1>200 OK</h1></body></html>\n");
                b.finalize()
            } else {
                let mut b = HttpResponseBuilder::new();
                b.http_response_code(HttpResponseCode::NotFound);
                b.http_version(HttpVersion::V1_1);
                b.body("<html><body><h1>404 Not Found</h1></body></html>\n");
                b.finalize()
            }
        } else {
            HttpResponseBuilder::new().finalize()
        }
    }
}

} // verus!
