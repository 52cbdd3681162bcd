//! The response model and its wire serialization.
//!
//! A response is a status code, a protocol version, the three fixed
//! option headers (`Date`, `Server`, `Content-Type`, each present
//! exactly once), and a body.  Responses are made through a builder
//! whose defaults describe a `400 Bad Request`, so every response is
//! well-formed even when nothing is set explicitly.  Serialization
//! appends a `Content-Length` header holding the byte length of the
//! body as encoded on the wire.

use vstd::prelude::*;
use vstd::string::*;
use vstd::utf8::encode_utf8;

use crate::decimal::fmt_usize;
use crate::decimal::spec_dec;
use crate::request::HttpVersion;

verus! {

/// The response statuses this server produces.
#[derive(Clone, Copy, PartialEq, Eq, Structural, Debug)]
pub enum HttpResponseCode {
    Success,
    BadRequest,
    NotFound,
}

/// The option headers a response carries.
#[derive(Clone, Copy, PartialEq, Eq, Structural, Debug)]
pub enum HttpOption {
    ContentType,
    Date,
    Server,
}

/// The values of the three option headers; one value per header, so
/// each header appears exactly once.
pub struct HttpOptionValues {
    pub date: String,
    pub server: String,
    pub content_type: String,
}

/// A complete response, ready to serialize.
pub struct HttpResponse {
    pub http_response_code: HttpResponseCode,
    pub http_version: HttpVersion,
    pub http_options: HttpOptionValues,
    pub body: String,
}

/// A response under construction; `new` seeds every field with the
/// `400 Bad Request` defaults and the setters override them.
pub struct HttpResponseBuilder {
    pub http_response_code: HttpResponseCode,
    pub http_version: HttpVersion,
    pub http_options: HttpOptionValues,
    pub body: String,
}

/// The wire text of a protocol version.
pub open spec fn version_text(v: HttpVersion) -> Seq<char> {
    match v {
        HttpVersion::V1_0 => "HTTP/1.0"@,
        HttpVersion::V1_1 => "HTTP/1.1"@,
    }
}

/// The wire text of a status line's code part.
pub open spec fn code_text(c: HttpResponseCode) -> Seq<char> {
    match c {
        HttpResponseCode::Success => "200 OK"@,
        HttpResponseCode::NotFound => "404 Not Found"@,
        HttpResponseCode::BadRequest => "400 Bad Request"@,
    }
}

/// The wire name of an option header.
pub open spec fn option_text(o: HttpOption) -> Seq<char> {
    match o {
        HttpOption::ContentType => "Content-Type"@,
        HttpOption::Date => "Date"@,
        HttpOption::Server => "Server"@,
    }
}

/// The default `Server` header value.
pub open spec fn default_server_text() -> Seq<char> {
    "simple_rust_webserver"@
}

/// The default `Content-Type` header value.
pub open spec fn default_content_type_text() -> Seq<char> {
    "text/html; charset=utf-8"@
}

/// The fixed page served on a successful root request.
pub open spec fn ok_body_text() -> Seq<char> {
    "<html><body><h1>200 OK</h1></body></html>\n"@
}

/// The fixed page served for a well-formed but unmatched request.
pub open spec fn not_found_body_text() -> Seq<char> {
    "<html><body><h1>404 Not Found</h1></body></html>\n"@
}

/// The fixed page served for a malformed request.
pub open spec fn bad_request_body_text() -> Seq<char> {
    "<html><body><h1>400 Bad Request</h1></body></html>\n"@
}

/// A line ending.
pub open spec fn crlf() -> Seq<char> {
    "\r\n"@
}

/// The byte length of the body as encoded on the wire (not its
/// character count): the number `Content-Length` declares.
pub open spec fn spec_body_byte_len(r: HttpResponse) -> nat {
    (encode_utf8(r.body@).len() as usize) as nat
}

/// Everything serialization emits before the declared content length:
/// the status line and the three option headers, each appearing once,
/// ending with the opening of the `Content-Length` header.
pub open spec fn spec_header_part(r: HttpResponse) -> Seq<char> {
    version_text(r.http_version) + " "@ + code_text(r.http_response_code) + crlf() + "Date: "@
        + r.http_options.date@ + crlf() + "Server: "@ + r.http_options.server@ + crlf()
        + "Content-Type: "@ + r.http_options.content_type@ + crlf() + "Content-Length: "@
}

/// The full wire text of a response.
pub open spec fn spec_serialize(r: HttpResponse) -> Seq<char> {
    spec_header_part(r) + spec_dec(spec_body_byte_len(r)) + crlf() + crlf() + r.body@
}

/// The serialized output is the headers, then the declared content
/// length, then the blank-line boundary marker, then the body — and the
/// declared length is exactly the byte length of that trailing body
/// segment, whatever the response holds.
pub proof fn lemma_serialized_content_length(r: HttpResponse)
    ensures
        spec_serialize(r) =~= spec_header_part(r) + spec_dec(spec_body_byte_len(r))
            + crate::framing::delim() + r.body@,
        encode_utf8(r.body@).len() <= usize::MAX ==> spec_body_byte_len(r) == encode_utf8(
            r.body@,
        ).len(),
{
    reveal_strlit("\r\n");
}

impl HttpOption {
    /// The header name as it appears on the wire.
    pub fn name_text(&self) -> (r: &'static str)
        ensures
            r@ == option_text(*self),
    {
        match self {
            HttpOption::ContentType => "Content-Type",
            HttpOption::Date => "Date",
            HttpOption::Server => "Server",
        }
    }
}

impl HttpResponseBuilder {
    /// A builder seeded with the `400 Bad Request` defaults: code 400,
    /// version 1.0, the default page, and the three option headers
    /// (`Date` holding the current wall-clock text).
    pub fn new() -> (r: HttpResponseBuilder)
        ensures
            r.http_response_code == HttpResponseCode::BadRequest,
            r.http_version == HttpVersion::V1_0,
            r.http_options.server@ == default_server_text(),
            r.http_options.content_type@ == default_content_type_text(),
            r.body@ == bad_request_body_text(),
    {
        let date = HttpResponse::current_timestamp();
        HttpResponseBuilder {
            http_response_code: HttpResponseCode::BadRequest,
            http_version: HttpVersion::V1_0,
            http_options: HttpOptionValues {
                date,
                server: "simple_rust_webserver".to_owned(),
                content_type: "text/html; charset=utf-8".to_owned(),
            },
            body: "<html><body><h1>400 Bad Request</h1></body></html>\n".to_owned(),
        }
    }

    /// Override the status code.
    pub fn http_response_code(&mut self, http_response_code: HttpResponseCode) -> (ret:
        &mut HttpResponseBuilder)
        ensures
            ret.http_response_code == http_response_code,
            ret.http_version == old(self).http_version,
            ret.http_options == old(self).http_options,
            ret.body == old(self).body,
            *final(self) == *final(ret),
    {
        self.http_response_code = http_response_code;
        self
    }

    /// Override the protocol version.
    pub fn http_version(&mut self, http_version: HttpVersion) -> (ret: &mut HttpResponseBuilder)
        ensures
            ret.http_response_code == old(self).http_response_code,
            ret.http_version == http_version,
            ret.http_options == old(self).http_options,
            ret.body == old(self).body,
            *final(self) == *final(ret),
    {
        self.http_version = http_version;
        self
    }

    /// Override one option header's value, named by the pair's first
    /// component; the other two keep their values.
    pub fn http_options(&mut self, pair: (HttpOption, String)) -> (ret: &mut HttpResponseBuilder)
        ensures
            ret.http_response_code == old(self).http_response_code,
            ret.http_version == old(self).http_version,
            ret.body == old(self).body,
            ret.http_options.date == (if pair.0 is Date {
                pair.1
            } else {
                old(self).http_options.date
            }),
            ret.http_options.server == (if pair.0 is Server {
                pair.1
            } else {
                old(self).http_options.server
            }),
            ret.http_options.content_type == (if pair.0 is ContentType {
                pair.1
            } else {
                old(self).http_options.content_type
            }),
            *final(self) == *final(ret),
    {
        let (name, value) = pair;
        match name {
            HttpOption::ContentType => {
                self.http_options.content_type = value;
            },
            HttpOption::Date => {
                self.http_options.date = value;
            },
            HttpOption::Server => {
                self.http_options.server = value;
            },
        }
        self
    }

    /// Override the body.
    pub fn body(&mut self, body: &str) -> (ret: &mut HttpResponseBuilder)
        ensures
            ret.http_response_code == old(self).http_response_code,
            ret.http_version == old(self).http_version,
            ret.http_options == old(self).http_options,
            ret.body@ == body@,
            *final(self) == *final(ret),
    {
        self.body = body.to_owned();
        self
    }

    /// The finished response, carrying the builder's fields.
    pub fn finalize(&self) -> (r: HttpResponse)
        ensures
            r.http_response_code == self.http_response_code,
            r.http_version == self.http_version,
            r.http_options.date@ == self.http_options.date@,
            r.http_options.server@ == self.http_options.server@,
            r.http_options.content_type@ == self.http_options.content_type@,
            r.body@ == self.body@,
    {
        HttpResponse {
            http_response_code: self.http_response_code,
            http_version: self.http_version,
            http_options: HttpOptionValues {
                date: self.http_options.date.clone(),
                server: self.http_options.server.clone(),
                content_type: self.http_options.content_type.clone(),
            },
            body: self.body.clone(),
        }
    }
}

impl HttpResponse {
    /// The current instant rendered for the `Date` header, or a fixed
    /// placeholder when the clock's value cannot be rendered.  The
    /// result depends on the wall clock, so nothing holds of it.
    pub fn current_timestamp() -> String {
        match crate::clock::format_rfc2822(crate::clock::now_utc()) {
            Some(s) => s,
            None => "Thu, 01 Jan 1970 00:00:00 +0000".to_owned(),
        }
    }

    /// The full wire text of this response: status line, the three
    /// option headers, a `Content-Length` header declaring the body's
    /// byte length, the blank-line terminator, and the body.
    pub fn as_string(&self) -> (r: String)
        ensures
            r@ =~= spec_serialize(*self),
    {
        let mut out = String::new();
        match self.http_version {
            HttpVersion::V1_0 => out.append("HTTP/1.0"),
            HttpVersion::V1_1 => out.append("HTTP/1.1"),
        }
        out.append(" ");
        match self.http_response_code {
            HttpResponseCode::Success => out.append("200 OK"),
            HttpResponseCode::NotFound => out.append("404 Not Found"),
            HttpResponseCode::BadRequest => out.append("400 Bad Request"),
        }
        out.append("\r\n");
        out.append("Date: ");
        out.append(self.http_options.date.as_str());
        out.append("\r\n");
        out.append("Server: ");
        out.append(self.http_options.server.as_str());
        out.append("\r\n");
        out.append("Content-Type: ");
        out.append(self.http_options.content_type.as_str());
        out.append("\r\n");
        out.append("Content-Length: ");
        let body_len = self.body.as_str().len();
        let len_text = fmt_usize(body_len);
        out.append(len_text.as_str());
        out.append("\r\n");
        out.append("\r\n");
        out.append(self.body.as_str());
        out
    }
}

} // verus!
