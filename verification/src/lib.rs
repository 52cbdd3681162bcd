//! A minimal HTTP/1.x message core: incremental framing of a raw byte
//! stream into discrete request messages, request-line parsing, routing,
//! and response serialization.  All I/O (sockets, logging) is left to the
//! surrounding application; this crate only turns bytes into messages and
//! structured responses back into wire text.

pub mod clock;
pub mod decimal;
pub mod framing;
pub mod request;
pub mod response;
pub mod routing;
pub mod stream;

pub use crate::request::HttpMessage;
pub use crate::request::HttpVerb;
pub use crate::request::HttpVersion;
pub use crate::response::HttpOption;
pub use crate::response::HttpOptionValues;
pub use crate::response::HttpResponse;
pub use crate::response::HttpResponseBuilder;
pub use crate::response::HttpResponseCode;
pub use crate::stream::EncodingError;
pub use crate::stream::HttpMessageParser;
