//! Verified core of a minimal HTTP server: request-line parsing, exact-match
//! routing, and response formatting. The surrounding process (sockets, the
//! worker pool, the accept loop) lives outside the library and feeds plain
//! byte buffers in and takes plain byte vectors out.

pub mod dispatch;
pub mod request;
pub mod response;
pub mod routing;

pub use dispatch::dispatch;
pub use request::parse_request;
pub use request::HttpRequestTypes;
pub use request::Request;
pub use request::RequestError;
pub use response::http_response;
pub use routing::RoutingTable;
