//! The request handler: a total, stateless function that maps every
//! well-formed request to one fixed reply.

use vstd::prelude::*;
use vstd::string::StringExecFns;

verus! {

/// The status every reply carries: plain success, nothing else.
pub open spec fn ok_status() -> u16 {
    200u16
}

/// The one body this service ever sends.
pub open spec fn hello_body() -> Seq<char> {
    "Hello, World!\n"@
}

/// The head of one parsed request, as the handler sees it: the method and
/// the request target. Everything else in a request is ignored.
#[derive(Debug)]
pub struct HttpRequest {
    pub method: String,
    pub target: String,
}

/// One reply: a status code and a textual body. The content length is the
/// body's length; no other fields exist in this service.
#[derive(Debug, PartialEq, Eq)]
pub struct HttpResponse {
    pub status: u16,
    pub body: String,
}

impl HttpResponse {
    /// The one reply this service produces: success status and the fixed
    /// body, whatever the request was.
    pub open spec fn is_ok_reply(&self) -> bool {
        self.status == ok_status() && self.body@ == hello_body()
    }
}

/// Map a request to the service's reply.
///
/// The handler is total: it succeeds on every well-formed request, and the
/// reply does not depend on the method or target at all.
pub fn handle(req: &HttpRequest) -> (resp: HttpResponse)
    ensures
        resp.is_ok_reply(),
{
    let body = String::from_str("Hello, World!\n");
    HttpResponse { status: 200, body }
}

/// The diagnostic line emitted once per request, naming its method and
/// target.
pub fn request_log_line(req: &HttpRequest) -> (line: String)
    ensures
        line@ == "Received "@ + req.method@ + " request to "@ + req.target@,
{
    let mut line = String::from_str("Received ");
    line.append(req.method.as_str());
    line.append(" request to ");
    line.append(req.target.as_str());
    line
}

/// The diagnostic line emitted once per accepted connection, naming the
/// peer's address.
pub fn connection_log_line(peer: &str) -> (line: String)
    ensures
        line@ == "New connection from: "@ + peer@,
{
    let mut line = String::from_str("New connection from: ");
    line.append(peer);
    line
}

} // verus!
