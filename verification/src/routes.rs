//! The route table: what the node answers on each of its paths.

use crate::metrics::{exposition, Prometheus, BODY_LEN};
use vstd::prelude::*;
use vstd::string::*;

verus! {

/// Path of the greeting.
pub const ROOT_PATH: &'static str = "/";

/// Path of the metrics.
pub const METRICS_PATH: &'static str = "/metrics";

/// The body of the greeting.
pub const GREETING: &'static str = "Hello World";

/// Content type of the greeting.
pub const TEXT_PLAIN: &'static str = "text/plain; charset=utf-8";

/// Status of every answer of the route table.
pub const STATUS_OK: u16 = 200;

/// The routes of the node.
#[derive(Clone, Copy, Debug, PartialEq, Eq, Structural)]
pub enum Route {
    /// A fixed greeting.
    Root,
    /// The latest reading as exposition text.
    Metrics,
}

/// The bytes of an answer.
#[derive(Clone, Copy, Debug)]
pub enum Body {
    /// A fixed text.
    Text(&'static str),
    /// Exposition text, which has a fixed length.
    Exposition([u8; BODY_LEN]),
}

impl View for Body {
    type V = Seq<u8>;

    open spec fn view(&self) -> Seq<u8> {
        match self {
            Body::Text(text) => text.spec_bytes(),
            Body::Exposition(bytes) => bytes@,
        }
    }
}

impl Body {
    /// The bytes to send.
    pub fn as_bytes(&self) -> (bytes: &[u8])
        ensures
            bytes@ == self@,
    {
        match self {
            Body::Text(text) => text.as_bytes(),
            Body::Exposition(bytes) => bytes.as_slice(),
        }
    }
}

/// An answer: what the HTTP layer is to send for one request.
#[derive(Clone, Copy, Debug)]
pub struct Reply {
    /// The status code.
    pub status: u16,
    /// The value of the content type header.
    pub content_type: &'static str,
    /// The value of the content length header.
    pub content_length: usize,
    /// The bytes that follow the headers.
    pub body: Body,
}

impl Route {
    /// The path the route is registered under.
    pub fn path(self) -> (path: &'static str)
        ensures
            path@ == match self {
                Route::Root => ROOT_PATH@,
                Route::Metrics => METRICS_PATH@,
            },
    {
        match self {
            Route::Root => ROOT_PATH,
            Route::Metrics => METRICS_PATH,
        }
    }
}

/// The body that `route` answers with when the gauge reads `reading`.
pub open spec fn body_of(route: Route, reading: u16) -> Seq<u8> {
    match route {
        Route::Root => GREETING.spec_bytes(),
        Route::Metrics => exposition(reading as nat),
    }
}

/// The greeting is eleven bytes, one for each of its characters.
pub proof fn lemma_greeting_len()
    ensures
        GREETING.spec_bytes().len() == 11,
{
    reveal_strlit("Hello World");
    assert(is_ascii(GREETING));
}

/// Every route of the table, in the order of registration.
pub fn routes() -> (table: [Route; 2])
    ensures
        table@ == seq![Route::Root, Route::Metrics],
{
    let table = [Route::Root, Route::Metrics];
    assert(table@ =~= seq![Route::Root, Route::Metrics]);
    table
}

/// Answers a `GET` on `route` while the gauge reads `reading`. The announced
/// length is always the length of the body.
pub fn respond(route: Route, reading: u16) -> (reply: Reply)
    ensures
        reply.status == STATUS_OK,
        reply.body@ == body_of(route, reading),
        reply.content_length == reply.body@.len(),
        reply.content_type@ == match route {
            Route::Root => TEXT_PLAIN@,
            Route::Metrics => crate::metrics::CONTENT_TYPE@,
        },
        route is Root ==> reply.body == Body::Text(GREETING),
        route is Metrics ==> reply.body is Exposition,
{
    match route {
        Route::Root => {
            proof {
                lemma_greeting_len();
            }
            Reply {
                status: STATUS_OK,
                content_type: TEXT_PLAIN,
                content_length: GREETING.len(),
                body: Body::Text(GREETING),
            }
        },
        Route::Metrics => {
            let responder = Prometheus;
            Reply {
                status: STATUS_OK,
                content_type: responder.content_type(),
                content_length: responder.content_length(),
                body: Body::Exposition(responder.write_content(reading)),
            }
        },
    }
}

} // verus!
