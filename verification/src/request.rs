//! The description of one outbound API call: the HTTP verb, the URL path
//! (with any query string already rendered into it), and the body as
//! key/value pairs. A transport outside the library performs the call.

use vstd::prelude::*;

verus! {

/// The HTTP verb of a request.
#[derive(Clone, Copy, PartialEq, Eq, Structural, Debug)]
pub enum Method {
    Get,
    Post,
    Delete,
}

/// One fully-built outbound request.
pub struct Request {
    pub method: Method,
    pub path: String,
    pub body: Vec<(String, String)>,
}

} // verus!
