//! The request by which a page is asked for.
//!
//! The page is fetched by whoever calls this library. What the request
//! must carry is a rule of the library: many sites refuse a client that
//! does not look like a browser, or send it a page without the markup.

use vstd::prelude::*;

verus! {

/// The name of the header that says what the client accepts.
pub const ACCEPT: &'static str = "accept";

/// What the client accepts: HTML.
pub const ACCEPT_HTML: &'static str = "text/html";

/// The name of the header that says what the client is.
pub const USER_AGENT: &'static str = "user-agent";

/// What the client says it is: a desktop browser.
pub const BROWSER: &'static str =
    "Mozilla/5.0 (Windows NT 10.0; Win64; x64) AppleWebKit/537.36 (KHTML, like Gecko) Chrome/91.0.4472.124 Safari/537.36";

/// The headers of the request for a page, each as a name and a value: the
/// two fixed headers, and no other.
pub fn request_headers() -> (headers: Vec<(&'static str, &'static str)>)
    ensures
        headers@.len() == 2,
        headers@[0].0@ == ACCEPT@,
        headers@[0].1@ == ACCEPT_HTML@,
        headers@[1].0@ == USER_AGENT@,
        headers@[1].1@ == BROWSER@,
{
    let mut headers: Vec<(&'static str, &'static str)> = Vec::new();
    headers.push((ACCEPT, ACCEPT_HTML));
    headers.push((USER_AGENT, BROWSER));
    headers
}

} // verus!
