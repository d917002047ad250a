//! The handlers that answer without touching storage.

use vstd::prelude::*;

verus! {

/// A response: its status code and body.
pub struct HttpReply {
    pub status: u16,
    pub body: String,
}

/// Liveness probe: always 200 with an empty body.
pub fn health_check() -> (r: HttpReply)
    ensures
        r.status == 200,
        r.body@.len() == 0,
{
    HttpReply { status: 200, body: String::new() }
}

pub open spec fn greeting_for(name: Option<Seq<char>>) -> Seq<char> {
    let who = match name {
        Some(n) => n,
        None => "World"@,
    };
    "Hello "@ + who + "!"@
}

/// The greeting text for the name in the path, or for the world.
pub fn greet(name: Option<&str>) -> (r: String)
    ensures
        r@ == greeting_for(
            match name {
                Some(n) => Some(n@),
                None => None,
            },
        ),
{
    let mut r = "Hello ".to_string();
    match name {
        Some(n) => r.append(n),
        None => r.append("World"),
    }
    r.append("!");
    r
}

} // verus!
