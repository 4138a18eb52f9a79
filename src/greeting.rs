use vstd::prelude::*;

verus! {

/// The text that the service sends for `GET /`.
pub const GREETING: &'static str = "Hello from MediaClay API!";

/// The greeting, as characters.
pub open spec fn greeting() -> Seq<char> {
    GREETING@
}

/// The handler of the root route: the greeting, unchanged on every call.
pub fn hello_world() -> (r: &'static str)
    ensures
        r@ == greeting(),
{
    GREETING
}

} // verus!
