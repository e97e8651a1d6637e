//! The greeting handler: a pure function from a name to its greeting.

use vstd::prelude::*;

verus! {

/// The greeting for `name`: the literal concatenation `"Hello, " + name + "!"`.
pub open spec fn greeting_of(name: Seq<char>) -> Seq<char> {
    "Hello, "@ + name + "!"@
}

/// Returns `"Hello, {name}!"` for any name, the empty one included.
/// No validation, no error path, no side effect.
pub fn greet(name: &str) -> (r: String)
    ensures
        r@ == greeting_of(name@),
{
    let mut r = String::from_str("Hello, ");
    r.append(name);
    r.append("!");
    r
}

} // verus!
