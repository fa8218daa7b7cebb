//! The two request handlers. Both are pure: a handler's reply depends on its
//! argument alone.

use crate::query::MyQueryParams;
use vstd::prelude::*;
use vstd::string::StringExecFns;

verus! {

/// The fixed greeting.
pub open spec fn hello_world_text() -> Seq<char> {
    "Hello world"@
}

/// The greeting for `name`: the name stands between `Hello, ` and `!` as it is,
/// with nothing escaped or trimmed.
pub open spec fn greeting(name: Seq<char>) -> Seq<char> {
    "Hello, "@ + name + "!"@
}

/// Returns the fixed greeting.
pub fn hello_world() -> (body: &'static str)
    ensures
        body@ == hello_world_text(),
{
    "Hello world"
}

/// Greets the caller by the name in `params`.
pub fn hello_with_name(params: MyQueryParams) -> (body: String)
    ensures
        body@ == greeting(params.name@),
{
    let mut body = String::from_str("Hello, ");
    body.append(params.name.as_str());
    body.append("!");
    body
}

} // verus!
