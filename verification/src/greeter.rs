//! The unary greeting service.

use vstd::prelude::*;
use vstd::string::*;

verus! {

/// Answers a greeting request.
#[derive(Debug, Default)]
pub struct MyGreeter {}

/// The text of the greeting sent to `name`.
pub open spec fn greeting(name: Seq<char>) -> Seq<char> {
    "Hello "@ + name + "!"@
}

impl MyGreeter {
    /// Builds the reply to a request that carries `name`.
    pub fn say_hello(&self, name: &str) -> (message: String)
        ensures
            message@ == greeting(name@),
    {
        let mut message = String::from_str("Hello ");
        message.append(name);
        message.append("!");
        message
    }
}

} // verus!
