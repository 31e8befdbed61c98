//! Communication core of a connected-device agent: a local control protocol
//! with pluggable security and transport, and a cloud connectivity manager
//! with deferred subscriptions and an offline publish queue.

pub mod error;
pub mod factory;
pub mod httpd;
pub mod keyed;
pub mod local_ctrl;
pub mod mdns;
pub mod mqtt;
pub mod protocomm;
pub mod security;

use vstd::prelude::*;
use vstd::string::StringExecFns;

verus! {

/// The greeting of a build for `target`.
pub open spec fn greeting(target: Seq<char>) -> Seq<char> {
    "hello from "@ + target
}

fn hello(name: &str) -> (r: String)
    ensures
        r@ == greeting(name@),
{
    String::from_str("hello from ").concat(name)
}

/// The greeting that a build for `target` reports at start-up.
pub fn say_hello(target: &str) -> (r: String)
    ensures
        r@ == greeting(target@),
{
    hello(target)
}

} // verus!
