//! Workers that each produce a fixed message when run.

use vstd::prelude::*;
use vstd::string::*;

verus! {

/// A unit of work that produces a message.
pub trait Worker {
    /// The message the worker produces.
    spec fn output(&self) -> Seq<char>;

    /// Runs the worker.
    fn run(&self) -> (r: String)
        ensures
            r@ == self.output(),
    ;
}

/// A worker that fetches.
pub struct Fetcher {}

/// A worker that crunches.
pub struct Cruncher {}

impl Worker for Fetcher {
    open spec fn output(&self) -> Seq<char> {
        "hello from Fetcher"@
    }

    fn run(&self) -> (r: String) {
        String::from_str("hello from Fetcher")
    }
}

impl Worker for Cruncher {
    open spec fn output(&self) -> Seq<char> {
        "Hello from Cruncher"@
    }

    fn run(&self) -> (r: String) {
        String::from_str("Hello from Cruncher")
    }
}

} // verus!
