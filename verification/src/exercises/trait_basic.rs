//! A greeter trait with a single method, implemented by a person.

use vstd::prelude::*;
use vstd::string::*;

verus! {

/// Something that can introduce itself.
pub trait Greeter {
    /// The greeting, as text.
    spec fn greeting(&self) -> Seq<char>;

    /// Introduces itself.
    fn greet(&self) -> (r: String)
        ensures
            r@ == self.greeting(),
    ;
}

/// A person, named by a string.
pub struct Person {
    pub name: String,
}

impl Greeter for Person {
    open spec fn greeting(&self) -> Seq<char> {
        "Hello, my name is "@ + self.name@
    }

    fn greet(&self) -> (r: String) {
        let mut r = String::from_str("Hello, my name is ");
        r.append(self.name.as_str());
        r
    }
}

} // verus!
