//! Greeters used through trait objects: a person with the default greeting
//! and a robot with its own.

use vstd::prelude::*;
use vstd::string::*;
use crate::text::{decimal, push_decimal};
use crate::exercises::parsing::{digits_value, is_digits, lemma_decimal_is_digits};

verus! {

/// Something that can introduce itself.
pub trait Greeter {
    /// The name, as text.
    spec fn name_spec(&self) -> Seq<char>;

    /// The name.
    fn name(&self) -> (r: String)
        ensures
            r@ == self.name_spec(),
    ;

    /// A greeting; unless overridden, `"Hello, my name is "` followed by the name.
    fn greet(&self) -> (r: String)
        default_ensures
            r@ == "Hello, my name is "@ + self.name_spec(),
    {
        let mut r = String::from_str("Hello, my name is ");
        let n = self.name();
        r.append(n.as_str());
        r
    }
}

/// A person, named by a string.
pub struct Person {
    pub name: String,
}

/// A robot, named by its unit number.
pub struct Robot {
    pub id: u32,
}

impl Greeter for Person {
    open spec fn name_spec(&self) -> Seq<char> {
        "Person:"@ + self.name@
    }

    fn name(&self) -> (r: String) {
        let mut r = String::from_str("Person:");
        r.append(self.name.as_str());
        r
    }
}

impl Greeter for Robot {
    open spec fn name_spec(&self) -> Seq<char> {
        "Unit-"@ + decimal(self.id as nat)
    }

    fn name(&self) -> (r: String) {
        let mut r = String::from_str("Unit-");
        push_decimal(&mut r, self.id as u64);
        r
    }

    fn greet(&self) -> (r: String)
        ensures
            r@ == "BEEP BOOP I AM "@ + self.name_spec(),
    {
        let mut r = String::from_str("BEEP BOOP I AM ");
        let n = self.name();
        r.append(n.as_str());
        r
    }
}

/// A robot's name is "Unit-" followed by the digits of its full unit number,
/// so robots with different numbers have different names.
pub proof fn lemma_robot_name_carries_id(a: Robot, b: Robot)
    ensures
        a.name_spec().take(5) == "Unit-"@,
        is_digits(a.name_spec().skip(5)),
        digits_value(a.name_spec().skip(5)) == a.id,
        a.name_spec() == b.name_spec() ==> a.id == b.id,
{
    reveal_strlit("Unit-");
    lemma_decimal_is_digits(a.id as nat);
    lemma_decimal_is_digits(b.id as nat);
    assert(a.name_spec().take(5) =~= "Unit-"@);
    assert(a.name_spec().skip(5) =~= decimal(a.id as nat));
    assert(b.name_spec().skip(5) =~= decimal(b.id as nat));
}

} // verus!
