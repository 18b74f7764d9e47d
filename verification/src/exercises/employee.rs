//! A one-line description of an employee.

use vstd::prelude::*;
use vstd::string::*;
use crate::text::{decimal, push_decimal};
use crate::exercises::parsing::{digits_value, is_digits, lemma_decimal_is_digits};

verus! {

/// An employee: a name and an age in years.
pub struct Employee {
    pub name: String,
    pub age: u32,
}

impl Employee {
    /// `"<name> is <age> years old"`.
    pub open spec fn description(&self) -> Seq<char> {
        self.name@ + " is "@ + decimal(self.age as nat) + " years old"@
    }

    /// Describes the employee (see [`Employee::description`]).
    pub fn describe(&self) -> (r: String)
        ensures
            r@ == self.description(),
    {
        let mut r = String::from_str(self.name.as_str());
        r.append(" is ");
        push_decimal(&mut r, self.age as u64);
        r.append(" years old");
        r
    }
}

/// A description starts with the employee's name, followed by " is ", the
/// digits of the full age, and " years old".
pub proof fn lemma_description_carries_age(e: Employee)
    ensures
        ({
            let d = e.description();
            let n = e.name@.len() as int;
            &&& n + 4 < d.len() - 10
            &&& d.subrange(0, n) == e.name@
            &&& d.subrange(n, n + 4) == " is "@
            &&& is_digits(d.subrange(n + 4, d.len() - 10))
            &&& digits_value(d.subrange(n + 4, d.len() - 10)) == e.age
            &&& d.subrange(d.len() - 10, d.len() as int) == " years old"@
        }),
{
    reveal_strlit(" is ");
    reveal_strlit(" years old");
    lemma_decimal_is_digits(e.age as nat);
    let d = e.description();
    let n = e.name@.len() as int;
    assert(d.subrange(0, n) =~= e.name@);
    assert(d.subrange(n, n + 4) =~= " is "@);
    assert(d.subrange(n + 4, d.len() - 10) =~= decimal(e.age as nat));
    assert(d.subrange(d.len() - 10, d.len() as int) =~= " years old"@);
}

} // verus!
