//! The instruction a driver reads off a traffic light.

use vstd::prelude::*;
use vstd::string::*;
use crate::text::{decimal, lemma_decimal_injective, lemma_decimal_nonempty, push_decimal};
use crate::exercises::parsing::{digits_value, is_digits, lemma_decimal_is_digits};

verus! {

/// The state of a traffic light.
pub enum TrafficLight {
    Red,
    Yellow,
    Green,
    /// Flashing yellow, with the number of seconds left.
    FlashingYellow(u32),
}

/// The instruction for a light.
pub open spec fn instruction_text(light: TrafficLight) -> Seq<char> {
    match light {
        TrafficLight::Red => "Stop"@,
        TrafficLight::Yellow => "Slow down"@,
        TrafficLight::Green => "Go"@,
        TrafficLight::FlashingYellow(second) => "Flashing yellow, "@ + decimal(second as nat)
            + "s left"@,
    }
}

/// No two lights share an instruction, and no instruction is empty.
pub proof fn lemma_instructions_distinct(a: TrafficLight, b: TrafficLight)
    ensures
        instruction_text(a).len() > 0,
        instruction_text(a) == instruction_text(b) ==> a == b,
{
    reveal_strlit("Stop");
    reveal_strlit("Slow down");
    reveal_strlit("Go");
    reveal_strlit("Flashing yellow, ");
    reveal_strlit("s left");
    if let TrafficLight::FlashingYellow(x) = a {
        lemma_decimal_nonempty(x as nat);
    }
    if let TrafficLight::FlashingYellow(y) = b {
        lemma_decimal_nonempty(y as nat);
    }
    if instruction_text(a) == instruction_text(b) {
        if let TrafficLight::FlashingYellow(x) = a {
            if let TrafficLight::FlashingYellow(y) = b {
                let t = instruction_text(a);
                assert(t.subrange(17, t.len() - 6) =~= decimal(x as nat));
                let u = instruction_text(b);
                assert(u.subrange(17, u.len() - 6) =~= decimal(y as nat));
                lemma_decimal_injective(x as nat, y as nat);
            }
        }
    }
}

/// The instruction for a light (see [`instruction_text`]).
pub fn instruction(light: &TrafficLight) -> (r: String)
    ensures
        r@ == instruction_text(*light),
{
    match light {
        TrafficLight::Red => String::from_str("Stop"),
        TrafficLight::Yellow => String::from_str("Slow down"),
        TrafficLight::Green => String::from_str("Go"),
        TrafficLight::FlashingYellow(second) => {
            let mut r = String::from_str("Flashing yellow, ");
            push_decimal(&mut r, *second as u64);
            r.append("s left");
            r
        },
    }
}

/// A flashing yellow light's instruction is "Flashing yellow, " followed by
/// the digits of the full number of seconds left, then "s left".
pub proof fn lemma_flashing_carries_seconds(seconds: u32)
    ensures
        ({
            let t = instruction_text(TrafficLight::FlashingYellow(seconds));
            &&& 17 < t.len() - 6
            &&& t.subrange(0, 17) == "Flashing yellow, "@
            &&& is_digits(t.subrange(17, t.len() - 6))
            &&& digits_value(t.subrange(17, t.len() - 6)) == seconds
            &&& t.subrange(t.len() - 6, t.len() as int) == "s left"@
        }),
{
    reveal_strlit("Flashing yellow, ");
    reveal_strlit("s left");
    lemma_decimal_is_digits(seconds as nat);
    let t = instruction_text(TrafficLight::FlashingYellow(seconds));
    assert(t.subrange(0, 17) =~= "Flashing yellow, "@);
    assert(t.subrange(17, t.len() - 6) =~= decimal(seconds as nat));
    assert(t.subrange(t.len() - 6, t.len() as int) =~= "s left"@);
}

} // verus!
