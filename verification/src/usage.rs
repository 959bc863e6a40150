//! The functions of the usage examples, as `#[func]` and `invoke!` leave
//! them when the feature is off.

use vstd::prelude::*;
use vstd::string::*;

verus! {

/// `Hello, {name}!`
pub fn greet(name: &str) -> (r: String)
    ensures
        r@ == "Hello, "@ + name@ + "!"@,
{
    let mut r = String::from_str("Hello, ");
    r.append(name);
    r.append("!");
    r
}

/// Twice `x`.
pub fn compute(x: i32) -> (r: i32)
    requires
        -0x4000_0000 <= x < 0x4000_0000,
    ensures
        r == 2 * x,
{
    x * 2
}

/// `compute(5)`, as `invoke!(compute(5))` calls it without the feature.
pub fn example() -> (r: i32)
    ensures
        r == 10,
{
    compute(5)
}

} // verus!
