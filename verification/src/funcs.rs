use vstd::prelude::*;

verus! {

/// Returns the sum and the difference of `a` and `b`, in that order.
pub fn sum_sub(a: i32, b: i32) -> (r: (i32, i32))
    requires
        i32::MIN <= a + b <= i32::MAX,
        i32::MIN <= a - b <= i32::MAX,
    ensures
        r.0 == a + b,
        r.1 == a - b,
{
    (a + b, a - b)
}

/// Hands a value on when it is at most 3, and holds anything larger back.
pub fn show(i: i32) -> (r: Option<i32>)
    ensures
        i > 3 ==> r is None,
        i <= 3 ==> r == Some(i),
{
    if i > 3 {
        return None;
    }
    Some(i)
}

} // verus!
