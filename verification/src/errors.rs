use vstd::prelude::*;

verus! {

/// Accepts a non-negative number unchanged and rejects a negative one.
pub fn f(i: i32) -> (r: Result<i32, bool>)
    ensures
        i >= 0 ==> r == Ok::<i32, bool>(i),
        i < 0 ==> r == Err::<i32, bool>(false),
{
    if i >= 0 {
        Ok(i)
    } else {
        Err(false)
    }
}

/// Forwards `f`'s answer, passing any error through unchanged.
pub fn g(i: i32) -> (r: Result<i32, bool>)
    ensures
        i >= 0 ==> r == Ok::<i32, bool>(i),
        i < 0 ==> r == Err::<i32, bool>(false),
{
    let t = f(i)?;
    Ok(t)
}

} // verus!
