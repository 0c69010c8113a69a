//! Computations of the user tasks.
use vstd::prelude::*;

verus! {

/// The Fibonacci numbers, starting 1, 1.
pub open spec fn fib(n: nat) -> nat
    decreases n,
{
    if n <= 1 {
        1
    } else {
        fib((n - 1) as nat) + fib((n - 2) as nat)
    }
}

/// The `n`-th Fibonacci number, counting from `fibonacci(0) == 1`.
pub fn fibonacci(n: u32) -> (f: u32)
    requires
        fib(n as nat) <= u32::MAX,
    ensures
        f == fib(n as nat),
    decreases n,
{
    match n {
        0 => 1,
        1 => 1,
        _ => fibonacci(n - 1) + fibonacci(n - 2),
    }
}

} // verus!
