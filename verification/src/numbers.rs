//! Small utilities on text and on integers.

use vstd::prelude::*;

verus! {

/// `n` is prime: at least two, and no number from two up to `n - 1`
/// divides it.
pub open spec fn prime(n: int) -> bool {
    &&& n >= 2
    &&& forall|d: int| 2 <= d < n ==> #[trigger] (n % d) != 0
}

/// `low` is the least and `high` the greatest of `numbers`.
pub open spec fn is_min_max(numbers: Seq<i32>, low: i32, high: i32) -> bool {
    &&& numbers.contains(low)
    &&& numbers.contains(high)
    &&& forall|i: int| 0 <= i < numbers.len() ==> low <= #[trigger] numbers[i] <= high
}

/// A number without a divisor whose square is at most the number has no
/// proper divisor at all.
pub proof fn lemma_no_small_divisor_is_prime(n: int, bound: int)
    requires
        n >= 2,
        bound >= 2,
        bound * bound > n,
        forall|d: int| 2 <= d < bound ==> #[trigger] (n % d) != 0,
    ensures
        prime(n),
{
    assert forall|d: int| 2 <= d < n implies #[trigger] (n % d) != 0 by {
        if d >= bound && n % d == 0 {
            let q = n / d;
            assert(n == q * d) by (nonlinear_arith)
                requires
                    q == n / d,
                    n % d == 0,
                    d > 0,
            ;
            assert(2 <= q < bound) by (nonlinear_arith)
                requires
                    n == q * d,
                    2 <= bound <= d < n,
                    bound * bound > n,
            ;
            assert(n % q == 0) by (nonlinear_arith)
                requires
                    n == q * d,
                    q > 0,
            ;
        }
    }
}

/// The number of characters in `s`. Characters are counted, not bytes.
pub fn string_length(s: &str) -> (length: usize)
    ensures
        length == s@.len(),
{
    s.unicode_len()
}

/// The least and the greatest element of a slice that is not empty.
pub fn find_min_max(numbers: &[i32]) -> (bounds: (i32, i32))
    requires
        numbers@.len() > 0,
    ensures
        is_min_max(numbers@, bounds.0, bounds.1),
{
    let mut min: i32 = numbers[0];
    let mut max: i32 = numbers[0];
    let mut i: usize = 0;
    while i < numbers.len()
        invariant
            i <= numbers@.len(),
            numbers@.len() > 0,
            numbers@.contains(min),
            numbers@.contains(max),
            forall|j: int| 0 <= j < i ==> min <= #[trigger] numbers@[j] <= max,
        decreases numbers@.len() - i,
    {
        let num = numbers[i];
        if num < min {
            min = num;
        }
        if num > max {
            max = num;
        }
        i = i + 1;
    }
    (min, max)
}

/// Whether `n` is prime. Zero and one are not; a negative number is
/// turned away with a message.
pub fn is_prime(n: i32) -> (outcome: Result<bool, String>)
    ensures
        match outcome {
            Ok(answer) => n >= 0 && answer == prime(n as int),
            Err(message) => n < 0 && message@ == "Negative numbers cannot be prime"@,
        },
{
    if n < 0 {
        return Err("Negative numbers cannot be prime".to_owned());
    }
    if n <= 1 {
        return Ok(false);
    }
    let mut i: i32 = 2;
    while i <= n / i
        invariant
            2 <= i <= n,
            forall|d: int| 2 <= d < i ==> #[trigger] (n as int % d) != 0,
        decreases n - i,
    {
        assert(i < n) by (nonlinear_arith)
            requires
                2 <= i <= n / i,
        ;
        if n % i == 0 {
            return Ok(false);
        }
        i = i + 1;
    }
    proof {
        assert(i * i > n) by (nonlinear_arith)
            requires
                i > n / i,
                i >= 2,
                n >= 2,
        ;
        lemma_no_small_divisor_is_prime(n as int, i as int);
    }
    Ok(true)
}

} // verus!
