//! Classic counting exercises: FizzBuzz, the Fibonacci numbers and a
//! countdown.

use vstd::prelude::*;
use crate::decimal::{decimal, decimal_string};

verus! {

/// What FizzBuzz says for `i`: `FizzBuzz` for a multiple of both three and
/// five, `Fizz` for a multiple of three, `Buzz` for a multiple of five, and
/// the number itself otherwise.
pub open spec fn fizzbuzz_text(i: nat) -> Seq<char> {
    if i % 3 == 0 && i % 5 == 0 {
        "FizzBuzz"@
    } else if i % 3 == 0 {
        "Fizz"@
    } else if i % 5 == 0 {
        "Buzz"@
    } else {
        decimal(i)
    }
}

/// The Fibonacci numbers: 0, 1, and from then on the sum of the two before.
pub open spec fn fibonacci_number(n: nat) -> nat
    decreases n,
{
    if n == 0 {
        0
    } else if n == 1 {
        1
    } else {
        fibonacci_number((n - 2) as nat) + fibonacci_number((n - 1) as nat)
    }
}

/// What each line of text reads.
pub open spec fn texts(lines: Seq<String>) -> Seq<Seq<char>> {
    lines.map_values(|line: String| line@)
}

/// The lines that a countdown from `start` shows once it has reached
/// `count`: each number down to one, and `Halfway there!` after the number
/// that is half of `start`.
pub open spec fn countdown_lines(count: nat, start: nat) -> Seq<Seq<char>>
    decreases count,
{
    if count == 0 {
        Seq::empty()
    } else if 2 * count == start {
        seq![decimal(count), "Halfway there!"@] + countdown_lines((count - 1) as nat, start)
    } else {
        seq![decimal(count)] + countdown_lines((count - 1) as nat, start)
    }
}

/// The Fibonacci numbers never decrease.
pub proof fn lemma_fibonacci_monotonic(i: nat, j: nat)
    requires
        i <= j,
    ensures
        fibonacci_number(i) <= fibonacci_number(j),
    decreases j,
{
    if i < j {
        lemma_fibonacci_monotonic(i, (j - 1) as nat);
        if j >= 2 {
            assert(fibonacci_number(j) == fibonacci_number((j - 2) as nat) + fibonacci_number(
                (j - 1) as nat,
            ));
        }
    }
}

/// The FizzBuzz line for `i`.
pub fn fizzbuzz(i: u32) -> (line: String)
    ensures
        line@ == fizzbuzz_text(i as nat),
{
    if i % 3 == 0 && i % 5 == 0 {
        "FizzBuzz".to_owned()
    } else if i % 3 == 0 {
        "Fizz".to_owned()
    } else if i % 5 == 0 {
        "Buzz".to_owned()
    } else {
        decimal_string(i as u64)
    }
}

/// The first `count` Fibonacci numbers, or `None` where one of them does not
/// fit into 64 bits.
pub fn fibonacci(count: usize) -> (numbers: Option<Vec<u64>>)
    ensures
        match numbers {
            Some(list) => {
                &&& list@.len() == count
                &&& forall|i: int| 0 <= i < count ==> #[trigger] list@[i] == fibonacci_number(i as nat)
            },
            None => count > 0 && fibonacci_number((count - 1) as nat) > u64::MAX,
        },
{
    let mut list: Vec<u64> = Vec::new();
    let mut i: usize = 0;
    while i < count
        invariant
            i <= count,
            list@.len() == i,
            forall|j: int| 0 <= j < i ==> #[trigger] list@[j] == fibonacci_number(j as nat),
        decreases count - i,
    {
        if i < 2 {
            list.push(i as u64);
        } else {
            match list[i - 2].checked_add(list[i - 1]) {
                Some(next) => {
                    list.push(next);
                },
                None => {
                    proof {
                        lemma_fibonacci_monotonic(i as nat, (count - 1) as nat);
                    }
                    return None;
                },
            }
        }
        i = i + 1;
    }
    Some(list)
}

/// The lines of a countdown from `start` to one, with `Halfway there!`
/// after the number that is half of `start`.
pub fn countdown(start: u32) -> (lines: Vec<String>)
    ensures
        texts(lines@) == countdown_lines(start as nat, start as nat),
{
    let mut lines: Vec<String> = Vec::new();
    let mut count: u32 = start;
    while count > 0
        invariant
            count <= start,
            texts(lines@) + countdown_lines(count as nat, start as nat) == countdown_lines(
                start as nat,
                start as nat,
            ),
        decreases count,
    {
        let ghost before = lines@;
        lines.push(decimal_string(count as u64));
        if count == start - count {
            lines.push("Halfway there!".to_owned());
            assert(texts(lines@) =~= texts(before) + seq![
                decimal(count as nat),
                "Halfway there!"@,
            ]);
        }
        assert(texts(lines@) + countdown_lines((count - 1) as nat, start as nat) =~= texts(before)
            + countdown_lines(count as nat, start as nat));
        count = count - 1;
    }
    lines
}

} // verus!
