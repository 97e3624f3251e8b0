//! Branches and loops: sign tests, a loop that yields a value, FizzBuzz
//! written with two kinds of loop, and greetings over a list of names.
use vstd::prelude::*;

use crate::text::{dec_text, push_dec, push_text, same_text, texts};

verus! {

/// Whether `n` is negative, positive or zero, in words.
pub fn sign_phrase(n: i32) -> (r: &'static str)
    ensures
        n < 0 ==> r@ == "is negative"@,
        n > 0 ==> r@ == "is positive"@,
        n == 0 ==> r@ == "is zero"@,
{
    if n < 0 {
        "is negative"
    } else if n > 0 {
        "is positive"
    } else {
        "is zero"
    }
}

/// Ten times a small number (strictly between -10 and 10); half of any
/// other, rounded toward zero.
pub fn scale(n: i32) -> (r: i32)
    ensures
        -10 < n < 10 ==> r == 10 * n,
        !(-10 < n < 10) && n >= 0 ==> r == n / 2,
        !(-10 < n < 10) && n < 0 ==> r == -((-n) / 2),
{
    if n < 10 && n > -10 {
        10 * n
    } else if n >= 0 {
        n / 2
    } else {
        -((-(n as i64)) / 2) as i32
    }
}

/// The value of the block `x * x * x + x * x + x`.
pub fn block_value(x: i32) -> (r: i128)
    ensures
        r == x * x * x + x * x + x,
{
    let x = x as i128;
    let ghost sq = x * x;
    assert(0 <= sq <= 0x4000_0000_0000_0000) by (nonlinear_arith)
        requires
            -0x8000_0000 <= x <= 0x8000_0000,
            sq == x * x,
    ;
    assert(-0x2000_0000_0000_0000_0000_0000 <= sq * x <= 0x2000_0000_0000_0000_0000_0000) by (nonlinear_arith)
        requires
            -0x8000_0000 <= x <= 0x8000_0000,
            0 <= sq <= 0x4000_0000_0000_0000,
    ;
    let x_squared = x * x;
    let x_cube = x_squared * x;
    x_cube + x_squared + x
}

/// Counts up from zero in a loop and leaves it at ten, yielding twice the
/// counter.
pub fn doubled_at_ten() -> (r: u32)
    ensures
        r == 20,
{
    let mut counter: u32 = 0;
    loop
        invariant
            counter < 10,
        decreases 10 - counter,
    {
        counter = counter + 1;
        if counter == 10 {
            return counter * 2;
        }
    }
}

/// The lines of the counting loop: 1 and 2, "Three..." in place of 3, then
/// 4 and 5 and the closing line.
pub open spec fn counting_lines() -> Seq<Seq<char>> {
    seq!["1"@, "2"@, "Three..."@, "4"@, "5"@, "OK, that's enough"@]
}

/// Counts from one in an endless loop, skipping the rest of the pass at
/// three and leaving the loop after five.
pub fn count_to_five() -> (r: Vec<String>)
    ensures
        texts(r@) == counting_lines(),
{
    let mut lines: Vec<String> = Vec::new();
    let mut count: u32 = 0;
    loop
        invariant_except_break
            count < 5,
            texts(lines@) == counting_lines().subrange(0, count as int),
        ensures
            texts(lines@) == counting_lines(),
        decreases 5 - count,
    {
        count = count + 1;
        let ghost before = lines@;
        if count == 3 {
            let mut line = String::new();
            push_text(&mut line, "Three...");
            lines.push(line);
            assert(texts(lines@) =~= counting_lines().subrange(0, count as int)) by {
                assert(texts(lines@) =~= texts(before).push(line@));
            }
            continue;
        }
        let mut line = String::new();
        push_dec(&mut line, count as u64);
        proof {
            reveal_strlit("1");
            reveal_strlit("2");
            reveal_strlit("4");
            reveal_strlit("5");
        }
        assert(line@ == seq![crate::text::hex_digit(count as nat)]);
        assert(line@ == counting_lines()[count - 1]);
        lines.push(line);
        assert(texts(lines@) =~= texts(before).push(line@));
        if count == 5 {
            let mut last = String::new();
            push_text(&mut last, "OK, that's enough");
            let ghost mid = lines@;
            lines.push(last);
            assert(texts(lines@) =~= texts(mid).push(last@));
            assert(texts(lines@) =~= counting_lines());
            break;
        }
        assert(texts(lines@) =~= counting_lines().subrange(0, count as int));
    }
    lines
}

/// The lines of the nested loops: each loop is entered once, then the
/// outer one is left from inside the inner one.
pub open spec fn nested_loop_lines() -> Seq<Seq<char>> {
    seq!["Entered the outer loop"@, "Entered the inner loop"@, "Exited the outer loop"@]
}

fn line_of(s: &str) -> (r: String)
    ensures
        r@ == s@,
{
    let mut out = String::new();
    push_text(&mut out, s);
    out
}

/// Runs an endless loop inside another and breaks the outer one by its label
/// from the inner one, so that nothing after the inner loop runs.
pub fn nested_loops() -> (r: Vec<String>)
    ensures
        texts(r@) == nested_loop_lines(),
{
    let mut lines: Vec<String> = Vec::new();
    'outer: loop
        invariant_except_break
            lines@.len() == 0,
        ensures
            texts(lines@) == seq!["Entered the outer loop"@, "Entered the inner loop"@],
        decreases 1int,
    {
        let first = line_of("Entered the outer loop");
        lines.push(first);
        assert(texts(lines@) =~= seq![first@]);
        loop
            invariant_except_break
                texts(lines@) == seq!["Entered the outer loop"@],
            decreases 1int,
        {
            let ghost before = lines@;
            let second = line_of("Entered the inner loop");
            lines.push(second);
            assert(texts(lines@) =~= texts(before).push(second@));
            assert(texts(lines@) =~= seq!["Entered the outer loop"@, "Entered the inner loop"@]);
            break 'outer;
        }
    }
    let ghost before = lines@;
    let last = line_of("Exited the outer loop");
    lines.push(last);
    assert(texts(lines@) =~= texts(before).push(last@));
    assert(texts(lines@) =~= nested_loop_lines());
    lines
}

/// "fizzbuzz" for multiples of fifteen, "fizz" for other multiples of three,
/// "buzz" for other multiples of five, else the number in decimal.
pub open spec fn fizzbuzz_text(n: nat) -> Seq<char> {
    if n % 15 == 0 {
        "fizzbuzz"@
    } else if n % 3 == 0 {
        "fizz"@
    } else if n % 5 == 0 {
        "buzz"@
    } else {
        dec_text(n)
    }
}

/// The FizzBuzz lines for 1 up to `up_to`.
pub open spec fn fizzbuzz_lines(up_to: nat) -> Seq<Seq<char>> {
    Seq::new(up_to, |i: int| fizzbuzz_text((i + 1) as nat))
}

/// The FizzBuzz line for `n`.
pub fn fizzbuzz(n: u64) -> (r: String)
    ensures
        r@ == fizzbuzz_text(n as nat),
{
    let mut out = String::new();
    if n % 15 == 0 {
        push_text(&mut out, "fizzbuzz");
    } else if n % 3 == 0 {
        push_text(&mut out, "fizz");
    } else if n % 5 == 0 {
        push_text(&mut out, "buzz");
    } else {
        push_dec(&mut out, n);
    }
    out
}

/// The FizzBuzz lines for 1 up to `up_to`, with a loop that tests its
/// condition before each pass.
pub fn fizzbuzz_while(up_to: u32) -> (r: Vec<String>)
    ensures
        texts(r@) == fizzbuzz_lines(up_to as nat),
{
    let mut lines: Vec<String> = Vec::new();
    let mut n: u64 = 1;
    while n < up_to as u64 + 1
        invariant
            1 <= n <= up_to as u64 + 1,
            texts(lines@) == fizzbuzz_lines((n - 1) as nat),
        decreases up_to as u64 + 1 - n,
    {
        let line = fizzbuzz(n);
        let ghost before = lines@;
        lines.push(line);
        assert(texts(lines@) =~= fizzbuzz_lines(n as nat)) by {
            assert(texts(lines@) =~= texts(before).push(line@));
        }
        n = n + 1;
    }
    lines
}

/// The FizzBuzz lines for 1 up to `up_to`, with a loop over a range.
pub fn fizzbuzz_for(up_to: u32) -> (r: Vec<String>)
    ensures
        texts(r@) == fizzbuzz_lines(up_to as nat),
{
    let mut lines: Vec<String> = Vec::new();
    let end: u64 = up_to as u64 + 1;
    for n in 1..end
        invariant
            end == up_to as u64 + 1,
            texts(lines@) == fizzbuzz_lines((n - 1) as nat),
    {
        let line = fizzbuzz(n);
        let ghost before = lines@;
        lines.push(line);
        assert(texts(lines@) =~= fizzbuzz_lines(n as nat)) by {
            assert(texts(lines@) =~= texts(before).push(line@));
        }
    }
    lines
}

/// Both FizzBuzz loops give the same lines for the same bound.
pub proof fn lemma_fizzbuzz_forms_agree(up_to: u32, a: Seq<String>, b: Seq<String>)
    requires
        texts(a) == fizzbuzz_lines(up_to as nat),
        texts(b) == fizzbuzz_lines(up_to as nat),
    ensures
        texts(a) == texts(b),
{
}

/// The greeting for a name: a special line for "Ferris", else "Hello "
/// and the name.
pub open spec fn greeting_text(name: Seq<char>) -> Seq<char> {
    if name == "Ferris"@ {
        "There is a rustacean among us!"@
    } else {
        "Hello "@ + name
    }
}

/// Greets one name.
pub fn greet(name: &str) -> (r: String)
    ensures
        r@ == greeting_text(name@),
{
    let mut out = String::new();
    if same_text(name, "Ferris") {
        push_text(&mut out, "There is a rustacean among us!");
    } else {
        push_text(&mut out, "Hello ");
        push_text(&mut out, name);
    }
    out
}

/// What a name becomes when the list is rewritten in place.
pub open spec fn hail_text(name: Seq<char>) -> Seq<char> {
    if name == "Ferris"@ {
        "There is a rustacean among us!"@
    } else {
        "Hello"@
    }
}

/// Rewrites each name in place: "Ferris" becomes the rustacean line, every
/// other name becomes "Hello".
pub fn hail_all(names: &mut Vec<&str>)
    ensures
        final(names)@.len() == old(names)@.len(),
        forall|i: int|
            0 <= i < final(names)@.len() ==> (#[trigger] final(names)@[i])@ == hail_text(
                old(names)@[i]@,
            ),
{
    let n = names.len();
    let mut i: usize = 0;
    while i < n
        invariant
            n == names@.len(),
            n == old(names)@.len(),
            i <= n,
            forall|j: int| 0 <= j < i ==> (#[trigger] names@[j])@ == hail_text(old(names)@[j]@),
            forall|j: int| i <= j < n ==> #[trigger] names@[j] == old(names)@[j],
        decreases n - i,
    {
        if same_text(names[i], "Ferris") {
            names[i] = "There is a rustacean among us!";
        } else {
            names[i] = "Hello";
        }
        i = i + 1;
    }
}

} // verus!
