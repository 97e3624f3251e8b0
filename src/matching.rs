//! Classification by pattern matching: integer ranges, tuples, arrays,
//! enums, structs, guards and bindings.
use vstd::prelude::*;

use crate::text::{dec_text, int_text, push_dec, push_int, push_text};

verus! {

/// What a number is called: one, a small prime, a teen, or nothing special.
pub fn describe_number(n: i32) -> (r: &'static str)
    ensures
        n == 1 ==> r@ == "One!"@,
        (n == 2 || n == 3 || n == 5 || n == 7 || n == 11) ==> r@ == "This is a prime!"@,
        13 <= n <= 19 ==> r@ == "A teen"@,
        !(n == 1 || n == 2 || n == 3 || n == 5 || n == 7 || n == 11 || 13 <= n <= 19) ==> r@
            == "Ain't special"@,
{
    match n {
        1 => "One!",
        2 | 3 | 5 | 7 | 11 => "This is a prime!",
        13..=19 => "A teen",
        _ => "Ain't special",
    }
}

/// 1 for true and 0 for false.
pub fn binary_of(b: bool) -> (r: u8)
    ensures
        r == (if b { 1u8 } else { 0u8 }),
{
    match b {
        false => 0,
        true => 1,
    }
}

/// "Zero" or "Greater than zero", chosen by guards alone; the last arm is
/// proved never to run.
pub fn describe_u8(n: u8) -> (r: &'static str)
    ensures
        n == 0 ==> r@ == "Zero"@,
        n > 0 ==> r@ == "Greater than zero"@,
{
    match n {
        i if i == 0 => "Zero",
        i if i > 0 => "Greater than zero",
        _ => {
            proof {
                assert(false);
            }
            "Zero"
        },
    }
}

/// The value behind a reference, taken by dereferencing before the match.
pub fn value_by_dereference(reference: &i32) -> (r: i32)
    ensures
        r == *reference,
{
    match *reference {
        val => val,
    }
}

/// Adds ten through a mutable binding made in the match.
pub fn add_ten(value: &mut i32)
    requires
        *old(value) <= i32::MAX - 10,
    ensures
        *final(value) == *old(value) + 10,
{
    match value {
        m => {
            *m += 10;
        },
    }
}

/// Which arm a triple matches, tried in order: first is 0; first is 1; last
/// is 2; first is 3 and last is 4; anything else.
#[derive(Debug, Clone, Copy, PartialEq, Eq, Structural)]
pub enum TripleArm {
    FirstZero { y: i32, z: i32 },
    FirstOne,
    LastTwo,
    FirstThreeLastFour,
    Other,
}

/// The first arm that the triple matches.
pub open spec fn triple_arm(t: (i32, i32, i32)) -> TripleArm {
    if t.0 == 0 {
        TripleArm::FirstZero { y: t.1, z: t.2 }
    } else if t.0 == 1 {
        TripleArm::FirstOne
    } else if t.2 == 2 {
        TripleArm::LastTwo
    } else if t.0 == 3 && t.2 == 4 {
        TripleArm::FirstThreeLastFour
    } else {
        TripleArm::Other
    }
}

/// Matches a triple against the arms in order; the first that fits wins.
pub fn classify_triple(t: (i32, i32, i32)) -> (r: TripleArm)
    ensures
        r == triple_arm(t),
{
    match t {
        (0, y, z) => TripleArm::FirstZero { y, z },
        (1, ..) => TripleArm::FirstOne,
        (.., 2) => TripleArm::LastTwo,
        (3, .., 4) => TripleArm::FirstThreeLastFour,
        _ => TripleArm::Other,
    }
}

/// The sentence for each arm of a triple.
pub open spec fn triple_arm_text(a: TripleArm) -> Seq<char> {
    match a {
        TripleArm::FirstZero { y, z } => "First is 0, y is "@ + int_text(y as int) + " and z is "@
            + int_text(z as int),
        TripleArm::FirstOne => "First is 1 and the rest doesn't matter"@,
        TripleArm::LastTwo => "Last is 2 and the rest doesn't matter"@,
        TripleArm::FirstThreeLastFour => "First is 3, last is 4 and the rest doesn't matter"@,
        TripleArm::Other => "It doesn't matter what they are"@,
    }
}

impl TripleArm {
    /// The sentence that goes with the arm.
    pub fn message(&self) -> (r: String)
        ensures
            r@ == triple_arm_text(*self),
    {
        let mut out = String::new();
        match self {
            TripleArm::FirstZero { y, z } => {
                push_text(&mut out, "First is 0, y is ");
                push_int(&mut out, *y as i64);
                push_text(&mut out, " and z is ");
                push_int(&mut out, *z as i64);
            },
            TripleArm::FirstOne => push_text(&mut out, "First is 1 and the rest doesn't matter"),
            TripleArm::LastTwo => push_text(&mut out, "Last is 2 and the rest doesn't matter"),
            TripleArm::FirstThreeLastFour => push_text(
                &mut out,
                "First is 3, last is 4 and the rest doesn't matter",
            ),
            TripleArm::Other => push_text(&mut out, "It doesn't matter what they are"),
        }
        out
    }
}

/// Which arm a three-element array matches, tried in order: starts with 0;
/// starts with 1; starts with -1; starts with 3; anything else.
#[derive(Debug, Clone, Copy, PartialEq, Eq, Structural)]
pub enum ArrayArm {
    StartsZero { second: i32, third: i32 },
    StartsOne { third: i32 },
    StartsMinusOne { second: i32 },
    StartsThree { second: i32, tail: i32 },
    Other { first: i32, middle: i32, last: i32 },
}

/// The first arm that the array matches.
pub open spec fn array_arm(a: [i32; 3]) -> ArrayArm {
    let s = a@;
    if s[0] == 0 {
        ArrayArm::StartsZero { second: s[1], third: s[2] }
    } else if s[0] == 1 {
        ArrayArm::StartsOne { third: s[2] }
    } else if s[0] == -1 {
        ArrayArm::StartsMinusOne { second: s[1] }
    } else if s[0] == 3 {
        ArrayArm::StartsThree { second: s[1], tail: s[2] }
    } else {
        ArrayArm::Other { first: s[0], middle: s[1], last: s[2] }
    }
}

/// Matches an array against the arms in order; the first that fits wins.
pub fn classify_array(a: [i32; 3]) -> (r: ArrayArm)
    ensures
        r == array_arm(a),
{
    let first = a[0];
    let second = a[1];
    let third = a[2];
    if first == 0 {
        ArrayArm::StartsZero { second, third }
    } else if first == 1 {
        ArrayArm::StartsOne { third }
    } else if first == -1 {
        ArrayArm::StartsMinusOne { second }
    } else if first == 3 {
        ArrayArm::StartsThree { second, tail: third }
    } else {
        ArrayArm::Other { first, middle: second, last: third }
    }
}

/// The sentence for each arm of an array.
pub open spec fn array_arm_text(a: ArrayArm) -> Seq<char> {
    match a {
        ArrayArm::StartsZero { second, third } => "array[0] = 0, array[1] = "@ + int_text(
            second as int,
        ) + ", array[2] = "@ + int_text(third as int),
        ArrayArm::StartsOne { third } => "array[0] = 1, array[2] = "@ + int_text(third as int)
            + " and array[1] was ignored"@,
        ArrayArm::StartsMinusOne { second } => "array[0] = -1, array[1] = "@ + int_text(
            second as int,
        ) + " and all the other ones were ignored"@,
        ArrayArm::StartsThree { second, tail } => "array[0] = 3, array[1] = "@ + int_text(
            second as int,
        ) + " and the other elements were ["@ + int_text(tail as int) + "]"@,
        ArrayArm::Other { first, middle, last } => "array[0] = "@ + int_text(first as int)
            + ", middle = ["@ + int_text(middle as int) + "], array[2] = "@ + int_text(last as int),
    }
}

impl ArrayArm {
    /// The sentence that goes with the arm.
    pub fn message(&self) -> (r: String)
        ensures
            r@ == array_arm_text(*self),
    {
        let mut out = String::new();
        match self {
            ArrayArm::StartsZero { second, third } => {
                push_text(&mut out, "array[0] = 0, array[1] = ");
                push_int(&mut out, *second as i64);
                push_text(&mut out, ", array[2] = ");
                push_int(&mut out, *third as i64);
            },
            ArrayArm::StartsOne { third } => {
                push_text(&mut out, "array[0] = 1, array[2] = ");
                push_int(&mut out, *third as i64);
                push_text(&mut out, " and array[1] was ignored");
            },
            ArrayArm::StartsMinusOne { second } => {
                push_text(&mut out, "array[0] = -1, array[1] = ");
                push_int(&mut out, *second as i64);
                push_text(&mut out, " and all the other ones were ignored");
            },
            ArrayArm::StartsThree { second, tail } => {
                push_text(&mut out, "array[0] = 3, array[1] = ");
                push_int(&mut out, *second as i64);
                push_text(&mut out, " and the other elements were [");
                push_int(&mut out, *tail as i64);
                push_text(&mut out, "]");
            },
            ArrayArm::Other { first, middle, last } => {
                push_text(&mut out, "array[0] = ");
                push_int(&mut out, *first as i64);
                push_text(&mut out, ", middle = [");
                push_int(&mut out, *middle as i64);
                push_text(&mut out, "], array[2] = ");
                push_int(&mut out, *last as i64);
            },
        }
        out
    }
}

/// A colour by name or in one of several colour models.
#[derive(Debug, Clone, Copy, PartialEq, Eq, Structural)]
pub enum Color {
    Red,
    Blue,
    Green,
    RGB(u32, u32, u32),
    HSV(u32, u32, u32),
    HSL(u32, u32, u32),
    CMY(u32, u32, u32),
    CMYK(u32, u32, u32, u32),
}

/// Three labelled components: "A: a, B: b, C: c".
pub open spec fn triple_text(a: Seq<char>, x: u32, b: Seq<char>, y: u32, c: Seq<char>, z: u32) -> Seq<char> {
    a + dec_text(x as nat) + b + dec_text(y as nat) + c + dec_text(z as nat)
}

/// The sentence for each colour.
pub open spec fn color_text(c: Color) -> Seq<char> {
    match c {
        Color::Red => "The color is red!"@,
        Color::Blue => "The color is blue!"@,
        Color::Green => "The color is green"@,
        Color::RGB(r, g, b) => triple_text("Red: "@, r, ", green: "@, g, ", and blue: "@, b) + "!"@,
        Color::HSV(h, s, v) => triple_text("Hue: "@, h, ", saturation: "@, s, ", value: "@, v) + "!"@,
        Color::HSL(h, s, l) => triple_text("Hue: "@, h, ", saturation: "@, s, ", lightness: "@, l)
            + "!"@,
        Color::CMY(c, m, y) => triple_text("Cyan: "@, c, ", magenta: "@, m, ", yellow: "@, y) + "!"@,
        Color::CMYK(c, m, y, k) => triple_text("Cyan: "@, c, ", magenta: "@, m, ", yellow: "@, y)
            + ", key (black): "@ + dec_text(k as nat) + "!"@,
    }
}

fn push_triple(out: &mut String, a: &str, x: u32, b: &str, y: u32, c: &str, z: u32)
    ensures
        final(out)@ == old(out)@ + triple_text(a@, x, b@, y, c@, z),
{
    push_text(out, a);
    push_dec(out, x as u64);
    push_text(out, b);
    push_dec(out, y as u64);
    push_text(out, c);
    push_dec(out, z as u64);
    assert(final(out)@ =~= old(out)@ + triple_text(a@, x, b@, y, c@, z));
}

impl Color {
    /// Names the colour, or gives its components with their labels.
    pub fn describe(&self) -> (r: String)
        ensures
            r@ == color_text(*self),
    {
        let mut out = String::new();
        match *self {
            Color::Red => push_text(&mut out, "The color is red!"),
            Color::Blue => push_text(&mut out, "The color is blue!"),
            Color::Green => push_text(&mut out, "The color is green"),
            Color::RGB(r, g, b) => {
                push_triple(&mut out, "Red: ", r, ", green: ", g, ", and blue: ", b);
                push_text(&mut out, "!");
            },
            Color::HSV(h, s, v) => {
                push_triple(&mut out, "Hue: ", h, ", saturation: ", s, ", value: ", v);
                push_text(&mut out, "!");
            },
            Color::HSL(h, s, l) => {
                push_triple(&mut out, "Hue: ", h, ", saturation: ", s, ", lightness: ", l);
                push_text(&mut out, "!");
            },
            Color::CMY(c, m, y) => {
                push_triple(&mut out, "Cyan: ", c, ", magenta: ", m, ", yellow: ", y);
                push_text(&mut out, "!");
            },
            Color::CMYK(c, m, y, k) => {
                push_triple(&mut out, "Cyan: ", c, ", magenta: ", m, ", yellow: ", y);
                push_text(&mut out, ", key (black): ");
                push_dec(&mut out, k as u64);
                push_text(&mut out, "!");
            },
        }
        out
    }
}

/// A temperature on one of two scales.
#[derive(Debug, Clone, Copy, PartialEq, Eq, Structural)]
pub enum Temperature {
    Celsius(i32),
    Fahrenheit(i32),
}

/// The sentence for a temperature: above 30 Celsius or 86 Fahrenheit, or not.
pub open spec fn temperature_text(t: Temperature) -> Seq<char> {
    match t {
        Temperature::Celsius(c) => if c > 30 {
            int_text(c as int) + "C is above 30 Celsius"@
        } else {
            int_text(c as int) + "C is equal to or below 30 Celsius"@
        },
        Temperature::Fahrenheit(f) => if f > 86 {
            int_text(f as int) + "F is above 86 Fahrenheit"@
        } else {
            int_text(f as int) + "F is equal to or below 86 Fahrenheit"@
        },
    }
}

impl Temperature {
    /// Says whether the temperature is above its scale's threshold.
    pub fn describe(&self) -> (r: String)
        ensures
            r@ == temperature_text(*self),
    {
        let mut out = String::new();
        match *self {
            Temperature::Celsius(t) if t > 30 => {
                push_int(&mut out, t as i64);
                push_text(&mut out, "C is above 30 Celsius");
            },
            Temperature::Celsius(t) => {
                push_int(&mut out, t as i64);
                push_text(&mut out, "C is equal to or below 30 Celsius");
            },
            Temperature::Fahrenheit(t) if t > 86 => {
                push_int(&mut out, t as i64);
                push_text(&mut out, "F is above 86 Fahrenheit");
            },
            Temperature::Fahrenheit(t) => {
                push_int(&mut out, t as i64);
                push_text(&mut out, "F is equal to or below 86 Fahrenheit");
            },
        }
        out
    }
}

/// The age that the age examples start from.
pub fn age() -> (r: u32)
    ensures
        r == 15,
{
    15
}

/// The sentence for an age: not yet one, a child, a teen, or older.
pub open spec fn age_text(n: u32) -> Seq<char> {
    if n == 0 {
        "I haven't celebrated my first birthday yet"@
    } else if n <= 12 {
        "I'm a child of age "@ + dec_text(n as nat)
    } else if n <= 19 {
        "I'm a teen of age "@ + dec_text(n as nat)
    } else {
        "I'm an old person of age "@ + dec_text(n as nat)
    }
}

/// Places an age in its range and names it.
pub fn describe_age(n: u32) -> (r: String)
    ensures
        r@ == age_text(n),
{
    let mut out = String::new();
    match n {
        0 => push_text(&mut out, "I haven't celebrated my first birthday yet"),
        k @ 1..=12 => {
            push_text(&mut out, "I'm a child of age ");
            push_dec(&mut out, k as u64);
        },
        k @ 13..=19 => {
            push_text(&mut out, "I'm a teen of age ");
            push_dec(&mut out, k as u64);
        },
        k => {
            push_text(&mut out, "I'm an old person of age ");
            push_dec(&mut out, k as u64);
        },
    }
    out
}

/// The number that the answer example starts from.
pub fn some_number() -> (r: Option<u32>)
    ensures
        r == Some(40u32),
{
    Some(40)
}

/// The sentence for a present number: the answer when it is 42, else
/// "Not interesting... n"; nothing for an absent one.
pub fn describe_answer(o: Option<u32>) -> (r: Option<String>)
    ensures
        o is None ==> r is None,
        o == Some(42u32) ==> (r matches Some(s) && s@ == "The answer is 42"@),
        o is Some && o->0 != 42 ==> (r matches Some(s) && s@ == "Not interesting... "@
            + dec_text(o->0 as nat)),
{
    match o {
        Some(n @ 42) => {
            let mut out = String::new();
            push_text(&mut out, "The answer is ");
            push_dec(&mut out, n as u64);
            proof {
                reveal_strlit("The answer is ");
                reveal_strlit("The answer is 42");
                assert(dec_text(4) == seq!['4']);
                assert(dec_text(42) == dec_text(4).push('2'));
                assert(dec_text(42) =~= seq!['4', '2']);
            }
            assert(out@ =~= "The answer is 42"@);
            Some(out)
        },
        Some(n) => {
            let mut out = String::new();
            push_text(&mut out, "Not interesting... ");
            push_dec(&mut out, n as u64);
            Some(out)
        },
        _ => None,
    }
}

/// A record with a pair and a number.
#[derive(Debug, Clone, Copy)]
pub struct Foo {
    pub x: (u32, u32),
    pub y: u32,
}

/// The sentence for a record: its parts when the pair starts with 1, else
/// only `y`.
pub open spec fn foo_text(f: Foo) -> Seq<char> {
    if f.x.0 == 1 {
        "First of x is 1, b = "@ + dec_text(f.x.1 as nat) + ", y = "@ + dec_text(f.y as nat)
    } else {
        "y = "@ + dec_text(f.y as nat) + ", we don't care about x"@
    }
}

impl Foo {
    /// Destructures the record and describes it.
    pub fn describe(&self) -> (r: String)
        ensures
            r@ == foo_text(*self),
    {
        let mut out = String::new();
        match *self {
            Foo { x: (1, b), y } => {
                push_text(&mut out, "First of x is 1, b = ");
                push_dec(&mut out, b as u64);
                push_text(&mut out, ", y = ");
                push_dec(&mut out, y as u64);
            },
            Foo { y, .. } => {
                push_text(&mut out, "y = ");
                push_dec(&mut out, y as u64);
                push_text(&mut out, ", we don't care about x");
            },
        }
        out
    }
}

} // verus!
