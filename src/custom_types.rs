//! Structs and enums of several shapes, with the small behaviour attached to
//! them.
use vstd::prelude::*;

use crate::text::{int_text, push_char, push_int, push_text};

verus! {

/// A person with a name and an age.
#[derive(Debug, Clone, PartialEq, Eq)]
pub struct Person {
    pub name: String,
    pub age: u8,
}

/// A marker that carries no data.
#[derive(Debug, Clone, Copy, PartialEq, Eq, Structural)]
pub struct Unit;

/// Something that happened on a web page.
#[derive(Debug, Clone, PartialEq, Eq)]
pub enum WebEvent {
    PageLoad,
    PageUnload,
    KeyPress(char),
    Paste(String),
    Click { x: i64, y: i64 },
}

/// The message that describes an event.
pub open spec fn event_text(event: WebEvent) -> Seq<char> {
    match event {
        WebEvent::PageLoad => "page loaded"@,
        WebEvent::PageUnload => "page unloaded"@,
        WebEvent::KeyPress(c) => "pressed '"@.push(c).push('\''),
        WebEvent::Paste(s) => "pasted \""@ + s@ + seq!['"'],
        WebEvent::Click { x, y } => "clicked at x="@ + int_text(x as int) + ", y="@ + int_text(
            y as int,
        ),
    }
}

/// Describes an event in one line.
pub fn inspect(event: &WebEvent) -> (r: String)
    ensures
        r@ == event_text(*event),
{
    let mut out = String::new();
    match event {
        WebEvent::PageLoad => push_text(&mut out, "page loaded"),
        WebEvent::PageUnload => push_text(&mut out, "page unloaded"),
        WebEvent::KeyPress(c) => {
            push_text(&mut out, "pressed '");
            push_char(&mut out, *c);
            push_char(&mut out, '\'');
        },
        WebEvent::Paste(s) => {
            push_text(&mut out, "pasted \"");
            push_text(&mut out, s.as_str());
            push_char(&mut out, '"');
            assert(out@ =~= "pasted \""@ + s@ + seq!['"']);
        },
        WebEvent::Click { x, y } => {
            push_text(&mut out, "clicked at x=");
            push_int(&mut out, *x);
            push_text(&mut out, ", y=");
            push_int(&mut out, *y);
        },
    }
    assert(out@ =~= event_text(*event));
    out
}

/// The two arithmetic operations.
#[derive(Debug, Clone, Copy, PartialEq, Eq, Structural)]
pub enum VeryVerboseEnumOfThingsToDoWithNumbers {
    Add,
    Subtract,
}

/// A shorter name for the operations.
pub type Operations = VeryVerboseEnumOfThingsToDoWithNumbers;

impl VeryVerboseEnumOfThingsToDoWithNumbers {
    /// The exact value of the operation on `x` and `y`.
    pub open spec fn spec_run(&self, x: int, y: int) -> int {
        match self {
            VeryVerboseEnumOfThingsToDoWithNumbers::Add => x + y,
            VeryVerboseEnumOfThingsToDoWithNumbers::Subtract => x - y,
        }
    }

    /// Applies the operation: `x + y` or `x - y`.
    pub fn run(&self, x: i32, y: i32) -> (r: i32)
        requires
            i32::MIN <= self.spec_run(x as int, y as int) <= i32::MAX,
        ensures
            r == self.spec_run(x as int, y as int),
    {
        match self {
            Self::Add => x + y,
            Self::Subtract => x - y,
        }
    }
}

/// How far a learner has come.
#[derive(Debug, Clone, Copy, PartialEq, Eq, Structural)]
pub enum Stage {
    Beginner,
    Advanced,
}

impl Stage {
    /// The sentence that goes with the stage.
    pub fn message(&self) -> (r: &'static str)
        ensures
            *self == Stage::Beginner ==> r@ == "Beginners are starting their learning journey!"@,
            *self == Stage::Advanced ==> r@ == "Advanced learners are mastering their subjects"@,
    {
        match self {
            Stage::Beginner => "Beginners are starting their learning journey!",
            Stage::Advanced => "Advanced learners are mastering their subjects",
        }
    }
}

/// Three numbers that stand for the integers 0, 1 and 2 in order.
#[derive(Debug, Clone, Copy, PartialEq, Eq, Structural)]
pub enum Number {
    Zero,
    One,
    Two,
}

impl Number {
    /// The integer the variant stands for: its place in the declaration.
    pub fn to_i32(&self) -> (r: i32)
        ensures
            r == match *self {
                Number::Zero => 0i32,
                Number::One => 1i32,
                Number::Two => 2i32,
            },
    {
        match self {
            Number::Zero => 0,
            Number::One => 1,
            Number::Two => 2,
        }
    }
}

/// The name of the language.
pub const LANGUAGE: &'static str = "Rust";

/// The bound above which a number counts as big.
pub const THRESHOLD: i32 = 10;

/// Whether `n` is above the threshold.
pub fn is_big(n: i32) -> (r: bool)
    ensures
        r == (n > THRESHOLD),
{
    n > THRESHOLD
}

} // verus!
