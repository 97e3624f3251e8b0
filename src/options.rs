//! Control flow driven by destructuring: reading a "count item" pair, and a
//! retry loop that runs while a value is present.
use vstd::prelude::*;

use crate::conversion::{parse_u64, u64_from_text};
use crate::text::{dec_text, int_text, push_dec, push_int, push_text, texts};

verus! {

/// End of the field that starts at `from`: the first space at or after it,
/// or the end of the text.
pub open spec fn field_end(s: Seq<char>, from: int) -> int
    decreases s.len() - from,
{
    if from >= s.len() {
        s.len() as int
    } else if s[from] == ' ' {
        from
    } else {
        field_end(s, from + 1)
    }
}

/// Why a text is not a "count item" pair.
#[derive(Debug, Clone, Copy, PartialEq, Eq, Structural)]
pub enum CountItemError {
    /// The text holds no space, so it does not split in two.
    Unsegmented,
    /// The part before the first space is not an unsigned integer.
    BadCount,
}

/// The outcome of reading `s` as a count, a space and an item; the item is
/// everything after the first space.
pub open spec fn count_item_of(s: Seq<char>) -> Result<(u64, Seq<char>), CountItemError> {
    let e = field_end(s, 0);
    if e == s.len() {
        Err(CountItemError::Unsegmented)
    } else {
        match u64_from_text(s.subrange(0, e)) {
            Err(_) => Err(CountItemError::BadCount),
            Ok(c) => Ok((c, s.subrange(e + 1, s.len() as int))),
        }
    }
}

/// The index where the field starting at `from` ends.
fn find_field_end(s: &str, from: usize) -> (r: usize)
    requires
        from <= s@.len(),
    ensures
        r == field_end(s@, from as int),
{
    let n = s.unicode_len();
    let mut i = from;
    while i < n
        invariant
            n == s@.len(),
            from <= i <= n,
            field_end(s@, from as int) == field_end(s@, i as int),
        decreases n - i,
    {
        if s.get_char(i) == ' ' {
            return i;
        }
        i = i + 1;
    }
    i
}

proof fn lemma_field_end_bounds(s: Seq<char>, from: int)
    requires
        0 <= from <= s.len(),
    ensures
        from <= field_end(s, from) <= s.len(),
    decreases s.len() - from,
{
    if from < s.len() && s[from] != ' ' {
        lemma_field_end_bounds(s, from + 1);
    }
}

/// Splits "count item" in two at the first space and reads the count as a
/// `u64`. The item is the remainder after that space.
pub fn get_count_item(s: &str) -> (r: Result<(u64, &str), CountItemError>)
    ensures
        match r {
            Ok((c, item)) => count_item_of(s@) == Ok::<(u64, Seq<char>), CountItemError>((c, item@)),
            Err(e) => count_item_of(s@) == Err::<(u64, Seq<char>), CountItemError>(e),
        },
{
    let n = s.unicode_len();
    let e = find_field_end(s, 0);
    proof {
        lemma_field_end_bounds(s@, 0);
    }
    if e == n {
        return Err(CountItemError::Unsegmented);
    }
    let count_text = s.substring_char(0, e);
    match parse_u64(count_text) {
        Err(_) => Err(CountItemError::BadCount),
        Ok(count) => {
            let item = s.substring_char(e + 1, n);
            Ok((count, item))
        },
    }
}

/// The message that reports why `s` is not a "count item" pair.
pub fn count_item_error_message(s: &str, e: CountItemError) -> (r: String)
    ensures
        e == CountItemError::Unsegmented ==> r@ == "Can't segment count item pair: '"@ + s@ + "'"@,
        e == CountItemError::BadCount ==> r@ == "Can't parse integer: '"@ + s@.subrange(
            0,
            field_end(s@, 0),
        ) + "'"@,
{
    let mut out = String::new();
    match e {
        CountItemError::Unsegmented => {
            push_text(&mut out, "Can't segment count item pair: '");
            push_text(&mut out, s);
        },
        CountItemError::BadCount => {
            let end = find_field_end(s, 0);
            proof {
                lemma_field_end_bounds(s@, 0);
            }
            push_text(&mut out, "Can't parse integer: '");
            push_text(&mut out, s.substring_char(0, end));
        },
    }
    push_text(&mut out, "'");
    out
}

/// The line for a value that is not yet above nine.
pub open spec fn try_again_text(i: nat) -> Seq<char> {
    "i is "@ + dec_text(i) + ". Try again!"@
}

/// A measure that the retry step lowers.
pub open spec fn retry_measure(o: Option<u32>) -> nat {
    match o {
        None => 0,
        Some(i) => if i > 9 {
            1
        } else {
            (12 - i) as nat
        },
    }
}

/// The lines of the retry loop that starts from `o`: one "try again" line
/// for each value up to nine, then "Greater than 9, quit!".
pub open spec fn retry_lines(o: Option<u32>) -> Seq<Seq<char>>
    decreases retry_measure(o),
{
    match o {
        None => Seq::empty(),
        Some(i) => if i > 9 {
            seq!["Greater than 9, quit!"@]
        } else {
            seq![try_again_text(i as nat)] + retry_lines(Some((i + 1) as u32))
        },
    }
}

fn try_again_line(i: u32) -> (r: String)
    ensures
        r@ == try_again_text(i as nat),
{
    let mut out = String::new();
    push_text(&mut out, "i is ");
    push_dec(&mut out, i as u64);
    push_text(&mut out, ". Try again!");
    out
}

fn quit_line() -> (r: String)
    ensures
        r@ == "Greater than 9, quit!"@,
{
    let mut out = String::new();
    push_text(&mut out, "Greater than 9, quit!");
    out
}

/// The retry loop written as a plain loop that matches on the value and
/// breaks once it is absent.
pub fn retry_with_loop(start: Option<u32>) -> (r: Vec<String>)
    ensures
        texts(r@) == retry_lines(start),
{
    let mut optional = start;
    let mut out: Vec<String> = Vec::new();
    loop
        invariant
            texts(out@) + retry_lines(optional) == retry_lines(start),
        ensures
            texts(out@) == retry_lines(start),
        decreases retry_measure(optional),
    {
        match optional {
            Some(i) => {
                let ghost before = out@;
                if i > 9 {
                    out.push(quit_line());
                    optional = None;
                } else {
                    out.push(try_again_line(i));
                    optional = Some(i + 1);
                }
                assert(texts(out@) =~= texts(before).push(out@.last()@));
                assert(texts(out@) + retry_lines(optional) =~= texts(before) + retry_lines(Some(i)));
            },
            _ => {
                assert(texts(out@) + retry_lines(optional) =~= texts(out@));
                break;
            },
        }
    }
    out
}

/// The retry loop written as a loop whose condition is that the value is
/// present.
pub fn retry_with_while_let(start: Option<u32>) -> (r: Vec<String>)
    ensures
        texts(r@) == retry_lines(start),
{
    let mut optional = start;
    let mut out: Vec<String> = Vec::new();
    while optional.is_some()
        invariant
            texts(out@) + retry_lines(optional) == retry_lines(start),
        decreases retry_measure(optional),
    {
        let i = optional.unwrap();
        let ghost before = out@;
        if i > 9 {
            out.push(quit_line());
            optional = None;
        } else {
            out.push(try_again_line(i));
            optional = Some(i + 1);
        }
        assert(texts(out@) =~= texts(before).push(out@.last()@));
        assert(texts(out@) + retry_lines(optional) =~= texts(before) + retry_lines(Some(i)));
    }
    assert(texts(out@) + retry_lines(optional) =~= texts(out@));
    out
}

/// Both ways of writing the retry loop give the same lines from the same
/// start.
pub proof fn lemma_retry_forms_agree(start: Option<u32>, a: Seq<String>, b: Seq<String>)
    requires
        texts(a) == retry_lines(start),
        texts(b) == retry_lines(start),
    ensures
        texts(a) == texts(b),
{
}

/// The line for an optional number and a liking for letters: the number
/// when present, else a letter or an emoticon as the flag says.
pub open spec fn fallback_text(o: Option<i32>, like_letters: bool) -> Seq<char> {
    match o {
        Some(i) => "Matched "@ + int_text(i as int),
        None => if like_letters {
            "Didn't match a number. Let's go with a letter!"@
        } else {
            "I don't like letters. Let's go with an emoticon"@
        },
    }
}

/// Destructures the number if it is there; otherwise lets the flag choose
/// between the two fallbacks.
pub fn fallback_choice(o: Option<i32>, like_letters: bool) -> (r: String)
    ensures
        r@ == fallback_text(o, like_letters),
{
    let mut out = String::new();
    if let Some(i) = o {
        push_text(&mut out, "Matched ");
        push_int(&mut out, i as i64);
    } else if like_letters {
        push_text(&mut out, "Didn't match a number. Let's go with a letter!");
    } else {
        push_text(&mut out, "I don't like letters. Let's go with an emoticon");
    }
    out
}

/// An enum with two bare variants and one that carries a number.
#[derive(Debug, Clone, Copy, PartialEq, Eq, Structural)]
pub enum Foo {
    Bar,
    Baz,
    Qux(u32),
}

impl Foo {
    /// Whether the value is `Bar`.
    pub fn is_bar(&self) -> (r: bool)
        ensures
            r == (*self == Foo::Bar),
    {
        if let Foo::Bar = self {
            true
        } else {
            false
        }
    }

    /// The number carried by a `Qux`, if the value is one.
    pub fn qux_value(&self) -> (r: Option<u32>)
        ensures
            r == (match *self {
                Foo::Qux(v) => Some(v),
                _ => None,
            }),
    {
        if let Foo::Qux(value) = self {
            Some(*value)
        } else {
            None
        }
    }

    /// Whether the value is a `Qux` carrying exactly one hundred.
    pub fn is_qux_hundred(&self) -> (r: bool)
        ensures
            r == (*self == Foo::Qux(100)),
    {
        if let Foo::Qux(100) = self {
            true
        } else {
            false
        }
    }
}

} // verus!
