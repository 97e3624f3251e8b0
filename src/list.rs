//! A singly linked list of `u32` built from a recursive enum.
use vstd::prelude::*;

use crate::text::{dec_text, push_dec};

verus! {

/// Either the end marker or an element followed by the rest of the list.
pub enum List {
    Cons(u32, Box<List>),
    Nil,
}

impl List {
    /// The elements from the head to the end.
    pub open spec fn elems(&self) -> Seq<u32>
        decreases self,
    {
        match self {
            List::Cons(head, tail) => seq![*head] + tail.elems(),
            List::Nil => Seq::empty(),
        }
    }
}

impl View for List {
    type V = Seq<u32>;

    open spec fn view(&self) -> Seq<u32> {
        self.elems()
    }
}

/// The rendering of a list: each element followed by ", ", then "Nil".
pub open spec fn list_text(s: Seq<u32>) -> Seq<char>
    decreases s.len(),
{
    if s.len() == 0 {
        seq!['N', 'i', 'l']
    } else {
        dec_text(s[0] as nat) + seq![',', ' '] + list_text(s.drop_first())
    }
}

impl List {
    /// The empty list.
    pub fn new() -> (r: List)
        ensures
            r@ == Seq::<u32>::empty(),
    {
        List::Nil
    }

    /// Consumes the list and returns it with `elem` in front.
    pub fn prepend(self, elem: u32) -> (r: List)
        ensures
            r@ == seq![elem] + self@,
    {
        List::Cons(elem, Box::new(self))
    }

    /// The number of elements.
    pub fn len(&self) -> (r: u32)
        requires
            self@.len() <= u32::MAX,
        ensures
            r == self@.len(),
        decreases self,
    {
        match self {
            List::Cons(_, tail) => 1 + tail.len(),
            List::Nil => 0,
        }
    }

    /// Appends the rendering of the list to `out`.
    fn push_text(&self, out: &mut String)
        ensures
            final(out)@ == old(out)@ + list_text(self@),
        decreases self,
    {
        match self {
            List::Cons(head, tail) => {
                push_dec(out, *head as u64);
                out.append(", ");
                proof {
                    reveal_strlit(", ");
                }
                tail.push_text(out);
                assert(self@.drop_first() =~= tail@);
                assert(final(out)@ =~= old(out)@ + list_text(self@));
            },
            List::Nil => {
                out.append("Nil");
                proof {
                    reveal_strlit("Nil");
                }
                assert(final(out)@ =~= old(out)@ + list_text(self@));
            },
        }
    }

    /// The elements in decimal, separated by ", " and ended by "Nil".
    pub fn stringify(&self) -> (r: String)
        ensures
            r@ == list_text(self@),
    {
        let mut out = String::new();
        self.push_text(&mut out);
        assert(out@ =~= list_text(self@));
        out
    }
}

} // verus!
