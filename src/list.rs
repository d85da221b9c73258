//! A persistent singly-linked list of `u32` values: construction, prepend,
//! length and textual rendering.
use vstd::prelude::*;

use crate::decimal::{decimal, push_decimal};

verus! {

/// A singly-linked list: either the terminal `Nil`, or a value followed by
/// the list it exclusively owns.
pub enum List {
    Cons(u32, Box<List>),
    Nil,
}

/// The separator between two rendered values.
pub open spec fn separator() -> Seq<char> {
    seq![',', ' ']
}

/// The token that ends every rendering.
pub open spec fn terminator() -> Seq<char> {
    seq!['N', 'i', 'l']
}

/// The rendering of a list holding `values`, head first: each value in
/// decimal followed by the separator, then the terminator.
pub open spec fn render(values: Seq<u32>) -> Seq<char>
    decreases values.len(),
{
    if values.len() == 0 {
        terminator()
    } else {
        decimal(values[0] as nat) + separator() + render(values.drop_first())
    }
}

impl View for List {
    type V = Seq<u32>;

    /// The values of the list, head first.
    open spec fn view(&self) -> Seq<u32> {
        self.values()
    }
}

impl List {
    /// The values of the list, head first.
    pub open spec fn values(&self) -> Seq<u32>
        decreases self,
    {
        match self {
            List::Cons(v, tail) => seq![*v] + tail.values(),
            List::Nil => Seq::empty(),
        }
    }

    /// The list that results from prepending `values[0]`, then `values[1]`,
    /// and so on, onto this one.
    pub open spec fn prepend_all(self, values: Seq<u32>) -> List
        decreases values.len(),
    {
        if values.len() == 0 {
            self
        } else {
            List::Cons(values.last(), Box::new(self.prepend_all(values.drop_last())))
        }
    }

    /// An empty list.
    pub fn new() -> (r: List)
        ensures
            r == List::Nil,
            r@ == Seq::<u32>::empty(),
    {
        List::Nil
    }

    /// Consumes the list and returns it with `elem` in front.
    pub fn prepend(self, elem: u32) -> (r: List)
        ensures
            r == List::Cons(elem, Box::new(self)),
            r@ == seq![elem] + self@,
    {
        List::Cons(elem, Box::new(self))
    }

    /// The number of values in the list.
    pub fn len(&self) -> (r: u32)
        requires
            self@.len() <= u32::MAX,
        ensures
            r == self@.len(),
    {
        let mut count: u32 = 0;
        let mut cur: &List = self;
        loop
            invariant
                self@.len() <= u32::MAX,
                count + cur@.len() == self@.len(),
            ensures
                count == self@.len(),
            decreases cur@.len(),
        {
            match cur {
                List::Cons(_, tail) => {
                    count = count + 1;
                    cur = tail;
                },
                List::Nil => break,
            }
        }
        count
    }

    /// The list rendered as text: each value in decimal followed by `", "`,
    /// then `"Nil"`.
    pub fn stringify(&self) -> (r: String)
        ensures
            r@ == render(self@),
    {
        let mut out = String::new();
        let mut cur: &List = self;
        loop
            invariant_except_break
                out@ + render(cur@) == render(self@),
            ensures
                out@ == render(self@),
            decreases cur@.len(),
        {
            match cur {
                List::Cons(head, tail) => {
                    proof {
                        reveal_strlit(", ");
                    }
                    let ghost before = out@;
                    assert(cur@.drop_first() =~= tail@);
                    assert(cur@[0] == *head);
                    push_decimal(&mut out, *head);
                    out.append(", ");
                    assert(out@ =~= before + decimal(*head as nat) + separator());
                    assert(out@ + render(tail@) =~= before + render(cur@));
                    cur = tail;
                },
                List::Nil => {
                    proof {
                        reveal_strlit("Nil");
                    }
                    assert(render(cur@) == terminator());
                    out.append("Nil");
                    break;
                },
            }
        }
        out
    }
}

/// Prepending values onto a list puts them in front of its values in reverse
/// order of their arrival.
pub proof fn lemma_prepend_all_values(l: List, values: Seq<u32>)
    ensures
        l.prepend_all(values)@ == values.reverse() + l@,
    decreases values.len(),
{
    if values.len() > 0 {
        lemma_prepend_all_values(l, values.drop_last());
        assert(values.reverse() =~= seq![values.last()] + values.drop_last().reverse());
        assert(l.prepend_all(values)@ =~= values.reverse() + l@);
    }
}

/// A list built from the empty list by prepending any `n` values has length `n`.
pub proof fn lemma_built_len(values: Seq<u32>)
    ensures
        List::Nil.prepend_all(values)@.len() == values.len(),
{
    lemma_prepend_all_values(List::Nil, values);
}

/// Prepending one value to any list adds one to its length.
pub proof fn lemma_prepend_len(l: List, v: u32)
    ensures
        List::Cons(v, Box::new(l))@.len() == 1 + l@.len(),
{
}

} // verus!
