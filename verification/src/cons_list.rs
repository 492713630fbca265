//! A boxed cons list of integers, with a verified textual rendering.

use vstd::prelude::*;
use crate::text::{dec_int, i32_to_dec};

verus! {

/// A singly linked list: each node owns its value and the rest of the
/// list on the heap.
pub enum ConsList {
    Data(i32, Box<ConsList>),
    Nil,
}

impl ConsList {
    /// The rest of the list, when there is one.
    pub fn get_next(&self) -> (r: Option<&ConsList>)
        ensures
            self matches ConsList::Data(v, next) ==> (r matches Some(n) && *n == *next),
            self is Nil ==> r is None,
    {
        match self {
            ConsList::Data(_, target) => Some(target),
            ConsList::Nil => None,
        }
    }

    /// Whether the list is empty.
    pub fn is_nil(&self) -> (r: bool)
        ensures
            r == (self is Nil),
    {
        match self {
            ConsList::Data(_, _) => false,
            ConsList::Nil => true,
        }
    }

    /// The values joined with arrows: `5 -> 10`.
    pub open spec fn spec_items(self) -> Seq<char>
        decreases self,
    {
        match self {
            ConsList::Nil => Seq::empty(),
            ConsList::Data(v, next) => dec_int(v as int) + (match *next {
                ConsList::Data(_, _) => " -> "@ + next.spec_items(),
                ConsList::Nil => Seq::empty(),
            }),
        }
    }

    /// The whole list's rendering: the joined values in brackets.
    pub open spec fn spec_render(self) -> Seq<char> {
        seq!['['] + self.spec_items() + seq![']']
    }

    fn items_text(&self) -> (r: String)
        ensures
            r@ == self.spec_items(),
        decreases *self,
    {
        match self {
            ConsList::Nil => String::new(),
            ConsList::Data(v, next) => {
                let mut out = i32_to_dec(*v);
                match &**next {
                    ConsList::Data(_, _) => {
                        out.append(" -> ");
                        let rest = next.items_text();
                        out.append(rest.as_str());
                    },
                    ConsList::Nil => {},
                }
                out
            },
        }
    }

    /// Renders the list as text, for example `[5 -> 10]`.
    pub fn to_text(&self) -> (r: String)
        ensures
            r@ == self.spec_render(),
    {
        proof {
            reveal_strlit("[");
            reveal_strlit("]");
        }
        let mut out = String::from_str("[");
        let items = self.items_text();
        out.append(items.as_str());
        out.append("]");
        proof {
            assert(out@ =~= self.spec_render());
        }
        out
    }
}

} // verus!
