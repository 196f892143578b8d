//! The tagged, self-describing values that cross the call boundary.
//!
//! A term is a number, a name, a tuple of terms, or something this library
//! has no use for. A vector travels as a tuple whose first item names its
//! shape and whose other items are its components; a matrix travels as a
//! tuple of its name and its row vectors.

use vstd::prelude::*;

verus! {

/// A double-precision number, held by its IEEE 754 bit pattern.
///
/// The library carries numbers from one side of the boundary to the other
/// and never calculates with them, so the pattern is all it needs.
#[derive(Clone, Copy, Debug, PartialEq, Eq, Structural)]
pub struct Scalar {
    pub bits: u64,
}

/// A value as the host hands it over, or as it is handed back.
#[derive(Debug, PartialEq, Eq)]
pub enum Term {
    /// A floating-point number.
    Number(Scalar),
    /// A name, such as the tag of a shape.
    Atom(String),
    /// An ordered group of terms.
    Tuple(Vec<Term>),
    /// Any other term of the host: a list, a map, a binary and so on.
    Opaque,
}

/// What a [`Term`] stands for.
pub ghost enum TermView {
    Number(Scalar),
    Atom(Seq<char>),
    Tuple(Seq<TermView>),
    Opaque,
}

/// The mathematical value of a term: names by their characters, tuples by
/// the values of their items.
pub open spec fn term_view(term: Term) -> TermView
    decreases term,
{
    match term {
        Term::Number(x) => TermView::Number(x),
        Term::Atom(name) => TermView::Atom(name@),
        Term::Tuple(items) => TermView::Tuple(items_view(items@)),
        Term::Opaque => TermView::Opaque,
    }
}

/// The values of the items of a tuple, in order.
pub open spec fn items_view(items: Seq<Term>) -> Seq<TermView>
    decreases items,
{
    Seq::new(
        items.len(),
        |i: int|
            if 0 <= i < items.len() {
                term_view(items[i])
            } else {
                TermView::Opaque
            },
    )
}

impl View for Term {
    type V = TermView;

    open spec fn view(&self) -> TermView {
        term_view(*self)
    }
}

impl TermView {
    /// The items of a tuple; of any other term, none.
    pub open spec fn items(self) -> Seq<TermView> {
        match self {
            TermView::Tuple(items) => items,
            _ => Seq::empty(),
        }
    }

    /// Whether the term is a tuple of `count + 1` items that starts with the
    /// name `tag`.
    pub open spec fn is_tagged(self, tag: Seq<char>, count: nat) -> bool {
        &&& self is Tuple
        &&& self.items().len() == count + 1
        &&& self.items()[0] == TermView::Atom(tag)
    }
}

impl Clone for Term {
    /// A copy that stands for the same value.
    fn clone(&self) -> (copy: Term)
        ensures
            copy@ == self@,
        decreases self,
    {
        match self {
            Term::Number(x) => Term::Number(*x),
            Term::Atom(name) => Term::Atom(name.clone()),
            Term::Tuple(items) => {
                let mut copies: Vec<Term> = Vec::new();
                let mut i: usize = 0;
                while i < items.len()
                    invariant
                        *self == Term::Tuple(*items),
                        0 <= i <= items.len(),
                        copies@.len() == i,
                        forall|j: int| 0 <= j < i ==> term_view(copies@[j]) == term_view(items@[j]),
                    decreases items.len() - i,
                {
                    assert(decreases_to!(*self => self->Tuple_0));
                    let copy = items[i].clone();
                    copies.push(copy);
                    i += 1;
                }
                assert(items_view(copies@) =~= items_view(items@));
                Term::Tuple(copies)
            },
            Term::Opaque => Term::Opaque,
        }
    }
}

} // verus!
