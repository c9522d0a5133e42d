//! Names and the places in the source text they come from.
use crate::duplicate::Duplicate;
use crate::ordered::{order_of, Key, Order};
use vstd::prelude::*;

verus! {

/// A stretch of source text: the file it is in, and where it starts and ends there.
/// File 0 is the empty text.
#[derive(Clone, Copy, Debug, PartialEq, Eq, Structural)]
pub struct Span {
    pub source: u64,
    pub start: u64,
    pub end: u64,
}

impl Span {
    /// The span of what stands in no source text.
    pub fn dummy() -> (span: Span)
        ensures
            span == dummy_span(),
    {
        Span { source: 0, start: 0, end: 0 }
    }
}

/// The span of what stands in no source text.
pub open spec fn dummy_span() -> Span {
    Span { source: 0, start: 0, end: 0 }
}

/// A name and where it stands. Two identifiers are equal when their names are.
#[derive(Clone, Debug)]
pub struct Ident {
    pub name: String,
    pub span: Span,
}

/// An identifier as a mathematical value.
pub struct IdentView {
    pub name: Seq<char>,
    pub span: Span,
}

impl View for Ident {
    type V = IdentView;

    open spec fn view(&self) -> IdentView {
        IdentView { name: self.name@, span: self.span }
    }
}

impl Duplicate for Ident {
    fn duplicate(&self) -> (copy: Ident) {
        Ident { name: self.name.clone(), span: self.span }
    }
}

impl PartialEq for Ident {
    fn eq(&self, other: &Ident) -> (same: bool) {
        self.name == other.name
    }
}

impl vstd::std_specs::cmp::PartialEqSpecImpl for Ident {
    open spec fn obeys_eq_spec() -> bool {
        true
    }

    open spec fn eq_spec(&self, other: &Ident) -> bool {
        self.name@ == other.name@
    }
}

impl Eq for Ident {}

/// The characters of a name as integers.
pub open spec fn name_rank(name: Seq<char>) -> Seq<int> {
    name.map_values(|c: char| c as int)
}

proof fn lemma_char_nonnegative(c: char)
    ensures
        c as int >= 0,
{
}

/// Ranks of characters are not negative.
pub proof fn lemma_name_rank_nonnegative(name: Seq<char>)
    ensures
        forall|i: int| 0 <= i < name_rank(name).len() ==> #[trigger] name_rank(name)[i] >= 0,
{
    assert forall|i: int| 0 <= i < name_rank(name).len() implies #[trigger] name_rank(name)[i]
        >= 0 by {
        assert(name_rank(name)[i] == name[i] as int);
        lemma_char_nonnegative(name[i]);
    }
}

/// Different names have different ranks.
pub proof fn lemma_name_rank_injective(a: Seq<char>, b: Seq<char>)
    ensures
        name_rank(a) == name_rank(b) <==> a == b,
{
    if name_rank(a) == name_rank(b) {
        assert(a.len() == name_rank(a).len() && b.len() == name_rank(b).len());
        assert forall|i: int| 0 <= i < a.len() implies a[i] == b[i] by {
            assert(name_rank(a)[i] == a[i] as int);
            assert(name_rank(b)[i] == b[i] as int);
        }
        assert(a =~= b);
    }
}

impl Key for Ident {
    /// Identifiers are ordered by the characters of their names.
    open spec fn rank(&self) -> Seq<int> {
        name_rank(self.name@)
    }

    fn compare(&self, other: &Ident) -> (order: Order) {
        let mut left = self.name.as_str().chars();
        let mut right = other.name.as_str().chars();
        let ghost a = self.rank();
        let ghost b = other.rank();
        loop
            invariant
                a == self.rank(),
                b == other.rank(),
                vstd::std_specs::iter::IteratorSpec::decrease(&left) is Some,
                order_of(a, b) == order_of(
                    name_rank(vstd::std_specs::iter::IteratorSpec::remaining(&left)),
                    name_rank(vstd::std_specs::iter::IteratorSpec::remaining(&right)),
                ),
            decreases vstd::std_specs::iter::IteratorSpec::decrease(&left)->0,
        {
            let ghost l = vstd::std_specs::iter::IteratorSpec::remaining(&left);
            let ghost r = vstd::std_specs::iter::IteratorSpec::remaining(&right);
            match left.next() {
                None => {
                    assert(name_rank(l) =~= Seq::<int>::empty());
                    return match right.next() {
                        None => {
                            assert(name_rank(r) =~= Seq::<int>::empty());
                            Order::Equal
                        },
                        Some(_) => Order::Less,
                    };
                },
                Some(c) => match right.next() {
                    None => {
                        assert(name_rank(r) =~= Seq::<int>::empty());
                        return Order::Greater;
                    },
                    Some(d) => {
                        if c < d {
                            return Order::Less;
                        }
                        if d < c {
                            return Order::Greater;
                        }
                        proof {
                            assert(name_rank(l).drop_first() =~= name_rank(l.drop_first()));
                            assert(name_rank(r).drop_first() =~= name_rank(r.drop_first()));
                            assert(name_rank(l) =~= seq![c as int] + name_rank(l.drop_first()));
                            assert(name_rank(r) =~= seq![d as int] + name_rank(r.drop_first()));
                        }
                    },
                },
            }
        }
    }
}

} // verus!
