//! Types, as far as the checks look into them, and substitutions of types.
//!
//! A type is known by its number in the type engine. Whatever else belongs to a type
//! argument or a type parameter is kept by the compiler under a key.
use crate::duplicate::Duplicate;
use crate::ident::{lemma_name_rank_injective, lemma_name_rank_nonnegative, name_rank, Ident, Span};
use crate::ordered::{lex_less, put_all, Key, Order, SortedMap};
use vstd::prelude::*;

verus! {

/// A type, by its number in the type engine.
#[derive(Clone, Copy, Debug, PartialEq, Eq, Structural)]
pub struct TypeId {
    pub index: u64,
}

impl Duplicate for TypeId {
    fn duplicate(&self) -> (copy: TypeId) {
        *self
    }
}

impl Key for TypeId {
    /// Types are ordered by their numbers.
    open spec fn rank(&self) -> Seq<int> {
        seq![self.index as int]
    }

    fn compare(&self, other: &TypeId) -> (order: Order) {
        proof {
            let a = self.rank();
            let b = other.rank();
            assert(a == b <==> a[0] == b[0]) by {
                if a[0] == b[0] {
                    assert(a =~= b);
                }
            }
        }
        if self.index == other.index {
            Order::Equal
        } else if self.index < other.index {
            Order::Less
        } else {
            Order::Greater
        }
    }
}

/// A type written as an argument, and where it is written.
#[derive(Clone, Copy, Debug, PartialEq, Eq, Structural)]
pub struct TypeArgument {
    pub type_id: TypeId,
    pub span: Span,
    pub key: u64,
}

/// A type parameter. `key` leads to its trait constraints.
#[derive(Clone, Copy, Debug, PartialEq, Eq, Structural)]
pub struct TypeParameter {
    pub type_id: TypeId,
    pub span: Span,
    pub is_from_parent: bool,
    pub key: u64,
}

impl Duplicate for TypeArgument {
    fn duplicate(&self) -> (copy: TypeArgument) {
        *self
    }
}

impl Duplicate for TypeParameter {
    fn duplicate(&self) -> (copy: TypeParameter) {
        *self
    }
}

/// A type to be made in the type engine.
#[derive(Clone, Debug, PartialEq, Eq)]
pub enum TypeInfo {
    SelfType,
    Unknown,
    TraitType { name: Ident, trait_type_id: TypeId },
}

/// A substitution: which type stands for which.
pub type TypeSubstMap = SortedMap<TypeId, TypeId>;

/// Each type parameter beside the argument in its place; the longer list's rest is left
/// out.
pub open spec fn parameter_pairs(
    type_parameters: Seq<TypeParameter>,
    type_arguments: Seq<TypeArgument>,
) -> Seq<(TypeId, TypeId)> {
    let n = if type_parameters.len() < type_arguments.len() {
        type_parameters.len()
    } else {
        type_arguments.len()
    };
    Seq::new(n, |i: int| (type_parameters[i].type_id, type_arguments[i].type_id))
}

/// The substitution of arguments for parameters.
pub open spec fn subst_map(
    type_parameters: Seq<TypeParameter>,
    type_arguments: Seq<TypeArgument>,
) -> Seq<(TypeId, TypeId)> {
    put_all(Seq::empty(), parameter_pairs(type_parameters, type_arguments))
}

/// The substitution that replaces each type parameter by the argument in its place.
pub fn from_type_parameters_and_type_arguments(
    type_parameters: &Vec<TypeParameter>,
    type_arguments: &Vec<TypeArgument>,
) -> (map: TypeSubstMap)
    ensures
        map@ == subst_map(type_parameters@, type_arguments@),
{
    let mut map: TypeSubstMap = SortedMap::new();
    let ghost pairs = parameter_pairs(type_parameters@, type_arguments@);
    let mut i: usize = 0;
    assert(pairs.skip(0) =~= pairs);
    while i < type_parameters.len() && i < type_arguments.len()
        invariant
            i <= pairs.len(),
            pairs == parameter_pairs(type_parameters@, type_arguments@),
            put_all(Seq::empty(), pairs) == put_all(map@, pairs.skip(i as int)),
        decreases type_parameters@.len() - i,
    {
        assert(pairs.skip(i as int).drop_first() =~= pairs.skip(i + 1));
        map.insert(type_parameters[i].type_id, type_arguments[i].type_id);
        i = i + 1;
    }
    assert(pairs.skip(i as int).len() == 0);
    map
}

/// The name of an item and the type it is an item of.
#[derive(Clone, Debug, PartialEq, Eq)]
pub struct ItemKey {
    pub name: Ident,
    pub type_id: TypeId,
}

impl Duplicate for ItemKey {
    fn duplicate(&self) -> (copy: ItemKey) {
        ItemKey { name: self.name.duplicate(), type_id: self.type_id }
    }
}

/// What an item is ordered by: its name first, its type second. The -1 between them comes
/// before every character.
pub open spec fn item_rank(name: Seq<char>, type_id: TypeId) -> Seq<int> {
    name_rank(name) + seq![-1, type_id.index as int]
}

/// What comes before stays before with tails behind both, if the first tail starts with -1.
pub proof fn lemma_less_with_tails(a: Seq<int>, b: Seq<int>, s: Seq<int>, t: Seq<int>)
    requires
        lex_less(a, b),
        s.len() > 0,
        s[0] == -1,
        forall|i: int| 0 <= i < b.len() ==> b[i] >= 0,
    ensures
        lex_less(a + s, b + t),
    decreases a.len(),
{
    if a.len() == 0 {
        assert((a + s)[0] == -1);
        assert((b + t)[0] == b[0]);
    } else {
        assert((a + s)[0] == a[0]);
        assert((b + t)[0] == b[0]);
        if a[0] == b[0] {
            assert((a + s).drop_first() =~= a.drop_first() + s);
            assert((b + t).drop_first() =~= b.drop_first() + t);
            lemma_less_with_tails(a.drop_first(), b.drop_first(), s, t);
        }
    }
}

/// Behind a common head the tails decide.
pub proof fn lemma_common_head(a: Seq<int>, s: Seq<int>, t: Seq<int>)
    ensures
        lex_less(a + s, a + t) == lex_less(s, t),
    decreases a.len(),
{
    if a.len() == 0 {
        assert(a + s =~= s);
        assert(a + t =~= t);
    } else {
        assert((a + s).drop_first() =~= a.drop_first() + s);
        assert((a + t).drop_first() =~= a.drop_first() + t);
        lemma_common_head(a.drop_first(), s, t);
    }
}

/// Items are told apart by name and type together.
pub proof fn lemma_item_rank_injective(n: Seq<char>, m: Seq<char>, s: TypeId, t: TypeId)
    ensures
        item_rank(n, s) == item_rank(m, t) <==> n == m && s == t,
{
    let a = item_rank(n, s);
    let b = item_rank(m, t);
    if a == b {
        assert(a.len() == n.len() + 2 && b.len() == m.len() + 2);
        assert(n.len() == m.len());
        assert(name_rank(n) =~= a.take(n.len() as int));
        assert(name_rank(m) =~= b.take(m.len() as int));
        lemma_name_rank_injective(n, m);
        assert(a[n.len() as int + 1] == s.index as int);
        assert(b[m.len() as int + 1] == t.index as int);
    }
}

impl Key for ItemKey {
    /// Items are ordered by name, and those of one name by type.
    open spec fn rank(&self) -> Seq<int> {
        item_rank(self.name.name@, self.type_id)
    }

    fn compare(&self, other: &ItemKey) -> (order: Order) {
        let ghost a = name_rank(self.name.name@);
        let ghost b = name_rank(other.name.name@);
        let ghost s = seq![-1, self.type_id.index as int];
        let ghost t = seq![-1, other.type_id.index as int];
        proof {
            lemma_item_rank_injective(
                self.name.name@,
                other.name.name@,
                self.type_id,
                other.type_id,
            );
            lemma_name_rank_injective(self.name.name@, other.name.name@);
            lemma_name_rank_nonnegative(self.name.name@);
            lemma_name_rank_nonnegative(other.name.name@);
            assert(self.rank() == a + s);
            assert(other.rank() == b + t);
        }
        match self.name.compare(&other.name) {
            Order::Less => {
                proof {
                    lemma_less_with_tails(a, b, s, t);
                }
                Order::Less
            },
            Order::Greater => {
                proof {
                    crate::ordered::lemma_lex_total(a, b);
                    lemma_less_with_tails(b, a, t, s);
                    crate::ordered::lemma_lex_asymmetric(b + t, a + s);
                }
                Order::Greater
            },
            Order::Equal => {
                proof {
                    lemma_common_head(a, s, t);
                    assert(s.drop_first() =~= self.type_id.rank());
                    assert(t.drop_first() =~= other.type_id.rank());
                    assert(lex_less(s, t) == lex_less(self.type_id.rank(), other.type_id.rank()));
                    assert(self.type_id.rank()[0] == self.type_id.index);
                    assert(other.type_id.rank()[0] == other.type_id.index);
                }
                self.type_id.compare(&other.type_id)
            },
        }
    }
}

} // verus!
