//! What the maps are ordered by, and which keys are the same to them.
use crate::ident::{lemma_name_rank_injective, lemma_name_rank_nonnegative, name_rank, Ident};
use crate::ordered::{lemma_lex_asymmetric, lemma_lex_irreflexive, lemma_lex_total, lex_less, Key};
use crate::session::Generic;
use crate::types::{
    lemma_common_head, lemma_item_rank_injective, lemma_less_with_tails, ItemKey, TypeId,
};
use vstd::prelude::*;

verus! {

/// Whether two sequences differ first at `i`, where the first one ends or is less.
pub open spec fn parts_at(a: Seq<int>, b: Seq<int>, i: int) -> bool {
    &&& 0 <= i <= a.len()
    &&& i < b.len()
    &&& a.take(i) == b.take(i)
    &&& i == a.len() || a[i] < b[i]
}

/// Whether two names differ first at `i`, where the first one ends or has the lower character.
pub open spec fn letters_part_at(a: Seq<char>, b: Seq<char>, i: int) -> bool {
    &&& 0 <= i <= a.len()
    &&& i < b.len()
    &&& a.take(i) == b.take(i)
    &&& i == a.len() || a[i] < b[i]
}

/// Whether a name comes before another in a dictionary.
pub open spec fn comes_first(a: Seq<char>, b: Seq<char>) -> bool {
    exists|i: int| letters_part_at(a, b, i)
}

/// One sequence comes before another exactly if the first place where they differ says so.
pub proof fn law_first_difference(a: Seq<int>, b: Seq<int>)
    ensures
        lex_less(a, b) <==> exists|i: int| parts_at(a, b, i),
    decreases a.len(),
{
    if b.len() == 0 {
    } else if a.len() == 0 {
        assert(a.take(0) =~= b.take(0));
        assert(parts_at(a, b, 0));
    } else if a[0] != b[0] {
        if a[0] < b[0] {
            assert(a.take(0) =~= b.take(0));
            assert(parts_at(a, b, 0));
        }
        assert forall|i: int| parts_at(a, b, i) implies a[0] < b[0] by {
            if i > 0 {
                assert(a.take(i)[0] == a[0]);
                assert(b.take(i)[0] == b[0]);
            }
        }
    } else {
        let s = a.drop_first();
        let t = b.drop_first();
        law_first_difference(s, t);
        if exists|i: int| parts_at(s, t, i) {
            let i = choose|i: int| parts_at(s, t, i);
            let x = a.take(i + 1);
            let y = b.take(i + 1);
            assert forall|k: int| 0 <= k < x.len() implies #[trigger] x[k] == y[k] by {
                if k > 0 {
                    assert(s.take(i)[k - 1] == t.take(i)[k - 1]);
                }
            }
            assert(x =~= y);
            assert(parts_at(a, b, i + 1));
        }
        if exists|i: int| parts_at(a, b, i) {
            let i = choose|i: int| parts_at(a, b, i);
            assert(i > 0);
            assert(s.take(i - 1) =~= a.take(i).drop_first());
            assert(t.take(i - 1) =~= b.take(i).drop_first());
            assert(parts_at(s, t, i - 1));
        }
    }
}

/// Names are kept in the order of a dictionary, and are the same to a map exactly if they are
/// spelled alike.
pub proof fn law_names_in_order(a: Ident, b: Ident)
    ensures
        lex_less(a.rank(), b.rank()) <==> comes_first(a.name@, b.name@),
        a.rank() == b.rank() <==> a.name@ == b.name@,
{
    let s = a.rank();
    let t = b.rank();
    law_first_difference(s, t);
    lemma_name_rank_injective(a.name@, b.name@);
    if exists|i: int| parts_at(s, t, i) {
        let i = choose|i: int| parts_at(s, t, i);
        lemma_name_rank_injective(a.name@.take(i), b.name@.take(i));
        assert(name_rank(a.name@.take(i)) =~= s.take(i));
        assert(name_rank(b.name@.take(i)) =~= t.take(i));
        assert(letters_part_at(a.name@, b.name@, i));
    }
    if comes_first(a.name@, b.name@) {
        let i = choose|i: int| letters_part_at(a.name@, b.name@, i);
        assert(s.take(i) =~= name_rank(a.name@.take(i)));
        assert(t.take(i) =~= name_rank(b.name@.take(i)));
        assert(parts_at(s, t, i));
    }
}

/// Items are kept in the order of their names, and those of one name in the order of their
/// types. They are the same to a map exactly if both are the same.
pub proof fn law_items_in_order(a: ItemKey, b: ItemKey)
    ensures
        lex_less(a.rank(), b.rank()) <==> comes_first(a.name.name@, b.name.name@) || a.name.name@
            == b.name.name@ && a.type_id.index < b.type_id.index,
        a.rank() == b.rank() <==> a.name.name@ == b.name.name@ && a.type_id == b.type_id,
{
    let x = a.name.name@;
    let y = b.name.name@;
    let s = seq![-1, a.type_id.index as int];
    let t = seq![-1, b.type_id.index as int];
    lemma_item_rank_injective(x, y, a.type_id, b.type_id);
    law_names_in_order(a.name, b.name);
    law_names_in_order(b.name, a.name);
    lemma_name_rank_nonnegative(x);
    lemma_name_rank_nonnegative(y);
    if x == y {
        lemma_common_head(name_rank(x), s, t);
        assert(s.drop_first() =~= seq![a.type_id.index as int]);
        assert(t.drop_first() =~= seq![b.type_id.index as int]);
        reveal_with_fuel(lex_less, 3);
        lemma_lex_irreflexive(name_rank(x));
    } else {
        lemma_name_rank_injective(x, y);
        lemma_lex_total(name_rank(x), name_rank(y));
        if lex_less(name_rank(x), name_rank(y)) {
            lemma_less_with_tails(name_rank(x), name_rank(y), s, t);
        } else {
            lemma_less_with_tails(name_rank(y), name_rank(x), t, s);
            lemma_lex_asymmetric(b.rank(), a.rank());
        }
    }
}

/// Types and generic types are kept in the order of their numbers, and are the same to a map
/// exactly if their numbers are.
pub proof fn law_numbers_in_order(a: TypeId, b: TypeId, g: Generic, h: Generic)
    ensures
        lex_less(a.rank(), b.rank()) <==> a.index < b.index,
        a.rank() == b.rank() <==> a == b,
        lex_less(g.rank(), h.rank()) <==> g.key < h.key,
        g.rank() == h.rank() <==> g.key == h.key,
{
    reveal_with_fuel(lex_less, 2);
    assert(a.rank()[0] == a.index && b.rank()[0] == b.index);
    assert(g.rank()[0] == g.key && h.rank()[0] == h.key);
}

} // verus!
