//! The maps that items and types are collected in.
use crate::decl::{TyTraitInterfaceItem, TyTraitItem};
use crate::ordered::{
    ascending, has, keys_of, lemma_lookup, lemma_put, lemma_slot, lookup, put, put_all, slot,
    values_of, Key,
};
use crate::surface::{item_entries, item_map, surface_entries, surface_map};
use crate::types::{
    item_rank, lemma_item_rank_injective, parameter_pairs, subst_map, TypeArgument, TypeId,
    TypeParameter,
};
use vstd::prelude::*;

verus! {

/// The value of the last entry of a rank, if there is one.
pub open spec fn last_of<K: Key, V>(entries: Seq<(K, V)>, rank: Seq<int>) -> Option<V>
    decreases entries.len(),
{
    if entries.len() == 0 {
        None
    } else if entries.last().0.rank() == rank {
        Some(entries.last().1)
    } else {
        last_of(entries.drop_last(), rank)
    }
}

proof fn lemma_put_all_last<K: Key, V>(entries: Seq<(K, V)>, more: Seq<(K, V)>)
    requires
        more.len() > 0,
    ensures
        put_all(entries, more) == put(
            put_all(entries, more.drop_last()),
            more.last().0,
            more.last().1,
        ),
    decreases more.len(),
{
    if more.len() == 1 {
        assert(more.drop_first() =~= Seq::empty());
        assert(more.drop_last() =~= Seq::empty());
        reveal_with_fuel(put_all, 2);
    } else {
        lemma_put_all_last(put(entries, more[0].0, more[0].1), more.drop_first());
        assert(more.drop_first().drop_last() =~= more.drop_last().drop_first());
    }
}

/// Putting entries into a map keeps its order. A rank then answers with the last of the
/// entries that have it, and as before if none has it.
pub proof fn law_put_all<K: Key, V>(entries: Seq<(K, V)>, more: Seq<(K, V)>, rank: Seq<int>)
    requires
        ascending(entries),
    ensures
        ascending(put_all(entries, more)),
        lookup(put_all(entries, more), rank) == match last_of(more, rank) {
            Some(value) => Some(value),
            None => lookup(entries, rank),
        },
    decreases more.len(),
{
    if more.len() > 0 {
        law_put_all(entries, more.drop_last(), rank);
        lemma_put_all_last(entries, more);
        lemma_put(put_all(entries, more.drop_last()), more.last().0, more.last().1);
    }
}

/// No key of a map comes from nowhere.
pub proof fn lemma_put_all_keys<K: Key, V>(entries: Seq<(K, V)>, more: Seq<(K, V)>, at: int)
    requires
        ascending(entries),
        0 <= at < put_all(entries, more).len(),
    ensures
        ({
            let key = put_all(entries, more)[at].0;
            ||| exists|i: int| 0 <= i < entries.len() && (#[trigger] entries[i]).0 == key
            ||| exists|i: int| 0 <= i < more.len() && (#[trigger] more[i]).0 == key
        }),
    decreases more.len(),
{
    let all = put_all(entries, more);
    let key = all[at].0;
    if more.len() == 0 {
        assert(entries[at].0 == key);
    } else {
        let first = put(entries, more[0].0, more[0].1);
        lemma_put(entries, more[0].0, more[0].1);
        lemma_put_all_keys(first, more.drop_first(), at);
        if exists|i: int| 0 <= i < first.len() && (#[trigger] first[i]).0 == key {
            let i = choose|i: int| 0 <= i < first.len() && (#[trigger] first[i]).0 == key;
            let at = slot(entries, more[0].0.rank()) as int;
            lemma_slot(entries, more[0].0.rank());
            if first.len() == entries.len() || i < at {
                assert(entries[i].0 == key);
            } else if i == at {
                assert(more[0].0 == key);
            } else {
                assert(entries[i - 1].0 == key);
            }
        } else {
            let rest = more.drop_first();
            let i = choose|i: int| 0 <= i < rest.len() && (#[trigger] rest[i]).0 == key;
            assert(more[i + 1].0 == key);
        }
    }
}

/// In a map the last entry of a rank is the only one.
pub proof fn lemma_last_of_map<K: Key, V>(entries: Seq<(K, V)>, rank: Seq<int>)
    requires
        ascending(entries),
    ensures
        last_of(entries, rank) == lookup(entries, rank),
    decreases entries.len(),
{
    lemma_lookup(entries, rank);
    if entries.len() > 0 {
        let rest = entries.drop_last();
        if entries.last().0.rank() == rank {
            assert(entries[entries.len() - 1].0.rank() == rank);
        } else {
            assert(ascending(rest));
            lemma_last_of_map(rest, rank);
            lemma_lookup(rest, rank);
            if has(rest, rank) {
                let i = choose|i: int|
                    0 <= i < rest.len() && (#[trigger] rest[i]).0.rank() == rank;
                assert(entries[i] == rest[i]);
            }
            if has(entries, rank) {
                let i = choose|i: int|
                    0 <= i < entries.len() && (#[trigger] entries[i]).0.rank() == rank;
                assert(rest[i] == entries[i]);
            }
        }
    }
}

/// A map that another was put into answers as the other does where it can, and as before
/// elsewhere.
pub proof fn law_extended_map<K: Key, V>(
    entries: Seq<(K, V)>,
    more: Seq<(K, V)>,
    rank: Seq<int>,
)
    requires
        ascending(entries),
        ascending(more),
    ensures
        ascending(put_all(entries, more)),
        lookup(put_all(entries, more), rank) == match lookup(more, rank) {
            Some(value) => Some(value),
            None => lookup(entries, rank),
        },
{
    law_put_all(entries, more, rank);
    lemma_last_of_map(more, rank);
}

/// The last interface item of a name, if there is one.
pub open spec fn last_interface_item(items: Seq<TyTraitInterfaceItem>, name: Seq<char>) -> Option<
    TyTraitInterfaceItem,
>
    decreases items.len(),
{
    if items.len() == 0 {
        None
    } else if items.last().decl_ref().name.name@ == name {
        Some(items.last())
    } else {
        last_interface_item(items.drop_last(), name)
    }
}

proof fn lemma_surface_entries(
    items: Seq<TyTraitInterfaceItem>,
    type_id: TypeId,
    name: Seq<char>,
    of: TypeId,
)
    ensures
        last_of(surface_entries(items, type_id), item_rank(name, of)) == if of == type_id {
            last_interface_item(items, name)
        } else {
            None
        },
    decreases items.len(),
{
    if items.len() > 0 {
        let entries = surface_entries(items, type_id);
        lemma_item_rank_injective(items.last().decl_ref().name.name@, name, type_id, of);
        lemma_surface_entries(items.drop_last(), type_id, name, of);
        assert(entries.drop_last() =~= surface_entries(items.drop_last(), type_id));
        assert(entries.last().0.rank() == item_rank(
            items.last().decl_ref().name.name@,
            type_id,
        ));
    }
}

/// The map of an interface surface stands in the order of names, finds for each name the last
/// item of that name, and finds nothing for another type.
pub proof fn law_surface_map(
    items: Seq<TyTraitInterfaceItem>,
    type_id: TypeId,
    name: Seq<char>,
    of: TypeId,
)
    ensures
        ascending(surface_map(items, type_id)),
        lookup(surface_map(items, type_id), item_rank(name, of)) == if of == type_id {
            last_interface_item(items, name)
        } else {
            None
        },
{
    law_put_all(Seq::empty(), surface_entries(items, type_id), item_rank(name, of));
    lemma_surface_entries(items, type_id, name, of);
}

/// The last item of a name, if there is one.
pub open spec fn last_item(items: Seq<TyTraitItem>, name: Seq<char>) -> Option<TyTraitItem>
    decreases items.len(),
{
    if items.len() == 0 {
        None
    } else if items.last().decl_ref().name.name@ == name {
        Some(items.last())
    } else {
        last_item(items.drop_last(), name)
    }
}

proof fn lemma_item_entries(
    items: Seq<TyTraitItem>,
    type_id: TypeId,
    name: Seq<char>,
    of: TypeId,
)
    ensures
        last_of(item_entries(items, type_id), item_rank(name, of)) == if of == type_id {
            last_item(items, name)
        } else {
            None
        },
    decreases items.len(),
{
    if items.len() > 0 {
        let entries = item_entries(items, type_id);
        lemma_item_rank_injective(items.last().decl_ref().name.name@, name, type_id, of);
        lemma_item_entries(items.drop_last(), type_id, name, of);
        assert(entries.drop_last() =~= item_entries(items.drop_last(), type_id));
        assert(entries.last().0.rank() == item_rank(
            items.last().decl_ref().name.name@,
            type_id,
        ));
    }
}

/// The map of items stands in the order of names, finds for each name the last item of that
/// name, and finds nothing for another type.
pub proof fn law_item_map(items: Seq<TyTraitItem>, type_id: TypeId, name: Seq<char>, of: TypeId)
    ensures
        ascending(item_map(items, type_id)),
        lookup(item_map(items, type_id), item_rank(name, of)) == if of == type_id {
            last_item(items, name)
        } else {
            None
        },
{
    law_put_all(Seq::empty(), item_entries(items, type_id), item_rank(name, of));
    lemma_item_entries(items, type_id, name, of);
}

proof fn lemma_last_pair(pairs: Seq<(TypeId, TypeId)>, i: int)
    requires
        0 <= i < pairs.len(),
        forall|j: int| i < j < pairs.len() ==> (#[trigger] pairs[j]).0 != pairs[i].0,
    ensures
        last_of(pairs, pairs[i].0.rank()) == Some(pairs[i].1),
    decreases pairs.len(),
{
    let last = pairs.last().0;
    if i < pairs.len() - 1 {
        assert(pairs[pairs.len() - 1].0 != pairs[i].0);
        assert(last.rank()[0] != pairs[i].0.rank()[0]);
        assert(pairs.drop_last()[i] == pairs[i]);
        lemma_last_pair(pairs.drop_last(), i);
    }
}

/// A substitution replaces a type parameter by the type argument in its place, unless the
/// parameter stands there again further on.
pub proof fn law_substitution(
    type_parameters: Seq<TypeParameter>,
    type_arguments: Seq<TypeArgument>,
    i: int,
)
    requires
        0 <= i < type_parameters.len(),
        i < type_arguments.len(),
        forall|j: int|
            i < j < type_parameters.len() ==> (#[trigger] type_parameters[j]).type_id
                != type_parameters[i].type_id,
    ensures
        lookup(
            subst_map(type_parameters, type_arguments),
            type_parameters[i].type_id.rank(),
        ) == Some(type_arguments[i].type_id),
{
    let pairs = parameter_pairs(type_parameters, type_arguments);
    assert forall|j: int| i < j < pairs.len() implies (#[trigger] pairs[j]).0 != pairs[i].0 by {
        assert(pairs[j].0 == type_parameters[j].type_id);
    }
    lemma_last_pair(pairs, i);
    law_put_all(Seq::empty(), pairs, pairs[i].0.rank());
}

/// The keys of a map are listed in their order, and its values in the order of their keys.
pub proof fn law_listed<K, V>(entries: Seq<(K, V)>)
    ensures
        keys_of(entries) == entries.map_values(|entry: (K, V)| entry.0),
        values_of(entries) == entries.map_values(|entry: (K, V)| entry.1),
{
}

/// A key that is there already stays when a value is put under an equal one. Another key is
/// put in beside those there.
pub proof fn law_put_keys<K: Key, V>(entries: Seq<(K, V)>, key: K, value: V)
    requires
        ascending(entries),
    ensures
        lookup(entries, key.rank()) is Some ==> keys_of(put(entries, key, value)) == keys_of(
            entries,
        ),
        lookup(entries, key.rank()) is None ==> keys_of(put(entries, key, value)).to_multiset()
            == keys_of(entries).to_multiset().insert(key),
{
    let at = slot(entries, key.rank()) as int;
    lemma_slot(entries, key.rank());
    lemma_lookup(entries, key.rank());
    if lookup(entries, key.rank()) is Some {
        assert(keys_of(put(entries, key, value)) =~= keys_of(entries));
    } else {
        assert(keys_of(put(entries, key, value)) =~= keys_of(entries).insert(at, key));
        vstd::seq_lib::to_multiset_insert(keys_of(entries), at, key);
    }
}

/// A substitution maps nothing but type parameters that have a type argument in their place.
pub proof fn law_substitution_is_total(
    type_parameters: Seq<TypeParameter>,
    type_arguments: Seq<TypeArgument>,
    type_id: TypeId,
)
    requires
        forall|i: int|
            0 <= i < type_parameters.len() && i < type_arguments.len() ==> (
            #[trigger] type_parameters[i]).type_id != type_id,
    ensures
        lookup(subst_map(type_parameters, type_arguments), type_id.rank()) is None,
        ascending(subst_map(type_parameters, type_arguments)),
{
    let pairs = parameter_pairs(type_parameters, type_arguments);
    law_put_all(Seq::empty(), pairs, type_id.rank());
    assert forall|i: int| 0 <= i < pairs.len() implies (#[trigger] pairs[i]).0 != type_id by {
        assert(pairs[i].0 == type_parameters[i].type_id);
    }
    lemma_no_pair(pairs, type_id);
}

proof fn lemma_no_pair(pairs: Seq<(TypeId, TypeId)>, type_id: TypeId)
    requires
        forall|i: int| 0 <= i < pairs.len() ==> (#[trigger] pairs[i]).0 != type_id,
    ensures
        last_of(pairs, type_id.rank()) is None,
    decreases pairs.len(),
{
    if pairs.len() > 0 {
        let last = pairs.last().0;
        assert(last.rank()[0] == last.index);
        assert(type_id.rank()[0] == type_id.index);
        lemma_no_pair(pairs.drop_last(), type_id);
    }
}

} // verus!
