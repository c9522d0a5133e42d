//! The type parameters of an impl block must be used in its head.
use crate::diagnostics::{CompileError, ErrorView};
use crate::generics::{
    deduct, defined_run, generic_rank, head_types, unconstrained_errors, unconstrained_run,
    used_run,
};
use crate::ident::Span;
use crate::laws::maps::{last_of, law_put_all, lemma_put_all_keys};
use crate::ordered::{
    ascending, drop_key, lemma_drop_key, lemma_lookup, lex_less, lookup, put, put_all, slot, Key,
};
use crate::session::{
    ask, reported_errors, to_generic, to_generics, Generic, QueryView, Reply, World,
};
use crate::types::{TypeArgument, TypeId, TypeParameter};
use vstd::prelude::*;

verus! {

/// The generic type that a reply describes.
pub open spec fn described(reply: Reply) -> Generic {
    reply.answer->Generic_0
}

/// Whether one of the replies from `start` to `end` lists a generic type.
pub open spec fn listed(replies: Seq<Reply>, start: int, end: int, key: u64) -> bool {
    exists|j: int|
        start <= j < end && (#[trigger] replies[j]).answer->Generics_0@.contains(key)
}

/// Whether an error was reported by the compiler.
pub open spec fn is_reported(error: ErrorView) -> bool {
    error matches ErrorView::Plain(CompileError::Reported(_))
}

/// Whether all that one state has emitted beyond another was reported by the compiler.
pub open spec fn only_reported(before: World, after: World) -> bool {
    &&& before.errors.is_prefix_of(after.errors)
    &&& forall|e: int|
        before.errors.len() <= e < after.errors.len() ==> is_reported(#[trigger] after.errors[e])
}

proof fn lemma_reported(a: World, query: QueryView, b: World)
    requires
        ask(a, query).value is Some,
        only_reported(ask(a, query).world, b),
    ensures
        only_reported(a, b),
{
    let asked = ask(a, query).world;
    assert forall|e: int| a.errors.len() <= e < b.errors.len() implies is_reported(
        #[trigger] b.errors[e],
    ) by {
        if e < asked.errors.len() {
            assert(b.errors[e] == asked.errors[e]);
        }
    }
    assert forall|e: int| 0 <= e < a.errors.len() implies a.errors[e] == b.errors[e] by {
        assert(b.errors[e] == asked.errors[e]);
    }
}

/// The generic types that replies describe, each with the span of its type parameter.
pub open spec fn described_entries(
    replies: Seq<Reply>,
    type_parameters: Seq<TypeParameter>,
    i: int,
) -> Seq<(Generic, Span)> {
    Seq::new(
        (type_parameters.len() - i) as nat,
        |k: int| (described(replies[k]), type_parameters[i + k].span),
    )
}

proof fn lemma_defined(
    world: World,
    type_parameters: Seq<TypeParameter>,
    defined: Seq<(Generic, Span)>,
    i: int,
)
    requires
        0 <= i <= type_parameters.len(),
        defined_run(world, type_parameters, defined, i).value is Some,
    ensures
        ({
            let after = defined_run(world, type_parameters, defined, i);
            let n = type_parameters.len() - i;
            &&& n <= world.replies.len()
            &&& forall|k: int| 0 <= k < n ==> (#[trigger] world.replies[k]).answer is Generic
            &&& after.value->0 == put_all(
                defined,
                described_entries(world.replies, type_parameters, i),
            )
            &&& after.world.replies == world.replies.skip(n)
            &&& only_reported(world, after.world)
        }),
    decreases type_parameters.len() - i,
{
    let n = type_parameters.len() - i;
    let entries = described_entries(world.replies, type_parameters, i);
    if i < type_parameters.len() {
        let query = QueryView::DescribeGeneric { type_id: type_parameters[i].type_id };
        let first = to_generic(ask(world, query));
        let generic = first.value->0;
        lemma_defined(
            first.world,
            type_parameters,
            put(defined, generic, type_parameters[i].span),
            i + 1,
        );
        lemma_reported(
            world,
            query,
            defined_run(world, type_parameters, defined, i).world,
        );
        assert forall|k: int| 0 <= k < n implies (
        #[trigger] world.replies[k]).answer is Generic by {
            if k > 0 {
                assert(first.world.replies[k - 1] == world.replies[k]);
            }
        }
        assert(entries.drop_first() =~= described_entries(
            first.world.replies,
            type_parameters,
            i + 1,
        ));
        assert(entries[0] == (generic, type_parameters[i].span));
        assert(first.world.replies.skip(n - 1) =~= world.replies.skip(n));
    } else {
        assert(entries.len() == 0);
        assert(world.replies.skip(0) =~= world.replies);
    }
}

proof fn lemma_used(world: World, type_ids: Seq<TypeId>, used: Seq<u64>, i: int)
    requires
        0 <= i <= type_ids.len(),
        used_run(world, type_ids, used, i).value is Some,
    ensures
        ({
            let after = used_run(world, type_ids, used, i);
            let n = type_ids.len() - i;
            &&& n <= world.replies.len()
            &&& forall|k: int| 0 <= k < n ==> (#[trigger] world.replies[k]).answer is Generics
            &&& forall|key: u64| #[trigger]
                after.value->0.contains(key) <==> used.contains(key) || listed(
                    world.replies,
                    0,
                    n,
                    key,
                )
            &&& only_reported(world, after.world)
        }),
    decreases type_ids.len() - i,
{
    let after = used_run(world, type_ids, used, i);
    let n = type_ids.len() - i;
    if i < type_ids.len() {
        let query = QueryView::NestedGenerics { type_id: type_ids[i] };
        let first = to_generics(ask(world, query));
        let keys = first.value->0@;
        lemma_used(first.world, type_ids, used + keys, i + 1);
        lemma_reported(world, query, after.world);
        assert forall|k: int| 0 <= k < n implies (
        #[trigger] world.replies[k]).answer is Generics by {
            if k > 0 {
                assert(first.world.replies[k - 1] == world.replies[k]);
            }
        }
        assert forall|key: u64| #[trigger]
            after.value->0.contains(key) <==> used.contains(key) || listed(
                world.replies,
                0,
                n,
                key,
            ) by {
            let rest = first.world.replies;
            if used.contains(key) {
                let k = choose|k: int| 0 <= k < used.len() && used[k] == key;
                assert((used + keys)[k] == key);
            }
            if keys.contains(key) {
                let k = choose|k: int| 0 <= k < keys.len() && keys[k] == key;
                assert((used + keys)[used.len() + k] == key);
                assert(world.replies[0].answer->Generics_0@.contains(key));
            }
            if (used + keys).contains(key) {
                let k = choose|k: int| 0 <= k < (used + keys).len() && (used + keys)[k] == key;
                if k < used.len() {
                    assert(used[k] == key);
                } else {
                    assert(keys[k - used.len()] == key);
                }
            }
            if listed(rest, 0, n - 1, key) {
                let j = choose|j: int|
                    0 <= j < n - 1 && (#[trigger] rest[j]).answer->Generics_0@.contains(key);
                assert(world.replies[j + 1].answer->Generics_0@.contains(key));
            }
            if listed(world.replies, 0, n, key) {
                let j = choose|j: int|
                    0 <= j < n && (
                    #[trigger] world.replies[j]).answer->Generics_0@.contains(key);
                if j > 0 {
                    assert(rest[j - 1].answer->Generics_0@.contains(key));
                }
            }
        }
    }
}

proof fn lemma_generic_rank(a: u64, b: u64)
    ensures
        generic_rank(a) == generic_rank(b) <==> a == b,
{
    assert(generic_rank(a)[0] == a as int && generic_rank(b)[0] == b as int);
}

proof fn lemma_deduct(defined: Seq<(Generic, Span)>, used: Seq<u64>)
    requires
        ascending(defined),
    ensures
        ascending(deduct(defined, used)),
        forall|key: u64|
            lookup(deduct(defined, used), #[trigger] generic_rank(key)) == if used.contains(key) {
                None
            } else {
                lookup(defined, generic_rank(key))
            },
        forall|t: int|
            0 <= t < deduct(defined, used).len() ==> defined.contains(
                #[trigger] deduct(defined, used)[t],
            ),
    decreases used.len(),
{
    if used.len() > 0 {
        let next = drop_key(defined, generic_rank(used[0]));
        let left = deduct(defined, used);
        lemma_drop_key(defined, generic_rank(used[0]));
        lemma_deduct(next, used.drop_first());
        assert forall|key: u64|
            lookup(left, #[trigger] generic_rank(key)) == if used.contains(key) {
                None
            } else {
                lookup(defined, generic_rank(key))
            } by {
            lemma_generic_rank(key, used[0]);
            if used.contains(key) && key != used[0] {
                let k = choose|k: int| 0 <= k < used.len() && used[k] == key;
                assert(used.drop_first()[k - 1] == key);
            }
            if used.drop_first().contains(key) {
                let k = choose|k: int|
                    0 <= k < used.drop_first().len() && used.drop_first()[k] == key;
                assert(used[k + 1] == key);
            }
            if key == used[0] {
                assert(used.contains(key));
            }
        }
        assert forall|t: int| 0 <= t < left.len() implies defined.contains(#[trigger] left[t]) by {
            let k = choose|k: int| 0 <= k < next.len() && next[k] == left[t];
            let at = slot(defined, generic_rank(used[0])) as int;
            if next.len() < defined.len() && k >= at {
                assert(defined[k + 1] == left[t]);
            } else {
                assert(defined[k] == left[t]);
            }
        }
    }
}

proof fn lemma_last_described(
    entries: Seq<(Generic, Span)>,
    i: int,
)
    requires
        0 <= i < entries.len(),
        forall|j: int| i < j < entries.len() ==> (#[trigger] entries[j]).0.key != entries[i].0.key,
    ensures
        last_of(entries, generic_rank(entries[i].0.key)) == Some(entries[i].1),
    decreases entries.len(),
{
    if i < entries.len() - 1 {
        assert(entries[entries.len() - 1].0.key != entries[i].0.key);
        lemma_generic_rank(entries.last().0.key, entries[i].0.key);
        lemma_last_described(entries.drop_last(), i);
        assert(entries.drop_last()[i] == entries[i]);
    }
}

proof fn lemma_last_index(entries: Seq<(Generic, Span)>, key: u64) -> (i: int)
    requires
        last_of(entries, generic_rank(key)) is Some,
    ensures
        0 <= i < entries.len(),
        entries[i].0.key == key,
        forall|j: int| i < j < entries.len() ==> (#[trigger] entries[j]).0.key != key,
    decreases entries.len(),
{
    lemma_generic_rank(entries.last().0.key, key);
    if entries.last().0.key == key {
        entries.len() - 1
    } else {
        let rest = entries.drop_last();
        let i = lemma_last_index(rest, key);
        assert forall|j: int| i < j < entries.len() implies (#[trigger] entries[j]).0.key
            != key by {
            if j < rest.len() {
                assert(rest[j].0.key != key);
            }
        }
        i
    }
}

proof fn lemma_some_described(entries: Seq<(Generic, Span)>, key: u64)
    ensures
        last_of(entries, generic_rank(key)) is Some <==> exists|i: int|
            0 <= i < entries.len() && (#[trigger] entries[i]).0.key == key,
    decreases entries.len(),
{
    if entries.len() > 0 {
        let rest = entries.drop_last();
        lemma_generic_rank(entries.last().0.key, key);
        lemma_some_described(rest, key);
        if entries.last().0.key == key {
            assert(entries[entries.len() - 1].0.key == key);
        } else {
            if exists|i: int| 0 <= i < entries.len() && (#[trigger] entries[i]).0.key == key {
                let i = choose|i: int|
                    0 <= i < entries.len() && (#[trigger] entries[i]).0.key == key;
                assert(rest[i].0.key == key);
            }
            if exists|i: int| 0 <= i < rest.len() && (#[trigger] rest[i]).0.key == key {
                let i = choose|i: int| 0 <= i < rest.len() && (#[trigger] rest[i]).0.key == key;
                assert(entries[i].0.key == key);
            }
        }
    }
}

/// Whether the head of an impl block uses the generic type of its `i`-th type parameter: the
/// replies about the type arguments of the trait and about the type it is implemented for
/// come behind those about the `n` type parameters.
pub open spec fn uses(replies: Seq<Reply>, n: nat, arguments: nat, i: int) -> bool {
    listed(replies, n as int, (n + arguments + 1) as int, described(replies[i]).key)
}

/// Whether no type parameter behind the `i`-th has the same generic type.
pub open spec fn is_last(replies: Seq<Reply>, n: nat, i: int) -> bool {
    forall|j: int|
        i < j < n ==> described(#[trigger] replies[j]).key != described(replies[i]).key
}

/// Whether an error says of a generic type, at a span, that it is not used. The text is that
/// of a type parameter of the generic type.
pub open spec fn is_about(
    error: ErrorView,
    key: u64,
    replies: Seq<Reply>,
    n: nat,
    span: Span,
) -> bool {
    exists|k: int|
        0 <= k < n && described(#[trigger] replies[k]).key == key && error == ErrorView::Plain(
            CompileError::UnconstrainedGenericParameter { ty: described(replies[k]).text, span },
        )
}

/// The generic types that are left over.
spec fn left_over(
    world: World,
    type_parameters: Seq<TypeParameter>,
    trait_type_arguments: Seq<TypeArgument>,
    self_type: TypeId,
) -> Seq<(Generic, Span)> {
    let first = defined_run(world, type_parameters, Seq::empty(), 0);
    let second = used_run(
        first.world,
        head_types(trait_type_arguments, self_type),
        Seq::empty(),
        0,
    );
    deduct(first.value->0, second.value->0)
}

proof fn lemma_left_over(
    world: World,
    type_parameters: Seq<TypeParameter>,
    trait_type_arguments: Seq<TypeArgument>,
    self_type: TypeId,
)
    requires
        unconstrained_run(world, type_parameters, trait_type_arguments, self_type).value is Some,
    ensures
        ({
            let after = unconstrained_run(
                world,
                type_parameters,
                trait_type_arguments,
                self_type,
            );
            let n = type_parameters.len();
            let left = left_over(world, type_parameters, trait_type_arguments, self_type);
            let entries = described_entries(world.replies, type_parameters, 0);
            let reported = after.world.errors.len() - left.len();
            &&& ascending(left)
            &&& after.value->0 is Ok <==> left.len() == 0
            &&& forall|i: int|
                0 <= i < n ==> #[trigger] uses(world.replies, n, trait_type_arguments.len(), i)
                    == lookup(left, generic_rank(described(world.replies[i]).key)) is None
            &&& forall|key: u64|
                lookup(left, #[trigger] generic_rank(key)) is Some ==> lookup(
                    left,
                    generic_rank(key),
                ) == last_of(entries, generic_rank(key))
            &&& forall|t: int|
                0 <= t < left.len() ==> exists|k: int|
                    0 <= k < n && described(#[trigger] world.replies[k]) == (
                    #[trigger] left[t]).0
            &&& world.errors.len() <= reported
            &&& forall|e: int|
                world.errors.len() <= e < reported ==> is_reported(
                    #[trigger] after.world.errors[e],
                )
            &&& forall|t: int|
                0 <= t < left.len() ==> (#[trigger] after.world.errors[reported + t])
                    == unconstrained_errors(left)[t]
        }),
{
    let n = type_parameters.len();
    let arguments = trait_type_arguments.len();
    let types = head_types(trait_type_arguments, self_type);
    let first = defined_run(world, type_parameters, Seq::empty(), 0);
    lemma_defined(world, type_parameters, Seq::empty(), 0);
    let defined = first.value->0;
    let second = used_run(first.world, types, Seq::empty(), 0);
    lemma_used(first.world, types, Seq::empty(), 0);
    let used = second.value->0;
    let left = deduct(defined, used);
    let entries = described_entries(world.replies, type_parameters, 0);
    law_put_all(Seq::empty(), entries, seq![]);
    lemma_deduct(defined, used);
    assert forall|i: int| 0 <= i < n implies #[trigger] uses(world.replies, n, arguments, i)
        == lookup(left, generic_rank(described(world.replies[i]).key)) is None by {
        let key = described(world.replies[i]).key;
        let rest = first.world.replies;
        law_put_all(Seq::empty(), entries, generic_rank(key));
        lemma_some_described(entries, key);
        assert(entries[i].0.key == key);
        if uses(world.replies, n, arguments, i) {
            let j = choose|j: int|
                n <= j < n + arguments + 1 && (
                #[trigger] world.replies[j]).answer->Generics_0@.contains(key);
            assert(rest[j - n].answer->Generics_0@.contains(key));
        }
        if listed(rest, 0, (arguments + 1) as int, key) {
            let j = choose|j: int|
                0 <= j < arguments + 1 && (
                #[trigger] rest[j]).answer->Generics_0@.contains(key);
            assert(world.replies[n + j].answer->Generics_0@.contains(key));
        }
    }
    assert forall|key: u64|
        lookup(left, #[trigger] generic_rank(key)) is Some implies lookup(
        left,
        generic_rank(key),
    ) == last_of(entries, generic_rank(key)) by {
        law_put_all(Seq::empty(), entries, generic_rank(key));
    }
    assert forall|t: int| 0 <= t < left.len() implies exists|k: int|
        0 <= k < n && described(#[trigger] world.replies[k]) == (#[trigger] left[t]).0 by {
        let d = choose|d: int| 0 <= d < defined.len() && defined[d] == left[t];
        lemma_put_all_keys(Seq::<(Generic, Span)>::empty(), entries, d);
        let k = choose|k: int| 0 <= k < entries.len() && (#[trigger] entries[k]).0 == left[t].0;
        assert(described(world.replies[k]) == left[t].0);
    }
    let after = unconstrained_run(world, type_parameters, trait_type_arguments, self_type);
    assert(after.world.errors == second.world.errors + unconstrained_errors(left));
    assert forall|e: int|
        world.errors.len() <= e < second.world.errors.len() implies is_reported(
        #[trigger] after.world.errors[e],
    ) by {
        assert(after.world.errors[e] == second.world.errors[e]);
        if e < first.world.errors.len() {
            assert(second.world.errors[e] == first.world.errors[e]);
        }
    }
}

/// What is left over comes from a type parameter that is not used.
proof fn lemma_left_over_unused(
    world: World,
    type_parameters: Seq<TypeParameter>,
    trait_type_arguments: Seq<TypeArgument>,
    self_type: TypeId,
    t: int,
) -> (i: int)
    requires
        unconstrained_run(world, type_parameters, trait_type_arguments, self_type).value is Some,
        0 <= t < left_over(world, type_parameters, trait_type_arguments, self_type).len(),
    ensures
        0 <= i < type_parameters.len(),
        !uses(world.replies, type_parameters.len(), trait_type_arguments.len(), i),
        is_last(world.replies, type_parameters.len(), i),
        described(world.replies[i]).key == left_over(
            world,
            type_parameters,
            trait_type_arguments,
            self_type,
        )[t].0.key,
        is_about(
            unconstrained_errors(
                left_over(world, type_parameters, trait_type_arguments, self_type),
            )[t],
            described(world.replies[i]).key,
            world.replies,
            type_parameters.len(),
            type_parameters[i].span,
        ),
{
    lemma_left_over(world, type_parameters, trait_type_arguments, self_type);
    let left = left_over(world, type_parameters, trait_type_arguments, self_type);
    let n = type_parameters.len();
    let entries = described_entries(world.replies, type_parameters, 0);
    let key = left[t].0.key;
    let rank = generic_rank(key);
    lemma_lookup(left, rank);
    assert(left[t].0.rank() == rank);
    let i = lemma_last_index(entries, key);
    lemma_last_described(entries, i);
    assert(described(world.replies[i]).key == key);
    assert forall|j: int| i < j < n implies described(#[trigger] world.replies[j]).key
        != described(world.replies[i]).key by {
        assert(entries[j].0.key != key);
    }
    i
}

/// A type parameter that is not used is left over.
proof fn lemma_unused_left_over(
    world: World,
    type_parameters: Seq<TypeParameter>,
    trait_type_arguments: Seq<TypeArgument>,
    self_type: TypeId,
    i: int,
) -> (t: int)
    requires
        unconstrained_run(world, type_parameters, trait_type_arguments, self_type).value is Some,
        0 <= i < type_parameters.len(),
        !uses(world.replies, type_parameters.len(), trait_type_arguments.len(), i),
        is_last(world.replies, type_parameters.len(), i),
    ensures
        0 <= t < left_over(world, type_parameters, trait_type_arguments, self_type).len(),
        is_about(
            unconstrained_errors(
                left_over(world, type_parameters, trait_type_arguments, self_type),
            )[t],
            described(world.replies[i]).key,
            world.replies,
            type_parameters.len(),
            type_parameters[i].span,
        ),
{
    lemma_left_over(world, type_parameters, trait_type_arguments, self_type);
    let left = left_over(world, type_parameters, trait_type_arguments, self_type);
    let entries = described_entries(world.replies, type_parameters, 0);
    let key = described(world.replies[i]).key;
    let rank = generic_rank(key);
    lemma_lookup(left, rank);
    let t = choose|t: int| 0 <= t < left.len() && (#[trigger] left[t]).0.rank() == rank;
    lemma_generic_rank(left[t].0.key, key);
    assert(entries[i] == (described(world.replies[i]), type_parameters[i].span));
    lemma_last_described(entries, i);
    let k = choose|k: int|
        0 <= k < type_parameters.len() && described(#[trigger] world.replies[k]) == left[t].0;
    assert(described(world.replies[k]).key == key);
    t
}

/// The head of an impl block is accepted exactly if it uses each of its type parameters, in
/// the type arguments of the trait or in the type that the trait is implemented for.
///
/// Of each type parameter that it does not use there is an error, with the span of the last
/// parameter of that generic type; and each error that is not one of those that came with the
/// replies is such an error.
pub proof fn law_unconstrained(
    world: World,
    type_parameters: Seq<TypeParameter>,
    trait_type_arguments: Seq<TypeArgument>,
    self_type: TypeId,
)
    requires
        unconstrained_run(world, type_parameters, trait_type_arguments, self_type).value is Some,
    ensures
        ({
            let after = unconstrained_run(
                world,
                type_parameters,
                trait_type_arguments,
                self_type,
            );
            let n = type_parameters.len();
            let arguments = trait_type_arguments.len();
            &&& after.value->0 is Ok <==> forall|i: int|
                0 <= i < n ==> #[trigger] uses(world.replies, n, arguments, i)
            &&& forall|i: int|
                0 <= i < n && !(#[trigger] uses(world.replies, n, arguments, i)) && is_last(
                    world.replies,
                    n,
                    i,
                ) ==> exists|e: int|
                    world.errors.len() <= e < after.world.errors.len() && is_about(
                        #[trigger] after.world.errors[e],
                        described(world.replies[i]).key,
                        world.replies,
                        n,
                        type_parameters[i].span,
                    )
            &&& forall|e: int|
                world.errors.len() <= e < after.world.errors.len() && !is_reported(
                    #[trigger] after.world.errors[e],
                ) ==> exists|i: int|
                    0 <= i < n && !(#[trigger] uses(world.replies, n, arguments, i)) && is_last(
                        world.replies,
                        n,
                        i,
                    ) && is_about(
                        after.world.errors[e],
                        described(world.replies[i]).key,
                        world.replies,
                        n,
                        type_parameters[i].span,
                    )
        }),
{
    let n = type_parameters.len();
    let arguments = trait_type_arguments.len();
    let after = unconstrained_run(world, type_parameters, trait_type_arguments, self_type);
    let errors = after.world.errors;
    let left = left_over(world, type_parameters, trait_type_arguments, self_type);
    let reported = errors.len() - left.len();
    lemma_left_over(world, type_parameters, trait_type_arguments, self_type);
    if left.len() > 0 {
        let i = lemma_left_over_unused(
            world,
            type_parameters,
            trait_type_arguments,
            self_type,
            0,
        );
        assert(!uses(world.replies, n, arguments, i));
    }
    assert forall|i: int|
        0 <= i < n && !(#[trigger] uses(world.replies, n, arguments, i)) && is_last(
            world.replies,
            n,
            i,
        ) implies exists|e: int|
        world.errors.len() <= e < errors.len() && is_about(
            #[trigger] errors[e],
            described(world.replies[i]).key,
            world.replies,
            n,
            type_parameters[i].span,
        ) by {
        let t = lemma_unused_left_over(
            world,
            type_parameters,
            trait_type_arguments,
            self_type,
            i,
        );
        assert(errors[reported + t] == unconstrained_errors(left)[t]);
    }
    assert forall|e: int|
        world.errors.len() <= e < errors.len() && !is_reported(
            #[trigger] errors[e],
        ) implies exists|i: int|
        0 <= i < n && !(#[trigger] uses(world.replies, n, arguments, i)) && is_last(
            world.replies,
            n,
            i,
        ) && is_about(
            errors[e],
            described(world.replies[i]).key,
            world.replies,
            n,
            type_parameters[i].span,
        ) by {
        let t = e - reported;
        assert(errors[reported + t] == unconstrained_errors(left)[t]);
        let i = lemma_left_over_unused(
            world,
            type_parameters,
            trait_type_arguments,
            self_type,
            t,
        );
        assert(!uses(world.replies, n, arguments, i));
    }
}

/// The errors that came with the first `n` replies.
pub open spec fn reported_by(replies: Seq<Reply>, n: int) -> Seq<ErrorView>
    decreases n,
{
    if n <= 0 {
        Seq::empty()
    } else {
        reported_errors(replies[0].errors@) + reported_by(replies.skip(1), n - 1)
    }
}

proof fn lemma_reported_by(replies: Seq<Reply>, n: int, more: int)
    requires
        0 <= n,
        0 <= more,
        n + more <= replies.len(),
    ensures
        reported_by(replies, n + more) == reported_by(replies, n) + reported_by(
            replies.skip(n),
            more,
        ),
    decreases n,
{
    if n == 0 {
        assert(replies.skip(0) =~= replies);
        assert(reported_by(replies, 0) + reported_by(replies, more) =~= reported_by(
            replies,
            more,
        ));
    } else {
        lemma_reported_by(replies.skip(1), n - 1, more);
        assert(replies.skip(1).skip(n - 1) =~= replies.skip(n));
        let first = reported_errors(replies[0].errors@);
        let second = reported_by(replies.skip(1), n - 1);
        let third = reported_by(replies.skip(n), more);
        assert(first + (second + third) =~= (first + second) + third);
    }
}

proof fn lemma_defined_errors(
    world: World,
    type_parameters: Seq<TypeParameter>,
    defined: Seq<(Generic, Span)>,
    i: int,
)
    requires
        0 <= i <= type_parameters.len(),
        defined_run(world, type_parameters, defined, i).value is Some,
    ensures
        defined_run(world, type_parameters, defined, i).world.errors == world.errors + reported_by(
            world.replies,
            type_parameters.len() - i,
        ),
    decreases type_parameters.len() - i,
{
    if i < type_parameters.len() {
        let query = QueryView::DescribeGeneric { type_id: type_parameters[i].type_id };
        let first = to_generic(ask(world, query));
        let next = put(defined, first.value->0, type_parameters[i].span);
        lemma_defined_errors(first.world, type_parameters, next, i + 1);
        let here = reported_errors(world.replies[0].errors@);
        let there = reported_by(world.replies.skip(1), type_parameters.len() - i - 1);
        assert((world.errors + here) + there =~= world.errors + (here + there));
    } else {
        assert(world.errors + Seq::<ErrorView>::empty() =~= world.errors);
    }
}

proof fn lemma_used_errors(world: World, type_ids: Seq<TypeId>, used: Seq<u64>, i: int)
    requires
        0 <= i <= type_ids.len(),
        used_run(world, type_ids, used, i).value is Some,
    ensures
        used_run(world, type_ids, used, i).world.errors == world.errors + reported_by(
            world.replies,
            type_ids.len() - i,
        ),
    decreases type_ids.len() - i,
{
    if i < type_ids.len() {
        let query = QueryView::NestedGenerics { type_id: type_ids[i] };
        let first = to_generics(ask(world, query));
        lemma_used_errors(first.world, type_ids, used + first.value->0@, i + 1);
        let here = reported_errors(world.replies[0].errors@);
        let there = reported_by(world.replies.skip(1), type_ids.len() - i - 1);
        assert((world.errors + here) + there =~= world.errors + (here + there));
    } else {
        assert(world.errors + Seq::<ErrorView>::empty() =~= world.errors);
    }
}

/// Whether the generic type of some key is unused, and an error says so, with the span of the
/// last type parameter of that generic type.
pub open spec fn tells_of(
    error: ErrorView,
    key: u64,
    replies: Seq<Reply>,
    type_parameters: Seq<TypeParameter>,
    arguments: nat,
) -> bool {
    let n = type_parameters.len();
    exists|i: int|
        0 <= i < n && described(#[trigger] replies[i]).key == key && !uses(
            replies,
            n,
            arguments,
            i,
        ) && is_last(replies, n, i) && is_about(error, key, replies, n, type_parameters[i].span)
}

/// Whether the errors behind those that came with the replies are about the unused generic
/// types alone: one about each key, in the order of the keys.
pub open spec fn tells_of_each(
    before: World,
    after: World,
    type_parameters: Seq<TypeParameter>,
    arguments: nat,
    keys: Seq<u64>,
) -> bool {
    let n = type_parameters.len();
    let reported = before.errors + reported_by(before.replies, (n + arguments + 1) as int);
    &&& after.errors.len() == reported.len() + keys.len()
    &&& reported.is_prefix_of(after.errors)
    &&& forall|a: int, b: int| 0 <= a < b < keys.len() ==> #[trigger] keys[a] < #[trigger] keys[b]
    &&& forall|a: int|
        0 <= a < keys.len() ==> tells_of(
            after.errors[reported.len() + a],
            #[trigger] keys[a],
            before.replies,
            type_parameters,
            arguments,
        )
    &&& forall|i: int|
        0 <= i < n && !(#[trigger] uses(before.replies, n, arguments, i)) ==> keys.contains(
            described(before.replies[i]).key,
        )
}

/// The errors about unused type parameters come behind all that the compiler reported. There
/// is exactly one for each generic type that is not used, in the order of their keys.
pub proof fn law_unconstrained_in_order(
    world: World,
    type_parameters: Seq<TypeParameter>,
    trait_type_arguments: Seq<TypeArgument>,
    self_type: TypeId,
)
    requires
        unconstrained_run(world, type_parameters, trait_type_arguments, self_type).value is Some,
    ensures
        exists|keys: Seq<u64>|
            tells_of_each(
                world,
                unconstrained_run(
                    world,
                    type_parameters,
                    trait_type_arguments,
                    self_type,
                ).world,
                type_parameters,
                trait_type_arguments.len(),
                keys,
            ),
{
    let n = type_parameters.len();
    let arguments = trait_type_arguments.len();
    let types = head_types(trait_type_arguments, self_type);
    let after = unconstrained_run(world, type_parameters, trait_type_arguments, self_type).world;
    let left = left_over(world, type_parameters, trait_type_arguments, self_type);
    let first = defined_run(world, type_parameters, Seq::empty(), 0);
    let second = used_run(first.world, types, Seq::empty(), 0);
    lemma_left_over(world, type_parameters, trait_type_arguments, self_type);
    lemma_defined(world, type_parameters, Seq::empty(), 0);
    lemma_used(first.world, types, Seq::empty(), 0);
    lemma_defined_errors(world, type_parameters, Seq::empty(), 0);
    lemma_used_errors(first.world, types, Seq::empty(), 0);
    lemma_reported_by(world.replies, n as int, (arguments + 1) as int);
    let reported = world.errors + reported_by(world.replies, (n + arguments + 1) as int);
    assert(second.world.errors =~= reported);
    assert(after.errors =~= reported + unconstrained_errors(left));
    let keys = left.map_values(|entry: (Generic, Span)| entry.0.key);
    assert forall|a: int, b: int| 0 <= a < b < keys.len() implies #[trigger] keys[a]
        < #[trigger] keys[b] by {
        let s = left[a].0.rank();
        let t = left[b].0.rank();
        assert(lex_less(s, t));
        assert(s[0] == keys[a] && t[0] == keys[b]);
        lemma_single(keys[a] as int, keys[b] as int);
    }
    assert forall|a: int| 0 <= a < keys.len() implies tells_of(
        after.errors[reported.len() + a],
        #[trigger] keys[a],
        world.replies,
        type_parameters,
        arguments,
    ) by {
        let i = lemma_left_over_unused(
            world,
            type_parameters,
            trait_type_arguments,
            self_type,
            a,
        );
        assert(after.errors[reported.len() + a] == unconstrained_errors(left)[a]);
        assert(described(world.replies[i]).key == keys[a]);
    }
    assert forall|i: int|
        0 <= i < n && !(#[trigger] uses(world.replies, n, arguments, i)) implies keys.contains(
        described(world.replies[i]).key,
    ) by {
        let rank = generic_rank(described(world.replies[i]).key);
        lemma_lookup(left, rank);
        let t = choose|t: int| 0 <= t < left.len() && (#[trigger] left[t]).0.rank() == rank;
        lemma_generic_rank(left[t].0.key, described(world.replies[i]).key);
        assert(keys[t] == described(world.replies[i]).key);
    }
    assert(tells_of_each(world, after, type_parameters, arguments, keys));
}

proof fn lemma_single(a: int, b: int)
    requires
        lex_less(seq![a], seq![b]),
    ensures
        a < b,
{
    reveal_with_fuel(lex_less, 3);
}

} // verus!
