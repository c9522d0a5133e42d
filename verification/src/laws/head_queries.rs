//! What is asked about the head of an impl block to find type parameters that it does not use.
use crate::generics::{defined_run, head_types, unconstrained_run, used_run};
use crate::ident::Span;
use crate::ordered::{put, Key};
use crate::session::{
    ask, chain, done, to_generic, to_generics, Generic, QueryView, Reply, Run, StopView, World,
};
use crate::types::{TypeArgument, TypeId, TypeParameter};
use vstd::prelude::*;

verus! {

/// The queries about a head: one about each type parameter, one about each type argument of
/// the trait, and one about the type that the trait is implemented for.
pub open spec fn head_queries(
    type_parameters: Seq<TypeParameter>,
    trait_type_arguments: Seq<TypeArgument>,
    self_type: TypeId,
) -> Seq<QueryView> {
    let n = type_parameters.len();
    let arguments = trait_type_arguments.len();
    Seq::new(
        n + arguments + 1,
        |k: int|
            if k < n {
                QueryView::DescribeGeneric { type_id: type_parameters[k].type_id }
            } else if k < n + arguments {
                QueryView::NestedGenerics { type_id: trait_type_arguments[k - n].type_id }
            } else {
                QueryView::NestedGenerics { type_id: self_type }
            },
    )
}

/// Whether the replies, as far as there are any, are of the kinds that are asked for: the
/// first `n` describe a generic type, and the others list generic types.
pub open spec fn fitting_replies(replies: Seq<Reply>, n: nat, all: nat) -> bool {
    &&& forall|k: int|
        0 <= k < n && k < replies.len() ==> (#[trigger] replies[k]).answer is Generic
    &&& forall|k: int|
        n <= k < all && k < replies.len() ==> (#[trigger] replies[k]).answer is Generics
}

proof fn lemma_defined_queries(
    world: World,
    type_parameters: Seq<TypeParameter>,
    defined: Seq<(Generic, Span)>,
    i: int,
)
    requires
        0 <= i <= type_parameters.len(),
        forall|k: int|
            0 <= k < type_parameters.len() - i && k < world.replies.len() ==> (
            #[trigger] world.replies[k]).answer is Generic,
    ensures
        ({
            let after = defined_run(world, type_parameters, defined, i);
            let n = type_parameters.len() - i;
            let queries = Seq::new(
                n as nat,
                |k: int| QueryView::DescribeGeneric { type_id: type_parameters[i + k].type_id },
            );
            if n <= world.replies.len() {
                &&& after.value is Some
                &&& after.world.asked == world.asked + queries
                &&& after.world.replies == world.replies.skip(n)
            } else {
                &&& after.value is None
                &&& after.world.asked == world.asked + queries.take(world.replies.len() as int)
                &&& after.world.stop == StopView::Asking(queries[world.replies.len() as int])
            }
        }),
    decreases type_parameters.len() - i,
{
    let after = defined_run(world, type_parameters, defined, i);
    let n = type_parameters.len() - i;
    let queries = Seq::new(
        n as nat,
        |k: int| QueryView::DescribeGeneric { type_id: type_parameters[i + k].type_id },
    );
    let read = world.replies.len() as int;
    if n == 0 {
        assert(world.asked + queries =~= world.asked);
        assert(world.replies.skip(0) =~= world.replies);
    } else if read == 0 {
        assert(world.asked + queries.take(0) =~= world.asked);
    } else {
        let first = to_generic(ask(world, queries[0]));
        assert(world.replies[0].answer is Generic);
        assert forall|k: int|
            0 <= k < n - 1 && k < first.world.replies.len() implies (
        #[trigger] first.world.replies[k]).answer is Generic by {
            assert(first.world.replies[k] == world.replies[k + 1]);
        }
        let next = put(defined, first.value->0, type_parameters[i].span);
        lemma_defined_queries(first.world, type_parameters, next, i + 1);
        let rest = Seq::new(
            (n - 1) as nat,
            |k: int| QueryView::DescribeGeneric { type_id: type_parameters[i + 1 + k].type_id },
        );
        assert(rest =~= queries.drop_first());
        assert(after == defined_run(first.world, type_parameters, next, i + 1));
        if n <= read {
            assert(world.asked.push(queries[0]) + rest =~= world.asked + queries);
            assert(first.world.replies.skip(n - 1) =~= world.replies.skip(n));
        } else {
            assert(world.asked.push(queries[0]) + rest.take(read - 1) =~= world.asked
                + queries.take(read));
        }
    }
}

proof fn lemma_used_queries(world: World, type_ids: Seq<TypeId>, used: Seq<u64>, i: int)
    requires
        0 <= i <= type_ids.len(),
        forall|k: int|
            0 <= k < type_ids.len() - i && k < world.replies.len() ==> (
            #[trigger] world.replies[k]).answer is Generics,
    ensures
        ({
            let after = used_run(world, type_ids, used, i);
            let n = type_ids.len() - i;
            let queries = Seq::new(
                n as nat,
                |k: int| QueryView::NestedGenerics { type_id: type_ids[i + k] },
            );
            if n <= world.replies.len() {
                &&& after.value is Some
                &&& after.world.asked == world.asked + queries
                &&& after.world.replies == world.replies.skip(n)
            } else {
                &&& after.value is None
                &&& after.world.asked == world.asked + queries.take(world.replies.len() as int)
                &&& after.world.stop == StopView::Asking(queries[world.replies.len() as int])
            }
        }),
    decreases type_ids.len() - i,
{
    let after = used_run(world, type_ids, used, i);
    let n = type_ids.len() - i;
    let queries = Seq::new(
        n as nat,
        |k: int| QueryView::NestedGenerics { type_id: type_ids[i + k] },
    );
    let read = world.replies.len() as int;
    if n == 0 {
        assert(world.asked + queries =~= world.asked);
        assert(world.replies.skip(0) =~= world.replies);
    } else if read == 0 {
        assert(world.asked + queries.take(0) =~= world.asked);
    } else {
        let first = to_generics(ask(world, queries[0]));
        assert(world.replies[0].answer is Generics);
        assert forall|k: int|
            0 <= k < n - 1 && k < first.world.replies.len() implies (
        #[trigger] first.world.replies[k]).answer is Generics by {
            assert(first.world.replies[k] == world.replies[k + 1]);
        }
        let next = used + first.value->0@;
        lemma_used_queries(first.world, type_ids, next, i + 1);
        let rest = Seq::new(
            (n - 1) as nat,
            |k: int| QueryView::NestedGenerics { type_id: type_ids[i + 1 + k] },
        );
        assert(rest =~= queries.drop_first());
        assert(after == used_run(first.world, type_ids, next, i + 1));
        if n <= read {
            assert(world.asked.push(queries[0]) + rest =~= world.asked + queries);
            assert(first.world.replies.skip(n - 1) =~= world.replies.skip(n));
        } else {
            assert(world.asked.push(queries[0]) + rest.take(read - 1) =~= world.asked
                + queries.take(read));
        }
    }
}

/// The reply that is read as the one about the `i`-th type parameter is the answer to the
/// query about that type parameter; the one read as about the `j`-th type argument is the
/// answer to the query about that type argument; and the last one is the answer to the query
/// about the type that the trait is implemented for. With fewer replies the check stops at
/// the first of these queries that has none, and with as many it comes to its end.
pub proof fn law_head_queries(
    world: World,
    type_parameters: Seq<TypeParameter>,
    trait_type_arguments: Seq<TypeArgument>,
    self_type: TypeId,
)
    requires
        fitting_replies(
            world.replies,
            type_parameters.len(),
            type_parameters.len() + trait_type_arguments.len() + 1,
        ),
    ensures
        ({
            let after = unconstrained_run(
                world,
                type_parameters,
                trait_type_arguments,
                self_type,
            );
            let queries = head_queries(type_parameters, trait_type_arguments, self_type);
            let read = world.replies.len() as int;
            if queries.len() <= read {
                &&& after.value is Some
                &&& after.world.asked == world.asked + queries
                &&& after.world.replies == world.replies.skip(queries.len() as int)
            } else {
                &&& after.value is None
                &&& after.world.asked == world.asked + queries.take(read)
                &&& after.world.stop == StopView::Asking(queries[read])
            }
        }),
{
    let n = type_parameters.len() as int;
    let arguments = trait_type_arguments.len() as int;
    let queries = head_queries(type_parameters, trait_type_arguments, self_type);
    let types = head_types(trait_type_arguments, self_type);
    let read = world.replies.len() as int;
    lemma_defined_queries(world, type_parameters, Seq::empty(), 0);
    let first = defined_run(world, type_parameters, Seq::empty(), 0);
    let about = Seq::new(
        n as nat,
        |k: int| QueryView::DescribeGeneric { type_id: type_parameters[0 + k].type_id },
    );
    let after = unconstrained_run(world, type_parameters, trait_type_arguments, self_type);
    if n <= read {
        assert(about =~= queries.take(n));
        assert forall|k: int|
            0 <= k < types.len() && k < first.world.replies.len() implies (
        #[trigger] first.world.replies[k]).answer is Generics by {
            assert(first.world.replies[k] == world.replies[n + k]);
        }
        lemma_used_queries(first.world, types, Seq::empty(), 0);
        let nested = Seq::new(
            types.len(),
            |k: int| QueryView::NestedGenerics { type_id: types[0 + k] },
        );
        assert(nested =~= queries.skip(n));
        if queries.len() <= read {
            assert(world.asked + about + nested =~= world.asked + queries);
            assert(first.world.replies.skip(arguments + 1) =~= world.replies.skip(
                n + arguments + 1,
            ));
        } else {
            assert(world.asked + about + nested.take(read - n) =~= world.asked + queries.take(
                read,
            ));
            assert(nested[read - n] == queries[read]);
        }
    } else {
        assert(about.take(read) =~= queries.take(read));
        assert(about[read] == queries[read]);
    }
}

/// If the check comes to its end the replies were of the kinds that are asked for, and there
/// was one for each query.
pub proof fn law_head_replies(
    world: World,
    type_parameters: Seq<TypeParameter>,
    trait_type_arguments: Seq<TypeArgument>,
    self_type: TypeId,
)
    requires
        unconstrained_run(world, type_parameters, trait_type_arguments, self_type).value is Some,
    ensures
        ({
            let n = type_parameters.len();
            let all = n + trait_type_arguments.len() + 1;
            &&& all <= world.replies.len()
            &&& fitting_replies(world.replies, n, all)
        }),
{
    let types = head_types(trait_type_arguments, self_type);
    let n = type_parameters.len() as int;
    lemma_defined_replies(world, type_parameters, Seq::empty(), 0);
    let first = defined_run(world, type_parameters, Seq::empty(), 0);
    lemma_used_replies(first.world, types, Seq::empty(), 0);
    lemma_defined_queries(world, type_parameters, Seq::empty(), 0);
    assert forall|k: int| n <= k < n + trait_type_arguments.len() + 1 implies (
    #[trigger] world.replies[k]).answer is Generics by {
        assert(first.world.replies[k - n] == world.replies[k]);
    }
}

proof fn lemma_defined_replies(
    world: World,
    type_parameters: Seq<TypeParameter>,
    defined: Seq<(Generic, Span)>,
    i: int,
)
    requires
        0 <= i <= type_parameters.len(),
        defined_run(world, type_parameters, defined, i).value is Some,
    ensures
        type_parameters.len() - i <= world.replies.len(),
        forall|k: int|
            0 <= k < type_parameters.len() - i ==> (
            #[trigger] world.replies[k]).answer is Generic,
    decreases type_parameters.len() - i,
{
    if i < type_parameters.len() {
        let query = QueryView::DescribeGeneric { type_id: type_parameters[i].type_id };
        let first = to_generic(ask(world, query));
        let next = put(defined, first.value->0, type_parameters[i].span);
        lemma_defined_replies(first.world, type_parameters, next, i + 1);
        assert forall|k: int| 0 <= k < type_parameters.len() - i implies (
        #[trigger] world.replies[k]).answer is Generic by {
            if k > 0 {
                assert(first.world.replies[k - 1] == world.replies[k]);
            }
        }
    }
}

proof fn lemma_used_replies(world: World, type_ids: Seq<TypeId>, used: Seq<u64>, i: int)
    requires
        0 <= i <= type_ids.len(),
        used_run(world, type_ids, used, i).value is Some,
    ensures
        type_ids.len() - i <= world.replies.len(),
        forall|k: int|
            0 <= k < type_ids.len() - i ==> (#[trigger] world.replies[k]).answer is Generics,
    decreases type_ids.len() - i,
{
    if i < type_ids.len() {
        let first = to_generics(
            ask(world, QueryView::NestedGenerics { type_id: type_ids[i] }),
        );
        lemma_used_replies(first.world, type_ids, used + first.value->0@, i + 1);
        assert forall|k: int| 0 <= k < type_ids.len() - i implies (
        #[trigger] world.replies[k]).answer is Generics by {
            if k > 0 {
                assert(first.world.replies[k - 1] == world.replies[k]);
            }
        }
    }
}

/// Each type parameter of an impl block is asked about, in their order. What is known of the
/// generic type it defines is kept with its span. One type parameter more changes nothing for
/// those before it.
pub proof fn law_defined_one_more(
    world: World,
    type_parameters: Seq<TypeParameter>,
    last: TypeParameter,
    defined: Seq<(Generic, Span)>,
)
    ensures
        defined_run(world, Seq::empty(), defined, 0) == done(world, defined),
        defined_run(world, type_parameters.push(last), defined, 0) == chain(
            defined_run(world, type_parameters, defined, 0),
            |world: World, defined: Seq<(Generic, Span)>|
                chain(
                    to_generic(ask(world, QueryView::DescribeGeneric { type_id: last.type_id })),
                    |world: World, generic: Generic| done(world, put(defined, generic, last.span)),
                ),
        ),
{
    lemma_defined_one_more(world, type_parameters, last, defined, 0);
}

/// The same from the `i`-th on.
proof fn lemma_defined_one_more(
    world: World,
    type_parameters: Seq<TypeParameter>,
    last: TypeParameter,
    defined: Seq<(Generic, Span)>,
    i: int,
)
    requires
        0 <= i <= type_parameters.len(),
    ensures
        defined_run(world, type_parameters.push(last), defined, i) == chain(
            defined_run(world, type_parameters, defined, i),
            |world: World, defined: Seq<(Generic, Span)>|
                chain(
                    to_generic(ask(world, QueryView::DescribeGeneric { type_id: last.type_id })),
                    |world: World, generic: Generic| done(world, put(defined, generic, last.span)),
                ),
        ),
    decreases type_parameters.len() - i,
{
    if i < type_parameters.len() {
        assert(type_parameters.push(last)[i] == type_parameters[i]);
        let first = chain(
            to_generic(
                ask(world, QueryView::DescribeGeneric { type_id: type_parameters[i].type_id }),
            ),
            |world: World, generic: Generic|
                done(world, put(defined, generic, type_parameters[i].span)),
        );
        if first.value is Some {
            lemma_defined_one_more(first.world, type_parameters, last, first.value->0, i + 1);
        }
    } else {
        reveal_with_fuel(defined_run, 2);
    }
}

/// Each type in the head of an impl block is asked about, in their order, and the keys of the
/// generic types in it are put behind those before. One type more changes nothing for those
/// before it.
pub proof fn law_used_one_more(
    world: World,
    type_ids: Seq<TypeId>,
    last: TypeId,
    used: Seq<u64>,
)
    ensures
        used_run(world, Seq::empty(), used, 0) == done(world, used),
        used_run(world, type_ids.push(last), used, 0) == chain(
            used_run(world, type_ids, used, 0),
            |world: World, used: Seq<u64>|
                chain(
                    to_generics(ask(world, QueryView::NestedGenerics { type_id: last })),
                    |world: World, keys: Vec<u64>| done(world, used + keys@),
                ),
        ),
{
    lemma_used_one_more(world, type_ids, last, used, 0);
}

/// The same from the `i`-th on.
proof fn lemma_used_one_more(
    world: World,
    type_ids: Seq<TypeId>,
    last: TypeId,
    used: Seq<u64>,
    i: int,
)
    requires
        0 <= i <= type_ids.len(),
    ensures
        used_run(world, type_ids.push(last), used, i) == chain(
            used_run(world, type_ids, used, i),
            |world: World, used: Seq<u64>|
                chain(
                    to_generics(ask(world, QueryView::NestedGenerics { type_id: last })),
                    |world: World, keys: Vec<u64>| done(world, used + keys@),
                ),
        ),
    decreases type_ids.len() - i,
{
    if i < type_ids.len() {
        assert(type_ids.push(last)[i] == type_ids[i]);
        let first = chain(
            to_generics(ask(world, QueryView::NestedGenerics { type_id: type_ids[i] })),
            |world: World, keys: Vec<u64>| done(world, used + keys@),
        );
        if first.value is Some {
            lemma_used_one_more(first.world, type_ids, last, first.value->0, i + 1);
        }
    } else {
        reveal_with_fuel(used_run, 2);
    }
}

/// The check for unused type parameters asks about the type parameters first, and about the
/// type arguments and the type that the trait is implemented for behind them. All else that it
/// changes is the errors.
pub proof fn law_head_order(
    world: World,
    type_parameters: Seq<TypeParameter>,
    trait_type_arguments: Seq<TypeArgument>,
    self_type: TypeId,
    defined: Run<Seq<(Generic, Span)>>,
    used: Run<Seq<u64>>,
)
    requires
        defined == defined_run(world, type_parameters, Seq::empty(), 0),
        defined.value is Some,
        used == used_run(
            defined.world,
            trait_type_arguments.map_values(|argument: TypeArgument| argument.type_id).push(
                self_type,
            ),
            Seq::empty(),
            0,
        ),
        used.value is Some,
    ensures
        ({
            let after = unconstrained_run(
                world,
                type_parameters,
                trait_type_arguments,
                self_type,
            );
            &&& after.value is Some
            &&& after.world == (World { errors: after.world.errors, ..used.world })
        }),
{
    assert(head_types(trait_type_arguments, self_type) =~= trait_type_arguments.map_values(
        |argument: TypeArgument| argument.type_id,
    ).push(self_type));
}

} // verus!
