//! The type parameters of an impl block must be used in its head.
use crate::diagnostics::{CompileError, ErrorEmitted, ErrorView};
use crate::ident::Span;
use crate::ordered::{drop_key, put, Key, Order, SortedMap};
use crate::session::{
    ask, chain, done, list, run, to_generic, to_generics, Generic, Query, QueryView, Run, Session,
    World,
};
use crate::types::{TypeArgument, TypeId, TypeParameter};
use vstd::prelude::*;

verus! {

/// What a generic type is told apart by.
pub open spec fn generic_rank(key: u64) -> Seq<int> {
    seq![key as int]
}

impl Key for Generic {
    /// Generic types are ordered by their keys.
    open spec fn rank(&self) -> Seq<int> {
        generic_rank(self.key)
    }

    fn compare(&self, other: &Generic) -> (order: Order) {
        proof {
            let a = self.rank();
            let b = other.rank();
            assert(a == b <==> a[0] == b[0]) by {
                if a[0] == b[0] {
                    assert(a =~= b);
                }
            }
        }
        if self.key == other.key {
            Order::Equal
        } else if self.key < other.key {
            Order::Less
        } else {
            Order::Greater
        }
    }
}

/// The generic types that the type parameters from the `i`-th on define, added to those
/// collected before, each with the span of the last parameter that defines it.
pub open spec fn defined_run(
    world: World,
    type_parameters: Seq<TypeParameter>,
    defined: Seq<(Generic, Span)>,
    i: int,
) -> Run<Seq<(Generic, Span)>>
    decreases type_parameters.len() - i,
{
    if i >= type_parameters.len() {
        done(world, defined)
    } else {
        chain(
            to_generic(
                ask(world, QueryView::DescribeGeneric { type_id: type_parameters[i].type_id }),
            ),
            |world: World, generic: Generic|
                defined_run(
                    world,
                    type_parameters,
                    put(defined, generic, type_parameters[i].span),
                    i + 1,
                ),
        )
    }
}

/// The keys of the generic types in the types from the `i`-th on, added to those collected
/// before.
pub open spec fn used_run(world: World, type_ids: Seq<TypeId>, used: Seq<u64>, i: int) -> Run<
    Seq<u64>,
>
    decreases type_ids.len() - i,
{
    if i >= type_ids.len() {
        done(world, used)
    } else {
        chain(
            to_generics(ask(world, QueryView::NestedGenerics { type_id: type_ids[i] })),
            |world: World, keys: Vec<u64>| used_run(world, type_ids, used + keys@, i + 1),
        )
    }
}

/// What is left of the defined generic types without those that are used.
pub open spec fn deduct(defined: Seq<(Generic, Span)>, used: Seq<u64>) -> Seq<(Generic, Span)>
    decreases used.len(),
{
    if used.len() == 0 {
        defined
    } else {
        deduct(drop_key(defined, generic_rank(used[0])), used.drop_first())
    }
}

/// One error for each generic type that is not used.
pub open spec fn unconstrained_errors(left: Seq<(Generic, Span)>) -> Seq<ErrorView> {
    Seq::new(
        left.len(),
        |i: int|
            ErrorView::Plain(
                CompileError::UnconstrainedGenericParameter { ty: left[i].0.text, span: left[i].1 },
            ),
    )
}

/// The types in the head of an impl block: the type arguments of the trait, and the type it
/// is implemented for.
pub open spec fn head_types(trait_type_arguments: Seq<TypeArgument>, self_type: TypeId) -> Seq<
    TypeId,
> {
    Seq::new(trait_type_arguments.len(), |i: int| trait_type_arguments[i].type_id).push(self_type)
}

/// What the check for type parameters that are not used comes to.
pub open spec fn unconstrained_run(
    world: World,
    type_parameters: Seq<TypeParameter>,
    trait_type_arguments: Seq<TypeArgument>,
    self_type: TypeId,
) -> Run<Result<(), ErrorEmitted>> {
    chain(
        defined_run(world, type_parameters, Seq::empty(), 0),
        |world: World, defined: Seq<(Generic, Span)>|
            chain(
                used_run(world, head_types(trait_type_arguments, self_type), Seq::empty(), 0),
                |world: World, used: Seq<u64>|
                    done(
                        world.emit_all(unconstrained_errors(deduct(defined, used))),
                        if deduct(defined, used).len() == 0 {
                            Ok(())
                        } else {
                            Err(ErrorEmitted)
                        },
                    ),
            ),
    )
}

/// A map that may be missing, as a mathematical value.
pub open spec fn generic_map(value: Option<SortedMap<Generic, Span>>) -> Option<
    Seq<(Generic, Span)>,
> {
    match value {
        Some(map) => Some(map@),
        None => None,
    }
}

fn collect_defined(cx: &mut Session, type_parameters: &Vec<TypeParameter>) -> (defined: Option<
    SortedMap<Generic, Span>,
>)
    ensures
        run(final(cx)@, generic_map(defined)) == defined_run(
            old(cx)@,
            type_parameters@,
            Seq::empty(),
            0,
        ),
{
    let mut defined: SortedMap<Generic, Span> = SortedMap::new();
    let mut i: usize = 0;
    while i < type_parameters.len()
        invariant
            i <= type_parameters@.len(),
            defined_run(old(cx)@, type_parameters@, Seq::empty(), 0) == defined_run(
                cx@,
                type_parameters@,
                defined@,
                i as int,
            ),
        decreases type_parameters@.len() - i,
    {
        let generic = cx.ask_generic(
            Query::DescribeGeneric { type_id: type_parameters[i].type_id },
        )?;
        defined.insert(generic, type_parameters[i].span);
        i = i + 1;
    }
    Some(defined)
}

fn collect_used(
    cx: &mut Session,
    trait_type_arguments: &Vec<TypeArgument>,
    self_type: TypeId,
) -> (used: Option<Vec<u64>>)
    ensures
        run(final(cx)@, list(used)) == used_run(
            old(cx)@,
            head_types(trait_type_arguments@, self_type),
            Seq::empty(),
            0,
        ),
{
    let ghost types = head_types(trait_type_arguments@, self_type);
    let mut used: Vec<u64> = Vec::new();
    let mut i: usize = 0;
    while i < trait_type_arguments.len()
        invariant
            i <= trait_type_arguments@.len(),
            types == head_types(trait_type_arguments@, self_type),
            used_run(old(cx)@, types, Seq::empty(), 0) == used_run(
                cx@,
                types,
                used@,
                i as int,
            ),
        decreases trait_type_arguments@.len() - i,
    {
        let type_id = trait_type_arguments[i].type_id;
        let mut keys = cx.ask_generics(Query::NestedGenerics { type_id })?;
        used.append(&mut keys);
        i = i + 1;
    }
    let mut keys = cx.ask_generics(Query::NestedGenerics { type_id: self_type })?;
    used.append(&mut keys);
    proof {
        reveal_with_fuel(used_run, 2);
    }
    Some(used)
}

/// Checks that the head of an impl block uses each of its type parameters: in the type
/// arguments of the trait, or in the type that the trait is implemented for. Each type
/// parameter that it does not use is an error.
///
/// So `impl<T, F> Test<T> for FooBarData<F>` passes, while in
/// `impl<T, F> Test for FooBarData<F>` the `T` is unconstrained.
pub fn check_for_unconstrained_type_parameters(
    cx: &mut Session,
    type_parameters: &Vec<TypeParameter>,
    trait_type_arguments: &Vec<TypeArgument>,
    self_type: TypeId,
) -> (result: Option<Result<(), ErrorEmitted>>)
    ensures
        run(final(cx)@, result) == unconstrained_run(
            old(cx)@,
            type_parameters@,
            trait_type_arguments@,
            self_type,
        ),
{
    // The generic types that are defined, each with a span.
    let defined = collect_defined(cx, type_parameters)?;

    // The generic types in use in the head of the impl block.
    let used = collect_used(cx, trait_type_arguments, self_type)?;

    // The generic types in use are deducted from those defined.
    let mut left = defined;
    let mut i: usize = 0;
    assert(used@.skip(0) =~= used@);
    while i < used.len()
        invariant
            i <= used@.len(),
            deduct(defined@, used@) == deduct(left@, used@.skip(i as int)),
        decreases used@.len() - i,
    {
        assert(used@.skip(i as int).drop_first() =~= used@.skip(i + 1));
        let key: u64 = used[i];
        left.remove(&Generic { key, text: String::new() });
        i = i + 1;
    }
    assert(left@ == deduct(defined@, used@));

    // Each that is left over is an error.
    let ghost before = cx@;
    let ghost errors = unconstrained_errors(left@);
    let mut j: usize = 0;
    assert(before.errors =~= before.errors + errors.take(0));
    while j < left.len()
        invariant
            j <= left@.len(),
            errors == unconstrained_errors(left@),
            cx@ == before.emit_all(errors.take(j as int)),
        decreases left@.len() - j,
    {
        let (generic, span) = left.entry(j);
        cx.emit_err(
            CompileError::UnconstrainedGenericParameter { ty: generic.text.clone(), span: *span },
        );
        j = j + 1;
        assert(cx@.errors =~= before.errors + errors.take(j as int));
    }
    assert(errors.take(errors.len() as int) =~= errors);
    if left.is_empty() {
        Some(Ok(()))
    } else {
        Some(Err(ErrorEmitted))
    }
}

} // verus!
