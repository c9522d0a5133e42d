//! What a checked trait keeps of its declaration.
use crate::decl::{
    ConstantDeclaration, FunctionDeclaration, TraitDeclaration, TraitFn, TraitItem,
    TraitTypeDeclaration, TraitView, TyTraitInterfaceItem, TyTraitItem,
};
use crate::diagnostics::{CompileError, ErrorView};
use crate::ident::Ident;
use crate::session::{ask, done, reported_errors, ContextView, QueryView, World};
use crate::trait_decl::{
    declare_constant_run, declare_fn_run, declare_members_run, declare_type_run,
    declare_types_run, methods_run, name_run, provide_method_run, stand_in_run, trait_body_run,
    trait_run, SurfaceView,
};
use crate::types::TypeParameter;
use vstd::prelude::*;

verus! {

/// How many of the items are associated types.
pub open spec fn types_in(items: Seq<TraitItem>) -> nat {
    items.filter(|item: TraitItem| item is Type).len()
}

/// How many of the items are signatures or constants.
pub open spec fn members_in(items: Seq<TraitItem>) -> nat {
    items.filter(|item: TraitItem| item is TraitFn || item is Constant).len()
}

/// How many of the errors are about a name that was declared before.
pub open spec fn repeats(errors: Seq<ErrorView>) -> nat {
    errors.filter(|error: ErrorView| is_repeat(error)).len()
}

/// Whether an error is about a name that was declared before.
pub open spec fn is_repeat(error: ErrorView) -> bool {
    error matches ErrorView::Plain(CompileError::MultipleDefinitionsOfName { .. })
}

/// Whether no name was taken down twice.
pub open spec fn distinct(surface: SurfaceView) -> bool {
    forall|i: int, j: int|
        0 <= i < j < surface.names.len() ==> (#[trigger] surface.names[i]).name@ != (
        #[trigger] surface.names[j]).name@
}

proof fn lemma_repeats_push(errors: Seq<ErrorView>, error: ErrorView)
    ensures
        repeats(errors.push(error)) == repeats(errors) + if is_repeat(error) {
            1nat
        } else {
            0nat
        },
{
    let pred = |error: ErrorView| is_repeat(error);
    reveal(Seq::filter);
    assert(errors.push(error).drop_last() =~= errors);
}

proof fn lemma_repeats_reported(errors: Seq<ErrorView>, reported: Seq<u64>)
    ensures
        repeats(errors + reported_errors(reported)) == repeats(errors),
    decreases reported.len(),
{
    let more = reported_errors(reported);
    if reported.len() == 0 {
        assert(errors + more =~= errors);
    } else {
        lemma_repeats_reported(errors, reported.drop_last());
        assert(errors + more =~= (errors + reported_errors(reported.drop_last())).push(
            more.last(),
        ));
        lemma_repeats_push(errors + reported_errors(reported.drop_last()), more.last());
    }
}

broadcast proof fn lemma_repeats_ask(world: World, query: QueryView)
    ensures
        repeats((#[trigger] ask(world, query)).world.errors) == repeats(world.errors),
{
    if world.replies.len() > 0 {
        lemma_repeats_reported(world.errors, world.replies[0].errors@);
    }
}

/// Whether a step took down as many items as it took down names and emitted repeats, and
/// kept the names distinct.
pub open spec fn tallies(
    before: World,
    surface: SurfaceView,
    after: World,
    next: SurfaceView,
) -> bool {
    &&& distinct(surface) ==> distinct(next)
    &&& surface.items.is_prefix_of(next.items)
    &&& next.items.len() - surface.items.len() == (next.names.len() - surface.names.len()) + (
    repeats(after.errors) - repeats(before.errors))
}

broadcast proof fn lemma_name(world: World, surface: SurfaceView, name: Ident)
    ensures
        ({
            let after = #[trigger] name_run(world, surface, name);
            let next = after.value->0->Ok_0;
            &&& distinct(surface) ==> distinct(next)
            &&& next.items == surface.items
            &&& (next.names.len() - surface.names.len()) + (repeats(after.world.errors) - repeats(
                world.errors,
            )) == 1
        }),
{
    let error = ErrorView::Plain(
        CompileError::MultipleDefinitionsOfName { name, span: name.span },
    );
    lemma_repeats_push(world.errors, error);
    let next = surface.naming(name);
    if distinct(surface) {
        assert forall|i: int, j: int| 0 <= i < j < next.names.len() implies (
        #[trigger] next.names[i]).name@ != (#[trigger] next.names[j]).name@ by {
            if j == surface.names.len() {
                assert(next.names[i] == surface.names[i]);
            } else {
                assert(next.names[i] == surface.names[i] && next.names[j] == surface.names[j]);
            }
        }
    }
}

proof fn lemma_declare_type(
    world: World,
    ctx: ContextView,
    parsed: TraitTypeDeclaration,
    surface: SurfaceView,
)
    ensures
        ({
            let after = declare_type_run(world, ctx, parsed, surface);
            after.value is Some && after.value->0 is Ok ==> {
                let next = after.value->0->Ok_0;
                &&& tallies(world, surface, after.world, next)
                &&& next.items.len() == surface.items.len() + 1
                &&& next.items.last() is Type
            }
        }),
{
    broadcast use {lemma_repeats_ask, lemma_name};

}

proof fn lemma_declare_fn(
    world: World,
    ctx: ContextView,
    parsed: TraitFn,
    surface: SurfaceView,
)
    ensures
        ({
            let after = declare_fn_run(world, ctx, parsed, surface);
            after.value is Some && after.value->0 is Ok ==> {
                let next = after.value->0->Ok_0;
                &&& tallies(world, surface, after.world, next)
                &&& next.items.len() == surface.items.len() + 1
                &&& next.items.last() is TraitFn
            }
        }),
{
    broadcast use {lemma_repeats_ask, lemma_name};

}

proof fn lemma_declare_constant(
    world: World,
    ctx: ContextView,
    parsed: ConstantDeclaration,
    surface: SurfaceView,
)
    ensures
        ({
            let after = declare_constant_run(world, ctx, parsed, surface);
            after.value is Some && after.value->0 is Ok ==> {
                let next = after.value->0->Ok_0;
                &&& tallies(world, surface, after.world, next)
                &&& next.items.len() == surface.items.len() + 1
                &&& next.items.last() is Constant
            }
        }),
{
    broadcast use {lemma_repeats_ask, lemma_name};

}

proof fn lemma_counts(items: Seq<TraitItem>, i: int)
    requires
        0 <= i < items.len(),
    ensures
        types_in(items.take(i + 1)) == types_in(items.take(i)) + if items[i] is Type {
            1nat
        } else {
            0nat
        },
        members_in(items.take(i + 1)) == members_in(items.take(i)) + if items[i] is TraitFn
            || items[i] is Constant {
            1nat
        } else {
            0nat
        },
{
    reveal(Seq::filter);
    assert(items.take(i + 1).drop_last() =~= items.take(i));
}

/// Whether every item behind the first `n` is an associated type.
pub open spec fn types_from(items: Seq<TyTraitInterfaceItem>, n: int) -> bool {
    forall|k: int| n <= k < items.len() ==> (#[trigger] items[k]) is Type
}

/// Whether every item behind the first `n` is a signature or a constant.
pub open spec fn members_from(items: Seq<TyTraitInterfaceItem>, n: int) -> bool {
    forall|k: int|
        n <= k < items.len() ==> (#[trigger] items[k]) is TraitFn || items[k] is Constant
}

proof fn lemma_declare_types(
    world: World,
    ctx: ContextView,
    items: Seq<TraitItem>,
    surface: SurfaceView,
    i: int,
)
    requires
        0 <= i <= items.len(),
    ensures
        ({
            let after = declare_types_run(world, ctx, items, surface, i);
            after.value is Some && after.value->0 is Ok ==> {
                let last = after.value->0->Ok_0;
                &&& tallies(world, surface, after.world, last)
                &&& last.items.len() == surface.items.len() + types_in(items) - types_in(
                    items.take(i),
                )
                &&& types_from(last.items, surface.items.len() as int)
            }
        }),
    decreases items.len() - i,
{
    if i < items.len() {
        lemma_counts(items, i);
        let first = match items[i] {
            TraitItem::Type(parsed) => declare_type_run(world, ctx, parsed, surface),
            _ => done(world, Ok(surface)),
        };
        if let TraitItem::Type(parsed) = items[i] {
            lemma_declare_type(world, ctx, parsed, surface);
        }
        if let Some(Ok(next)) = first.value {
            lemma_declare_types(first.world, ctx, items, next, i + 1);
            let after = declare_types_run(world, ctx, items, surface, i);
            if after.value is Some && after.value->0 is Ok {
                let last = after.value->0->Ok_0;
                assert forall|k: int| surface.items.len() <= k < last.items.len() implies (
                #[trigger] last.items[k]) is Type by {
                    if k < next.items.len() {
                        assert(last.items[k] == next.items[k]);
                    }
                }
            }
        }
    } else {
        assert(items.take(i) =~= items);
    }
}

proof fn lemma_declare_members(
    world: World,
    ctx: ContextView,
    items: Seq<TraitItem>,
    surface: SurfaceView,
    i: int,
)
    requires
        0 <= i <= items.len(),
    ensures
        ({
            let after = declare_members_run(world, ctx, items, surface, i);
            after.value is Some && after.value->0 is Ok ==> {
                let last = after.value->0->Ok_0;
                &&& tallies(world, surface, after.world, last)
                &&& last.items.len() == surface.items.len() + members_in(items) - members_in(
                    items.take(i),
                )
                &&& members_from(last.items, surface.items.len() as int)
            }
        }),
    decreases items.len() - i,
{
    if i < items.len() {
        lemma_counts(items, i);
        let first = match items[i] {
            TraitItem::TraitFn(parsed) => declare_fn_run(world, ctx, parsed, surface),
            TraitItem::Constant(parsed) => declare_constant_run(world, ctx, parsed, surface),
            _ => done(world, Ok(surface)),
        };
        match items[i] {
            TraitItem::TraitFn(parsed) => {
                lemma_declare_fn(world, ctx, parsed, surface);
            },
            TraitItem::Constant(parsed) => {
                lemma_declare_constant(world, ctx, parsed, surface);
            },
            _ => {},
        }
        if let Some(Ok(next)) = first.value {
            lemma_declare_members(first.world, ctx, items, next, i + 1);
            let after = declare_members_run(world, ctx, items, surface, i);
            if after.value is Some && after.value->0 is Ok {
                let last = after.value->0->Ok_0;
                assert forall|k: int| surface.items.len() <= k < last.items.len() implies (
                #[trigger] last.items[k]) is TraitFn || last.items[k] is Constant by {
                    if k < next.items.len() {
                        assert(last.items[k] == next.items[k]);
                    }
                }
            }
        }
    } else {
        assert(items.take(i) =~= items);
    }
}

proof fn lemma_methods(
    world: World,
    ctx: ContextView,
    methods: Seq<FunctionDeclaration>,
    items: Seq<TyTraitItem>,
    i: int,
)
    requires
        0 <= i <= methods.len(),
        forall|k: int| 0 <= k < items.len() ==> (#[trigger] items[k]) is Fn,
    ensures
        ({
            let after = methods_run(world, ctx, methods, items, i);
            after.value is Some ==> {
                &&& after.value->0.len() == items.len() + methods.len() - i
                &&& forall|k: int|
                    0 <= k < after.value->0.len() ==> (#[trigger] after.value->0[k]) is Fn
            }
        }),
    decreases methods.len() - i,
{
    if i < methods.len() {
        let first = provide_method_run(world, ctx, methods[i]);
        if let Some(decl_ref) = first.value {
            lemma_methods(
                first.world,
                ctx,
                methods,
                items.push(TyTraitItem::Fn(decl_ref)),
                i + 1,
            );
        }
    }
}

/// Whether a checked trait keeps to its declaration: its name and its supertraits, in its
/// interface surface the associated types first and the signatures and constants behind them,
/// one for each that was parsed, and a provided function for each method.
pub open spec fn keeps_to(checked: TraitView, decl: TraitDeclaration) -> bool {
    let parsed = decl.interface_surface@;
    let types = types_in(parsed);
    &&& checked.name == decl.name
    &&& checked.supertraits == decl.supertraits@
    &&& checked.span == decl.span
    &&& checked.interface_surface.len() == types + members_in(parsed)
    &&& forall|k: int| 0 <= k < types ==> (#[trigger] checked.interface_surface[k]) is Type
    &&& members_from(checked.interface_surface, types as int)
    &&& checked.items.len() == decl.methods@.len()
    &&& forall|k: int| 0 <= k < checked.items.len() ==> (#[trigger] checked.items[k]) is Fn
}

proof fn lemma_trait_body(
    world: World,
    ctx: ContextView,
    decl: TraitDeclaration,
    type_parameters: Seq<TypeParameter>,
)
    ensures
        ({
            let after = trait_body_run(world, ctx, decl, type_parameters);
            after.value is Some && after.value->0 is Ok ==> keeps_to(after.value->0->Ok_0, decl)
        }),
{
    let parsed = decl.interface_surface@;
    assert(types_in(parsed.take(0)) == 0 && members_in(parsed.take(0)) == 0) by {
        reveal(Seq::filter);
    }
    let after = trait_body_run(world, ctx, decl, type_parameters);
    if after.value is Some && after.value->0 is Ok {
        lemma_declare_types(world, ctx, parsed, SurfaceView::empty(), 0);
        let types = declare_types_run(world, ctx, parsed, SurfaceView::empty(), 0);
        let first = types.value->0->Ok_0;
        let known = stand_in_run(
            types.world,
            ctx,
            decl,
            type_parameters,
            first.stand_ins,
            false,
        );
        let start = first.without_stand_ins();
        lemma_declare_members(known.world, ctx, parsed, start, 0);
        let members = declare_members_run(known.world, ctx, parsed, start, 0);
        let second = members.value->0->Ok_0;
        let known = stand_in_run(
            members.world,
            ctx,
            decl,
            type_parameters,
            second.stand_ins,
            true,
        );
        lemma_methods(known.world, ctx, decl.methods@, Seq::empty(), 0);
        assert forall|k: int| 0 <= k < types_in(parsed) implies (
        #[trigger] second.items[k]) is Type by {
            assert(second.items[k] == first.items[k]);
        }
    }
}

/// A trait that is accepted keeps to its declaration. Methods with errors are no exception.
pub proof fn law_accepted_trait(world: World, ctx: ContextView, decl: TraitDeclaration)
    requires
        trait_run(world, ctx, decl).value is Some,
        trait_run(world, ctx, decl).value->0 is Ok,
    ensures
        keeps_to(trait_run(world, ctx, decl).value->0->Ok_0, decl),
{
    assert forall|world: World, ctx: ContextView, type_parameters: Seq<TypeParameter>|
        ({
            let after = #[trigger] trait_body_run(world, ctx, decl, type_parameters);
            after.value is Some && after.value->0 is Ok ==> keeps_to(after.value->0->Ok_0, decl)
        }) by {
        lemma_trait_body(world, ctx, decl, type_parameters);
    }
}

/// While the interface surface of a trait is gone through, each item either brings a new name
/// or an error about a name that was declared before. So no such error comes up exactly if
/// all names are different.
pub proof fn law_repeated_names(
    world: World,
    ctx: ContextView,
    items: Seq<TraitItem>,
    surface: SurfaceView,
)
    requires
        distinct(surface),
    ensures
        ({
            let after = declare_types_run(world, ctx, items, surface, 0);
            after.value is Some && after.value->0 is Ok ==> tallies(
                world,
                surface,
                after.world,
                after.value->0->Ok_0,
            ) && distinct(after.value->0->Ok_0)
        }),
        ({
            let after = declare_members_run(world, ctx, items, surface, 0);
            after.value is Some && after.value->0 is Ok ==> tallies(
                world,
                surface,
                after.world,
                after.value->0->Ok_0,
            ) && distinct(after.value->0->Ok_0)
        }),
{
    lemma_declare_types(world, ctx, items, surface, 0);
    lemma_declare_members(world, ctx, items, surface, 0);
}

} // verus!
