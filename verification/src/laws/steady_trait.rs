//! The check of the declaration of a trait is steady.
use crate::decl::{
    ConstantDeclaration, FunctionDeclaration, TraitDeclaration, TraitFn, TraitItem,
    TraitTypeDeclaration, TyTraitItem,
};
use crate::laws::steady::{follows, group_steady, grown, steady, steady_result};
use crate::session::{ask, done, to_item, to_outcome, ContextView, QueryView, Reply, World};
use crate::trait_decl::{
    declare_constant_run, declare_fn_run, declare_members_run, declare_type_run, declare_types_run,
    finalize_run, finalized, insert_parameters_run, methods_run, provide_method_run, trait_body_run,
    trait_head_run, trait_run, SurfaceView,
};
use crate::types::TypeParameter;
use vstd::prelude::*;

verus! {

/// `insert_parameters_run` is steady.
pub broadcast proof fn steady_insert_parameters(
    world: World,
    extra: Seq<Reply>,
    ctx: ContextView,
    type_parameters: Seq<TypeParameter>,
    i: int,
)
    ensures
        steady_result(
            world,
            extra,
            insert_parameters_run(world, ctx, type_parameters, i),
            #[trigger] insert_parameters_run(grown(world, extra), ctx, type_parameters, i),
        ),
    decreases type_parameters.len() - i,
{
    broadcast use group_steady;

    if i < type_parameters.len() {
        let first = to_outcome(
            ask(world, QueryView::InsertTypeParameter { ctx, parameter: type_parameters[i] }),
        );
        if let Some(Ok(_)) = first.value {
            steady_insert_parameters(first.world, extra, ctx, type_parameters, i + 1);
        }
        let other = to_outcome(
            ask(
                grown(world, extra),
                QueryView::InsertTypeParameter { ctx, parameter: type_parameters[i] },
            ),
        );
        if let Some(Ok(_)) = other.value {
            steady_insert_parameters(other.world, Seq::empty(), ctx, type_parameters, i + 1);
        }
    }
}

/// `insert_parameters_run` comes after.
pub broadcast proof fn follows_insert_parameters(
    world: World,
    ctx: ContextView,
    type_parameters: Seq<TypeParameter>,
    i: int,
)
    ensures
        follows(world, #[trigger] insert_parameters_run(world, ctx, type_parameters, i)),
{
    steady_insert_parameters(world, Seq::empty(), ctx, type_parameters, i);
}

/// `declare_type_run` is steady.
pub broadcast proof fn steady_declare_type(
    world: World,
    extra: Seq<Reply>,
    ctx: ContextView,
    parsed: TraitTypeDeclaration,
    surface: SurfaceView,
)
    ensures
        steady_result(
            world,
            extra,
            declare_type_run(world, ctx, parsed, surface),
            #[trigger] declare_type_run(grown(world, extra), ctx, parsed, surface),
        ),
{
    broadcast use group_steady;
}

/// `declare_type_run` comes after.
pub broadcast proof fn follows_declare_type(
    world: World,
    ctx: ContextView,
    parsed: TraitTypeDeclaration,
    surface: SurfaceView,
)
    ensures
        follows(world, #[trigger] declare_type_run(world, ctx, parsed, surface)),
{
    steady_declare_type(world, Seq::empty(), ctx, parsed, surface);
}

/// `declare_fn_run` is steady.
pub broadcast proof fn steady_declare_fn(
    world: World,
    extra: Seq<Reply>,
    ctx: ContextView,
    parsed: TraitFn,
    surface: SurfaceView,
)
    ensures
        steady_result(
            world,
            extra,
            declare_fn_run(world, ctx, parsed, surface),
            #[trigger] declare_fn_run(grown(world, extra), ctx, parsed, surface),
        ),
{
    broadcast use group_steady;
}

/// `declare_fn_run` comes after.
pub broadcast proof fn follows_declare_fn(
    world: World,
    ctx: ContextView,
    parsed: TraitFn,
    surface: SurfaceView,
)
    ensures
        follows(world, #[trigger] declare_fn_run(world, ctx, parsed, surface)),
{
    steady_declare_fn(world, Seq::empty(), ctx, parsed, surface);
}

/// `declare_constant_run` is steady.
pub broadcast proof fn steady_declare_constant(
    world: World,
    extra: Seq<Reply>,
    ctx: ContextView,
    parsed: ConstantDeclaration,
    surface: SurfaceView,
)
    ensures
        steady_result(
            world,
            extra,
            declare_constant_run(world, ctx, parsed, surface),
            #[trigger] declare_constant_run(grown(world, extra), ctx, parsed, surface),
        ),
{
    broadcast use group_steady;
}

/// `declare_constant_run` comes after.
pub broadcast proof fn follows_declare_constant(
    world: World,
    ctx: ContextView,
    parsed: ConstantDeclaration,
    surface: SurfaceView,
)
    ensures
        follows(world, #[trigger] declare_constant_run(world, ctx, parsed, surface)),
{
    steady_declare_constant(world, Seq::empty(), ctx, parsed, surface);
}

/// `declare_types_run` is steady.
pub broadcast proof fn steady_declare_types(
    world: World,
    extra: Seq<Reply>,
    ctx: ContextView,
    items: Seq<TraitItem>,
    surface: SurfaceView,
    i: int,
)
    ensures
        steady_result(
            world,
            extra,
            declare_types_run(world, ctx, items, surface, i),
            #[trigger] declare_types_run(grown(world, extra), ctx, items, surface, i),
        ),
    decreases items.len() - i,
{
    broadcast use {group_steady, steady_declare_type, follows_declare_type};

    if i < items.len() {
        let first = match items[i] {
            TraitItem::Type(parsed) => declare_type_run(world, ctx, parsed, surface),
            _ => done(world, Ok(surface)),
        };
        if let Some(Ok(surface)) = first.value {
            steady_declare_types(first.world, extra, ctx, items, surface, i + 1);
        }
        let other = match items[i] {
            TraitItem::Type(parsed) => declare_type_run(grown(world, extra), ctx, parsed, surface),
            _ => done(grown(world, extra), Ok(surface)),
        };
        if let Some(Ok(surface)) = other.value {
            steady_declare_types(other.world, Seq::empty(), ctx, items, surface, i + 1);
        }
    }
}

/// `declare_types_run` comes after.
pub broadcast proof fn follows_declare_types(
    world: World,
    ctx: ContextView,
    items: Seq<TraitItem>,
    surface: SurfaceView,
    i: int,
)
    ensures
        follows(world, #[trigger] declare_types_run(world, ctx, items, surface, i)),
{
    steady_declare_types(world, Seq::empty(), ctx, items, surface, i);
}

/// `declare_members_run` is steady.
pub broadcast proof fn steady_declare_members(
    world: World,
    extra: Seq<Reply>,
    ctx: ContextView,
    items: Seq<TraitItem>,
    surface: SurfaceView,
    i: int,
)
    ensures
        steady_result(
            world,
            extra,
            declare_members_run(world, ctx, items, surface, i),
            #[trigger] declare_members_run(grown(world, extra), ctx, items, surface, i),
        ),
    decreases items.len() - i,
{
    broadcast use {
        group_steady,
        steady_declare_fn,
        steady_declare_constant,
        follows_declare_fn,
        follows_declare_constant,
    };

    if i < items.len() {
        let first = match items[i] {
            TraitItem::TraitFn(parsed) => declare_fn_run(world, ctx, parsed, surface),
            TraitItem::Constant(parsed) => declare_constant_run(world, ctx, parsed, surface),
            _ => done(world, Ok(surface)),
        };
        if let Some(Ok(surface)) = first.value {
            steady_declare_members(first.world, extra, ctx, items, surface, i + 1);
        }
        let other = match items[i] {
            TraitItem::TraitFn(parsed) => declare_fn_run(grown(world, extra), ctx, parsed, surface),
            TraitItem::Constant(parsed) => declare_constant_run(
                grown(world, extra),
                ctx,
                parsed,
                surface,
            ),
            _ => done(grown(world, extra), Ok(surface)),
        };
        if let Some(Ok(surface)) = other.value {
            steady_declare_members(other.world, Seq::empty(), ctx, items, surface, i + 1);
        }
    }
}

/// `declare_members_run` comes after.
pub broadcast proof fn follows_declare_members(
    world: World,
    ctx: ContextView,
    items: Seq<TraitItem>,
    surface: SurfaceView,
    i: int,
)
    ensures
        follows(world, #[trigger] declare_members_run(world, ctx, items, surface, i)),
{
    steady_declare_members(world, Seq::empty(), ctx, items, surface, i);
}

/// `provide_method_run` is steady.
pub broadcast proof fn steady_provide_method(
    world: World,
    extra: Seq<Reply>,
    ctx: ContextView,
    parsed: FunctionDeclaration,
)
    ensures
        steady(
            world,
            extra,
            provide_method_run(world, ctx, parsed),
            #[trigger] provide_method_run(grown(world, extra), ctx, parsed),
        ),
{
    broadcast use group_steady;
}

/// `provide_method_run` comes after.
pub broadcast proof fn follows_provide_method(
    world: World,
    ctx: ContextView,
    parsed: FunctionDeclaration,
)
    ensures
        follows(world, #[trigger] provide_method_run(world, ctx, parsed)),
{
    steady_provide_method(world, Seq::empty(), ctx, parsed);
}

/// `methods_run` is steady.
pub broadcast proof fn steady_methods(
    world: World,
    extra: Seq<Reply>,
    ctx: ContextView,
    methods: Seq<FunctionDeclaration>,
    items: Seq<TyTraitItem>,
    i: int,
)
    ensures
        steady(
            world,
            extra,
            methods_run(world, ctx, methods, items, i),
            #[trigger] methods_run(grown(world, extra), ctx, methods, items, i),
        ),
    decreases methods.len() - i,
{
    broadcast use {group_steady, steady_provide_method, follows_provide_method};

    if i < methods.len() {
        let first = provide_method_run(world, ctx, methods[i]);
        if let Some(decl_ref) = first.value {
            steady_methods(
                first.world,
                extra,
                ctx,
                methods,
                items.push(TyTraitItem::Fn(decl_ref)),
                i + 1,
            );
        }
        let other = provide_method_run(grown(world, extra), ctx, methods[i]);
        if let Some(decl_ref) = other.value {
            steady_methods(
                other.world,
                Seq::empty(),
                ctx,
                methods,
                items.push(TyTraitItem::Fn(decl_ref)),
                i + 1,
            );
        }
    }
}

/// `methods_run` comes after.
pub broadcast proof fn follows_methods(
    world: World,
    ctx: ContextView,
    methods: Seq<FunctionDeclaration>,
    items: Seq<TyTraitItem>,
    i: int,
)
    ensures
        follows(world, #[trigger] methods_run(world, ctx, methods, items, i)),
{
    steady_methods(world, Seq::empty(), ctx, methods, items, i);
}

/// `trait_body_run` is steady.
pub broadcast proof fn steady_trait_body(
    world: World,
    extra: Seq<Reply>,
    ctx: ContextView,
    decl: TraitDeclaration,
    type_parameters: Seq<TypeParameter>,
)
    ensures
        steady_result(
            world,
            extra,
            trait_body_run(world, ctx, decl, type_parameters),
            #[trigger] trait_body_run(grown(world, extra), ctx, decl, type_parameters),
        ),
{
    broadcast use {
        group_steady,
        steady_declare_types,
        steady_declare_members,
        steady_methods,
        follows_declare_types,
        follows_declare_members,
        follows_methods,
    };
}

/// `trait_body_run` comes after.
pub broadcast proof fn follows_trait_body(
    world: World,
    ctx: ContextView,
    decl: TraitDeclaration,
    type_parameters: Seq<TypeParameter>,
)
    ensures
        follows(world, #[trigger] trait_body_run(world, ctx, decl, type_parameters)),
{
    steady_trait_body(world, Seq::empty(), ctx, decl, type_parameters);
}

/// `trait_head_run` is steady.
pub broadcast proof fn steady_trait_head(
    world: World,
    extra: Seq<Reply>,
    ctx: ContextView,
    decl: TraitDeclaration,
)
    ensures
        steady_result(
            world,
            extra,
            trait_head_run(world, ctx, decl),
            #[trigger] trait_head_run(grown(world, extra), ctx, decl),
        ),
{
    broadcast use {
        group_steady,
        steady_insert_parameters,
        steady_trait_body,
        follows_insert_parameters,
        follows_trait_body,
    };
}

/// `trait_head_run` comes after.
pub broadcast proof fn follows_trait_head(world: World, ctx: ContextView, decl: TraitDeclaration)
    ensures
        follows(world, #[trigger] trait_head_run(world, ctx, decl)),
{
    steady_trait_head(world, Seq::empty(), ctx, decl);
}

/// Checking the declaration of a trait is steady.
pub broadcast proof fn steady_trait(
    world: World,
    extra: Seq<Reply>,
    ctx: ContextView,
    decl: TraitDeclaration,
)
    ensures
        steady_result(
            world,
            extra,
            trait_run(world, ctx, decl),
            #[trigger] trait_run(grown(world, extra), ctx, decl),
        ),
{
    broadcast use {group_steady, steady_trait_head, follows_trait_head};
}

/// `trait_run` comes after.
pub broadcast proof fn follows_trait(world: World, ctx: ContextView, decl: TraitDeclaration)
    ensures
        follows(world, #[trigger] trait_run(world, ctx, decl)),
{
    steady_trait(world, Seq::empty(), ctx, decl);
}

/// `finalize_run` is steady.
pub broadcast proof fn steady_finalize(
    world: World,
    extra: Seq<Reply>,
    ctx: ContextView,
    items: Seq<TyTraitItem>,
    finished: Seq<TyTraitItem>,
    i: int,
)
    ensures
        steady(
            world,
            extra,
            finalize_run(world, ctx, items, finished, i),
            #[trigger] finalize_run(grown(world, extra), ctx, items, finished, i),
        ),
    decreases items.len() - i,
{
    broadcast use group_steady;

    if i < items.len() {
        let first = to_item(ask(world, QueryView::FinalizeItem { ctx, item: items[i] }));
        if let Some(item) = first.value {
            steady_finalize(first.world, extra, ctx, items, finished.push(item), i + 1);
        }
        let other = to_item(
            ask(grown(world, extra), QueryView::FinalizeItem { ctx, item: items[i] }),
        );
        if let Some(item) = other.value {
            steady_finalize(other.world, Seq::empty(), ctx, items, finished.push(item), i + 1);
        }
    }
}

/// `finalize_run` comes after.
pub broadcast proof fn follows_finalize(
    world: World,
    ctx: ContextView,
    items: Seq<TyTraitItem>,
    finished: Seq<TyTraitItem>,
    i: int,
)
    ensures
        follows(world, #[trigger] finalize_run(world, ctx, items, finished, i)),
{
    steady_finalize(world, Seq::empty(), ctx, items, finished, i);
}

/// Finishing the items of a trait or an impl block is steady.
pub broadcast proof fn steady_finalized(
    world: World,
    extra: Seq<Reply>,
    ctx: ContextView,
    items: Seq<TyTraitItem>,
)
    ensures
        steady(
            world,
            extra,
            finalized(world, ctx, items),
            #[trigger] finalized(grown(world, extra), ctx, items),
        ),
{
    broadcast use {group_steady, steady_finalize, follows_finalize};
}

/// `finalized` comes after.
pub broadcast proof fn follows_finalized(world: World, ctx: ContextView, items: Seq<TyTraitItem>)
    ensures
        follows(world, #[trigger] finalized(world, ctx, items)),
{
    steady_finalized(world, Seq::empty(), ctx, items);
}

} // verus!
