//! The check of an implementation against its interface is steady.
use crate::decl::{
    CallPath, ConstantDeclaration, FunctionDeclaration, ImplItem, TraitTypeDeclaration,
    TyTraitInterfaceItem, TyTraitItem, TyTraitType,
};
use crate::implementation::{
    bounds_run, checklist_run, complete_run, fit_constant_run, fit_function_run, fit_item_run,
    fit_items_run, impl_constant_run, impl_members_run, impl_method_run, impl_type_run,
    impl_types_run, implementation_run, keep_type_run, known_supertraits_run, surface_item_run,
    surface_run, ChecklistView, Fitting, Implementation,
};
use crate::laws::steady::{follows, group_steady, grown, steady, steady_result};
use crate::laws::steady_items::{
    follows_const_decl, follows_method, follows_type_decl, steady_const_decl, steady_method,
    steady_type_decl,
};
use crate::laws::steady_surface::{follows_copy_type, steady_copy_type, steady_supertraits};
use crate::session::{ask, done, to_outcome, ContextView, QueryView, Reply, World};
use crate::supertraits::SupertraitItems;
use crate::types::{TypeArgument, TypeId, TypeParameter};
use vstd::prelude::*;

verus! {

/// `surface_item_run` is steady.
pub broadcast proof fn steady_surface_item(
    world: World,
    extra: Seq<Reply>,
    item: TyTraitInterfaceItem,
    self_type: TypeId,
    checklist: ChecklistView,
)
    ensures
        steady(
            world,
            extra,
            surface_item_run(world, item, self_type, checklist),
            #[trigger] surface_item_run(grown(world, extra), item, self_type, checklist),
        ),
{
    broadcast use group_steady;
}

/// `surface_item_run` comes after.
pub broadcast proof fn follows_surface_item(
    world: World,
    item: TyTraitInterfaceItem,
    self_type: TypeId,
    checklist: ChecklistView,
)
    ensures
        follows(world, #[trigger] surface_item_run(world, item, self_type, checklist)),
{
    steady_surface_item(world, Seq::empty(), item, self_type, checklist);
}

/// `surface_run` is steady.
pub broadcast proof fn steady_surface(
    world: World,
    extra: Seq<Reply>,
    interface_surface: Seq<TyTraitInterfaceItem>,
    self_type: TypeId,
    checklist: ChecklistView,
    i: int,
)
    ensures
        steady(
            world,
            extra,
            surface_run(world, interface_surface, self_type, checklist, i),
            #[trigger] surface_run(grown(world, extra), interface_surface, self_type, checklist, i),
        ),
    decreases interface_surface.len() - i,
{
    broadcast use {group_steady, steady_surface_item, follows_surface_item};

    if i < interface_surface.len() {
        let first = surface_item_run(world, interface_surface[i], self_type, checklist);
        if let Some(checklist) = first.value {
            steady_surface(first.world, extra, interface_surface, self_type, checklist, i + 1);
        }
        let other = surface_item_run(
            grown(world, extra),
            interface_surface[i],
            self_type,
            checklist,
        );
        if let Some(checklist) = other.value {
            steady_surface(
                other.world,
                Seq::empty(),
                interface_surface,
                self_type,
                checklist,
                i + 1,
            );
        }
    }
}

/// `surface_run` comes after.
pub broadcast proof fn follows_surface(
    world: World,
    interface_surface: Seq<TyTraitInterfaceItem>,
    self_type: TypeId,
    checklist: ChecklistView,
    i: int,
)
    ensures
        follows(world, #[trigger] surface_run(world, interface_surface, self_type, checklist, i)),
{
    steady_surface(world, Seq::empty(), interface_surface, self_type, checklist, i);
}

/// `keep_type_run` is steady.
pub broadcast proof fn steady_keep_type(
    world: World,
    extra: Seq<Reply>,
    ctx: ContextView,
    decl: TyTraitType,
    checklist: ChecklistView,
)
    ensures
        steady(
            world,
            extra,
            keep_type_run(world, ctx, decl, checklist),
            #[trigger] keep_type_run(grown(world, extra), ctx, decl, checklist),
        ),
{
    broadcast use group_steady;
}

/// `keep_type_run` comes after.
pub broadcast proof fn follows_keep_type(
    world: World,
    ctx: ContextView,
    decl: TyTraitType,
    checklist: ChecklistView,
)
    ensures
        follows(world, #[trigger] keep_type_run(world, ctx, decl, checklist)),
{
    steady_keep_type(world, Seq::empty(), ctx, decl, checklist);
}

/// `impl_type_run` is steady.
pub broadcast proof fn steady_impl_type(
    world: World,
    extra: Seq<Reply>,
    ctx: ContextView,
    parsed: TraitTypeDeclaration,
    trait_name: CallPath,
    is_contract: bool,
    checklist: ChecklistView,
)
    ensures
        steady(
            world,
            extra,
            impl_type_run(world, ctx, parsed, trait_name, is_contract, checklist),
            #[trigger] impl_type_run(
                grown(world, extra),
                ctx,
                parsed,
                trait_name,
                is_contract,
                checklist,
            ),
        ),
{
    broadcast use {
        group_steady,
        steady_type_decl,
        steady_keep_type,
        follows_type_decl,
        follows_keep_type,
    };

    reveal(impl_type_run);
}

/// `impl_type_run` comes after.
pub broadcast proof fn follows_impl_type(
    world: World,
    ctx: ContextView,
    parsed: TraitTypeDeclaration,
    trait_name: CallPath,
    is_contract: bool,
    checklist: ChecklistView,
)
    ensures
        follows(
            world,
            #[trigger] impl_type_run(world, ctx, parsed, trait_name, is_contract, checklist),
        ),
{
    steady_impl_type(world, Seq::empty(), ctx, parsed, trait_name, is_contract, checklist);
}

/// `impl_types_run` is steady.
pub broadcast proof fn steady_impl_types(
    world: World,
    extra: Seq<Reply>,
    ctx: ContextView,
    impl_items: Seq<ImplItem>,
    trait_name: CallPath,
    is_contract: bool,
    checklist: ChecklistView,
    i: int,
)
    ensures
        steady(
            world,
            extra,
            impl_types_run(world, ctx, impl_items, trait_name, is_contract, checklist, i),
            #[trigger] impl_types_run(
                grown(world, extra),
                ctx,
                impl_items,
                trait_name,
                is_contract,
                checklist,
                i,
            ),
        ),
    decreases impl_items.len() - i,
{
    broadcast use {group_steady, steady_impl_type, follows_impl_type};

    if i < impl_items.len() {
        let first = match impl_items[i] {
            ImplItem::Type(parsed) => impl_type_run(
                world,
                ctx,
                parsed,
                trait_name,
                is_contract,
                checklist,
            ),
            _ => done(world, checklist),
        };
        if let Some(checklist) = first.value {
            steady_impl_types(
                first.world,
                extra,
                ctx,
                impl_items,
                trait_name,
                is_contract,
                checklist,
                i + 1,
            );
        }
        let other = match impl_items[i] {
            ImplItem::Type(parsed) => impl_type_run(
                grown(world, extra),
                ctx,
                parsed,
                trait_name,
                is_contract,
                checklist,
            ),
            _ => done(grown(world, extra), checklist),
        };
        if let Some(checklist) = other.value {
            steady_impl_types(
                other.world,
                Seq::empty(),
                ctx,
                impl_items,
                trait_name,
                is_contract,
                checklist,
                i + 1,
            );
        }
    }
}

/// `impl_types_run` comes after.
pub broadcast proof fn follows_impl_types(
    world: World,
    ctx: ContextView,
    impl_items: Seq<ImplItem>,
    trait_name: CallPath,
    is_contract: bool,
    checklist: ChecklistView,
    i: int,
)
    ensures
        follows(
            world,
            #[trigger] impl_types_run(
                world,
                ctx,
                impl_items,
                trait_name,
                is_contract,
                checklist,
                i,
            ),
        ),
{
    steady_impl_types(world, Seq::empty(), ctx, impl_items, trait_name, is_contract, checklist, i);
}

/// `impl_method_run` is steady.
#[verifier::rlimit(40)]
pub broadcast proof fn steady_impl_method(
    world: World,
    extra: Seq<Reply>,
    ctx: ContextView,
    impl_type_parameters: Seq<TypeParameter>,
    parsed: FunctionDeclaration,
    trait_name: CallPath,
    is_contract: bool,
    checklist: ChecklistView,
)
    ensures
        steady(
            world,
            extra,
            impl_method_run(
                world,
                ctx,
                impl_type_parameters,
                parsed,
                trait_name,
                is_contract,
                checklist,
            ),
            #[trigger] impl_method_run(
                grown(world, extra),
                ctx,
                impl_type_parameters,
                parsed,
                trait_name,
                is_contract,
                checklist,
            ),
        ),
{
    broadcast use {group_steady, steady_method, follows_method};

    reveal(impl_method_run);
}

/// `impl_method_run` comes after.
pub broadcast proof fn follows_impl_method(
    world: World,
    ctx: ContextView,
    impl_type_parameters: Seq<TypeParameter>,
    parsed: FunctionDeclaration,
    trait_name: CallPath,
    is_contract: bool,
    checklist: ChecklistView,
)
    ensures
        follows(
            world,
            #[trigger] impl_method_run(
                world,
                ctx,
                impl_type_parameters,
                parsed,
                trait_name,
                is_contract,
                checklist,
            ),
        ),
{
    steady_impl_method(
        world,
        Seq::empty(),
        ctx,
        impl_type_parameters,
        parsed,
        trait_name,
        is_contract,
        checklist,
    );
}

/// `impl_constant_run` is steady.
#[verifier::rlimit(40)]
pub broadcast proof fn steady_impl_constant(
    world: World,
    extra: Seq<Reply>,
    ctx: ContextView,
    parsed: ConstantDeclaration,
    trait_name: CallPath,
    is_contract: bool,
    checklist: ChecklistView,
)
    ensures
        steady(
            world,
            extra,
            impl_constant_run(world, ctx, parsed, trait_name, is_contract, checklist),
            #[trigger] impl_constant_run(
                grown(world, extra),
                ctx,
                parsed,
                trait_name,
                is_contract,
                checklist,
            ),
        ),
{
    broadcast use {group_steady, steady_const_decl, follows_const_decl};

    reveal(impl_constant_run);
}

/// `impl_constant_run` comes after.
pub broadcast proof fn follows_impl_constant(
    world: World,
    ctx: ContextView,
    parsed: ConstantDeclaration,
    trait_name: CallPath,
    is_contract: bool,
    checklist: ChecklistView,
)
    ensures
        follows(
            world,
            #[trigger] impl_constant_run(world, ctx, parsed, trait_name, is_contract, checklist),
        ),
{
    steady_impl_constant(world, Seq::empty(), ctx, parsed, trait_name, is_contract, checklist);
}

/// `impl_members_run` is steady.
pub broadcast proof fn steady_impl_members(
    world: World,
    extra: Seq<Reply>,
    ctx: ContextView,
    impl_type_parameters: Seq<TypeParameter>,
    impl_items: Seq<ImplItem>,
    trait_name: CallPath,
    is_contract: bool,
    checklist: ChecklistView,
    i: int,
)
    ensures
        steady(
            world,
            extra,
            impl_members_run(
                world,
                ctx,
                impl_type_parameters,
                impl_items,
                trait_name,
                is_contract,
                checklist,
                i,
            ),
            #[trigger] impl_members_run(
                grown(world, extra),
                ctx,
                impl_type_parameters,
                impl_items,
                trait_name,
                is_contract,
                checklist,
                i,
            ),
        ),
    decreases impl_items.len() - i,
{
    broadcast use {
        group_steady,
        steady_impl_method,
        steady_impl_constant,
        follows_impl_method,
        follows_impl_constant,
    };

    if i < impl_items.len() {
        let first = match impl_items[i] {
            ImplItem::Fn(parsed) => impl_method_run(
                world,
                ctx,
                impl_type_parameters,
                parsed,
                trait_name,
                is_contract,
                checklist,
            ),
            ImplItem::Constant(parsed) => impl_constant_run(
                world,
                ctx,
                parsed,
                trait_name,
                is_contract,
                checklist,
            ),
            ImplItem::Type(_) => done(world, checklist),
        };
        if let Some(checklist) = first.value {
            steady_impl_members(
                first.world,
                extra,
                ctx,
                impl_type_parameters,
                impl_items,
                trait_name,
                is_contract,
                checklist,
                i + 1,
            );
        }
        let other = match impl_items[i] {
            ImplItem::Fn(parsed) => impl_method_run(
                grown(world, extra),
                ctx,
                impl_type_parameters,
                parsed,
                trait_name,
                is_contract,
                checklist,
            ),
            ImplItem::Constant(parsed) => impl_constant_run(
                grown(world, extra),
                ctx,
                parsed,
                trait_name,
                is_contract,
                checklist,
            ),
            ImplItem::Type(_) => done(grown(world, extra), checklist),
        };
        if let Some(checklist) = other.value {
            steady_impl_members(
                other.world,
                Seq::empty(),
                ctx,
                impl_type_parameters,
                impl_items,
                trait_name,
                is_contract,
                checklist,
                i + 1,
            );
        }
    }
}

/// `impl_members_run` comes after.
pub broadcast proof fn follows_impl_members(
    world: World,
    ctx: ContextView,
    impl_type_parameters: Seq<TypeParameter>,
    impl_items: Seq<ImplItem>,
    trait_name: CallPath,
    is_contract: bool,
    checklist: ChecklistView,
    i: int,
)
    ensures
        follows(
            world,
            #[trigger] impl_members_run(
                world,
                ctx,
                impl_type_parameters,
                impl_items,
                trait_name,
                is_contract,
                checklist,
                i,
            ),
        ),
{
    steady_impl_members(
        world,
        Seq::empty(),
        ctx,
        impl_type_parameters,
        impl_items,
        trait_name,
        is_contract,
        checklist,
        i,
    );
}

/// `checklist_run` is steady.
pub broadcast proof fn steady_checklist(
    world: World,
    extra: Seq<Reply>,
    ctx: ContextView,
    of: Implementation,
)
    ensures
        steady(
            world,
            extra,
            checklist_run(world, ctx, of),
            #[trigger] checklist_run(grown(world, extra), ctx, of),
        ),
{
    broadcast use {
        group_steady,
        steady_surface,
        steady_impl_types,
        steady_impl_members,
        follows_surface,
        follows_impl_types,
        follows_impl_members,
    };
}

/// `checklist_run` comes after.
pub broadcast proof fn follows_checklist(world: World, ctx: ContextView, of: Implementation)
    ensures
        follows(world, #[trigger] checklist_run(world, ctx, of)),
{
    steady_checklist(world, Seq::empty(), ctx, of);
}

/// `fit_function_run` is steady.
#[verifier::rlimit(40)]
pub broadcast proof fn steady_fit_function(
    world: World,
    extra: Seq<Reply>,
    ctx: ContextView,
    id: u64,
    fitting: Fitting,
)
    ensures
        steady_result(
            world,
            extra,
            fit_function_run(world, ctx, id, fitting),
            #[trigger] fit_function_run(grown(world, extra), ctx, id, fitting),
        ),
{
    broadcast use group_steady;
}

/// `fit_function_run` comes after.
pub broadcast proof fn follows_fit_function(
    world: World,
    ctx: ContextView,
    id: u64,
    fitting: Fitting,
)
    ensures
        follows(world, #[trigger] fit_function_run(world, ctx, id, fitting)),
{
    steady_fit_function(world, Seq::empty(), ctx, id, fitting);
}

/// `fit_constant_run` is steady.
#[verifier::rlimit(40)]
pub broadcast proof fn steady_fit_constant(
    world: World,
    extra: Seq<Reply>,
    ctx: ContextView,
    id: u64,
    fitting: Fitting,
)
    ensures
        steady_result(
            world,
            extra,
            fit_constant_run(world, ctx, id, fitting),
            #[trigger] fit_constant_run(grown(world, extra), ctx, id, fitting),
        ),
{
    broadcast use group_steady;
}

/// `fit_constant_run` comes after.
pub broadcast proof fn follows_fit_constant(
    world: World,
    ctx: ContextView,
    id: u64,
    fitting: Fitting,
)
    ensures
        follows(world, #[trigger] fit_constant_run(world, ctx, id, fitting)),
{
    steady_fit_constant(world, Seq::empty(), ctx, id, fitting);
}

/// `fit_item_run` is steady.
pub broadcast proof fn steady_fit_item(
    world: World,
    extra: Seq<Reply>,
    ctx: ContextView,
    item: TyTraitItem,
    fitting: Fitting,
)
    ensures
        steady_result(
            world,
            extra,
            fit_item_run(world, ctx, item, fitting),
            #[trigger] fit_item_run(grown(world, extra), ctx, item, fitting),
        ),
{
    broadcast use {
        group_steady,
        steady_fit_function,
        steady_fit_constant,
        steady_copy_type,
        follows_fit_function,
        follows_fit_constant,
        follows_copy_type,
    };

    reveal(fit_item_run);
}

/// `fit_item_run` comes after.
pub broadcast proof fn follows_fit_item(
    world: World,
    ctx: ContextView,
    item: TyTraitItem,
    fitting: Fitting,
)
    ensures
        follows(world, #[trigger] fit_item_run(world, ctx, item, fitting)),
{
    steady_fit_item(world, Seq::empty(), ctx, item, fitting);
}

/// `fit_items_run` is steady.
pub broadcast proof fn steady_fit_items(
    world: World,
    extra: Seq<Reply>,
    ctx: ContextView,
    trait_items: Seq<TyTraitItem>,
    fitting: Fitting,
    all_items: Seq<TyTraitItem>,
    i: int,
)
    ensures
        steady_result(
            world,
            extra,
            fit_items_run(world, ctx, trait_items, fitting, all_items, i),
            #[trigger] fit_items_run(grown(world, extra), ctx, trait_items, fitting, all_items, i),
        ),
    decreases trait_items.len() - i,
{
    broadcast use {group_steady, steady_fit_item, follows_fit_item};

    if i < trait_items.len() {
        let first = fit_item_run(world, ctx, trait_items[i], fitting);
        if let Some(Ok(item)) = first.value {
            steady_fit_items(
                first.world,
                extra,
                ctx,
                trait_items,
                fitting,
                all_items.push(item),
                i + 1,
            );
        }
        let other = fit_item_run(grown(world, extra), ctx, trait_items[i], fitting);
        if let Some(Ok(item)) = other.value {
            steady_fit_items(
                other.world,
                Seq::empty(),
                ctx,
                trait_items,
                fitting,
                all_items.push(item),
                i + 1,
            );
        }
    }
}

/// `fit_items_run` comes after.
pub broadcast proof fn follows_fit_items(
    world: World,
    ctx: ContextView,
    trait_items: Seq<TyTraitItem>,
    fitting: Fitting,
    all_items: Seq<TyTraitItem>,
    i: int,
)
    ensures
        follows(world, #[trigger] fit_items_run(world, ctx, trait_items, fitting, all_items, i)),
{
    steady_fit_items(world, Seq::empty(), ctx, trait_items, fitting, all_items, i);
}

/// `bounds_run` is steady.
pub broadcast proof fn steady_bounds(
    world: World,
    extra: Seq<Reply>,
    ctx: ContextView,
    type_arguments: Seq<TypeArgument>,
    type_parameters: Seq<TypeParameter>,
    i: int,
)
    ensures
        steady_result(
            world,
            extra,
            bounds_run(world, ctx, type_arguments, type_parameters, i),
            #[trigger] bounds_run(grown(world, extra), ctx, type_arguments, type_parameters, i),
        ),
    decreases type_arguments.len() - i,
{
    broadcast use group_steady;

    if i < type_arguments.len() && i < type_parameters.len() {
        let first = to_outcome(
            ask(
                world,
                QueryView::CheckTypeParameterBounds {
                    ctx,
                    type_id: type_arguments[i].type_id,
                    span: type_arguments[i].span,
                    constraints_of: Some(type_parameters[i]),
                },
            ),
        );
        if let Some(Ok(_)) = first.value {
            steady_bounds(first.world, extra, ctx, type_arguments, type_parameters, i + 1);
        }
        let other = to_outcome(
            ask(
                grown(world, extra),
                QueryView::CheckTypeParameterBounds {
                    ctx,
                    type_id: type_arguments[i].type_id,
                    span: type_arguments[i].span,
                    constraints_of: Some(type_parameters[i]),
                },
            ),
        );
        if let Some(Ok(_)) = other.value {
            steady_bounds(other.world, Seq::empty(), ctx, type_arguments, type_parameters, i + 1);
        }
    }
}

/// `bounds_run` comes after.
pub broadcast proof fn follows_bounds(
    world: World,
    ctx: ContextView,
    type_arguments: Seq<TypeArgument>,
    type_parameters: Seq<TypeParameter>,
    i: int,
)
    ensures
        follows(world, #[trigger] bounds_run(world, ctx, type_arguments, type_parameters, i)),
{
    steady_bounds(world, Seq::empty(), ctx, type_arguments, type_parameters, i);
}

/// `known_supertraits_run` is steady.
pub broadcast proof fn steady_known_supertraits(
    world: World,
    extra: Seq<Reply>,
    ctx: ContextView,
    of: Implementation,
)
    ensures
        steady_result(
            world,
            extra,
            known_supertraits_run(world, ctx, of),
            #[trigger] known_supertraits_run(grown(world, extra), ctx, of),
        ),
{
    broadcast use group_steady;

    steady_supertraits(world, extra, ctx, of.trait_supertraits);
}

/// `known_supertraits_run` comes after.
pub broadcast proof fn follows_known_supertraits(world: World, ctx: ContextView, of: Implementation)
    ensures
        follows(world, #[trigger] known_supertraits_run(world, ctx, of)),
{
    steady_known_supertraits(world, Seq::empty(), ctx, of);
}

/// `complete_run` is steady.
pub broadcast proof fn steady_complete(
    world: World,
    extra: Seq<Reply>,
    ctx: ContextView,
    of: Implementation,
    checklist: ChecklistView,
    inherited: SupertraitItems,
)
    ensures
        steady_result(
            world,
            extra,
            complete_run(world, ctx, of, checklist, inherited),
            #[trigger] complete_run(grown(world, extra), ctx, of, checklist, inherited),
        ),
{
    broadcast use {group_steady, steady_fit_items, follows_fit_items};
}

/// `complete_run` comes after.
pub broadcast proof fn follows_complete(
    world: World,
    ctx: ContextView,
    of: Implementation,
    checklist: ChecklistView,
    inherited: SupertraitItems,
)
    ensures
        follows(world, #[trigger] complete_run(world, ctx, of, checklist, inherited)),
{
    steady_complete(world, Seq::empty(), ctx, of, checklist, inherited);
}

/// `implementation_run` is steady.
pub broadcast proof fn steady_implementation(
    world: World,
    extra: Seq<Reply>,
    ctx: ContextView,
    of: Implementation,
)
    ensures
        steady_result(
            world,
            extra,
            implementation_run(world, ctx, of),
            #[trigger] implementation_run(grown(world, extra), ctx, of),
        ),
{
    broadcast use {
        group_steady,
        steady_bounds,
        steady_known_supertraits,
        steady_checklist,
        steady_complete,
        follows_bounds,
        follows_known_supertraits,
        follows_checklist,
        follows_complete,
    };
}

/// `implementation_run` comes after.
pub broadcast proof fn follows_implementation(world: World, ctx: ContextView, of: Implementation)
    ensures
        follows(world, #[trigger] implementation_run(world, ctx, of)),
{
    steady_implementation(world, Seq::empty(), ctx, of);
}

} // verus!
