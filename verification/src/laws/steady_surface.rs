//! What a trait asks for and provides is looked up steadily, and so are its supertraits.
use crate::decl::{
    CallPath, Supertrait, TraitView, TyDecl, TyTraitDecl, TyTraitInterfaceItem, TyTraitItem,
};
use crate::laws::steady::{accounts, follows, group_steady, grown, steady};
use crate::ordered::{put, Key};
use crate::session::{ask, to_symbol, to_trait, ContextView, QueryView, Reply, Run, World};
use crate::supertraits::{
    each_supertrait_run, one_supertrait_run, supertraits_run, with_nested_run, SupertraitItems,
};
use crate::surface::{
    copies_run, copy_constant_run, copy_function_run, copy_item_run, copy_type_run,
    insert_surface_run, provided_run, retrieve_all_run, retrieve_run, stand_in_run, stand_ins_run,
};
use crate::types::{ItemKey, TypeArgument, TypeId};
use vstd::prelude::*;

verus! {

/// `retrieve_run` is steady.
pub broadcast proof fn steady_retrieve(
    world: World,
    extra: Seq<Reply>,
    decl: TraitView,
    ctx: ContextView,
    type_id: TypeId,
    call_path: CallPath,
)
    ensures
        steady(
            world,
            extra,
            retrieve_run(world, decl, ctx, type_id, call_path),
            #[trigger] retrieve_run(grown(world, extra), decl, ctx, type_id, call_path),
        ),
{
    broadcast use group_steady;
}

/// `retrieve_run` comes after.
pub broadcast proof fn follows_retrieve(
    world: World,
    decl: TraitView,
    ctx: ContextView,
    type_id: TypeId,
    call_path: CallPath,
)
    ensures
        follows(world, #[trigger] retrieve_run(world, decl, ctx, type_id, call_path)),
{
    steady_retrieve(world, Seq::empty(), decl, ctx, type_id, call_path);
}

/// `copy_function_run` is steady.
pub broadcast proof fn steady_copy_function(
    world: World,
    extra: Seq<Reply>,
    id: u64,
    self_type: Option<TypeId>,
    type_mapping: Seq<(TypeId, TypeId)>,
)
    ensures
        steady(
            world,
            extra,
            copy_function_run(world, id, self_type, type_mapping),
            #[trigger] copy_function_run(grown(world, extra), id, self_type, type_mapping),
        ),
{
    broadcast use group_steady;
}

/// `copy_function_run` comes after.
pub broadcast proof fn follows_copy_function(
    world: World,
    id: u64,
    self_type: Option<TypeId>,
    type_mapping: Seq<(TypeId, TypeId)>,
)
    ensures
        follows(world, #[trigger] copy_function_run(world, id, self_type, type_mapping)),
{
    steady_copy_function(world, Seq::empty(), id, self_type, type_mapping);
}

/// `copy_constant_run` is steady.
pub broadcast proof fn steady_copy_constant(
    world: World,
    extra: Seq<Reply>,
    id: u64,
    self_type: Option<TypeId>,
    type_mapping: Seq<(TypeId, TypeId)>,
)
    ensures
        steady(
            world,
            extra,
            copy_constant_run(world, id, self_type, type_mapping),
            #[trigger] copy_constant_run(grown(world, extra), id, self_type, type_mapping),
        ),
{
    broadcast use group_steady;
}

/// `copy_constant_run` comes after.
pub broadcast proof fn follows_copy_constant(
    world: World,
    id: u64,
    self_type: Option<TypeId>,
    type_mapping: Seq<(TypeId, TypeId)>,
)
    ensures
        follows(world, #[trigger] copy_constant_run(world, id, self_type, type_mapping)),
{
    steady_copy_constant(world, Seq::empty(), id, self_type, type_mapping);
}

/// `copy_type_run` is steady.
pub broadcast proof fn steady_copy_type(
    world: World,
    extra: Seq<Reply>,
    id: u64,
    self_type: Option<TypeId>,
    type_mapping: Seq<(TypeId, TypeId)>,
)
    ensures
        steady(
            world,
            extra,
            copy_type_run(world, id, self_type, type_mapping),
            #[trigger] copy_type_run(grown(world, extra), id, self_type, type_mapping),
        ),
{
    broadcast use group_steady;
}

/// `copy_type_run` comes after.
pub broadcast proof fn follows_copy_type(
    world: World,
    id: u64,
    self_type: Option<TypeId>,
    type_mapping: Seq<(TypeId, TypeId)>,
)
    ensures
        follows(world, #[trigger] copy_type_run(world, id, self_type, type_mapping)),
{
    steady_copy_type(world, Seq::empty(), id, self_type, type_mapping);
}

/// `copy_item_run` is steady.
pub broadcast proof fn steady_copy_item(
    world: World,
    extra: Seq<Reply>,
    item: TyTraitItem,
    self_type: Option<TypeId>,
    type_mapping: Seq<(TypeId, TypeId)>,
)
    ensures
        steady(
            world,
            extra,
            copy_item_run(world, item, self_type, type_mapping),
            #[trigger] copy_item_run(grown(world, extra), item, self_type, type_mapping),
        ),
{
    broadcast use {
        group_steady,
        steady_copy_function,
        steady_copy_constant,
        steady_copy_type,
        follows_copy_function,
        follows_copy_constant,
        follows_copy_type,
    };
}

/// `copy_item_run` comes after.
pub broadcast proof fn follows_copy_item(
    world: World,
    item: TyTraitItem,
    self_type: Option<TypeId>,
    type_mapping: Seq<(TypeId, TypeId)>,
)
    ensures
        follows(world, #[trigger] copy_item_run(world, item, self_type, type_mapping)),
{
    steady_copy_item(world, Seq::empty(), item, self_type, type_mapping);
}

/// `copies_run` is steady.
pub broadcast proof fn steady_copies(
    world: World,
    extra: Seq<Reply>,
    items: Seq<TyTraitItem>,
    type_id: TypeId,
    type_mapping: Seq<(TypeId, TypeId)>,
    copies: Seq<(ItemKey, TyTraitItem)>,
    i: int,
)
    ensures
        steady(
            world,
            extra,
            copies_run(world, items, type_id, type_mapping, copies, i),
            #[trigger] copies_run(grown(world, extra), items, type_id, type_mapping, copies, i),
        ),
    decreases items.len() - i,
{
    broadcast use {group_steady, steady_copy_item, follows_copy_item};

    if i < items.len() {
        let first = copy_item_run(world, items[i], None, type_mapping);
        if let Some(copy) = first.value {
            steady_copies(
                first.world,
                extra,
                items,
                type_id,
                type_mapping,
                put(copies, ItemKey { name: copy.0, type_id }, copy.1),
                i + 1,
            );
        }
        let other = copy_item_run(grown(world, extra), items[i], None, type_mapping);
        if let Some(copy) = other.value {
            steady_copies(
                other.world,
                Seq::empty(),
                items,
                type_id,
                type_mapping,
                put(copies, ItemKey { name: copy.0, type_id }, copy.1),
                i + 1,
            );
        }
    }
}

/// `copies_run` comes after.
pub broadcast proof fn follows_copies(
    world: World,
    items: Seq<TyTraitItem>,
    type_id: TypeId,
    type_mapping: Seq<(TypeId, TypeId)>,
    copies: Seq<(ItemKey, TyTraitItem)>,
    i: int,
)
    ensures
        follows(world, #[trigger] copies_run(world, items, type_id, type_mapping, copies, i)),
{
    steady_copies(world, Seq::empty(), items, type_id, type_mapping, copies, i);
}

/// `retrieve_all_run` is steady.
pub broadcast proof fn steady_retrieve_all(
    world: World,
    extra: Seq<Reply>,
    decl: TraitView,
    ctx: ContextView,
    type_id: TypeId,
    call_path: CallPath,
    type_arguments: Seq<TypeArgument>,
)
    ensures
        steady(
            world,
            extra,
            retrieve_all_run(world, decl, ctx, type_id, call_path, type_arguments),
            #[trigger] retrieve_all_run(
                grown(world, extra),
                decl,
                ctx,
                type_id,
                call_path,
                type_arguments,
            ),
        ),
{
    broadcast use {group_steady, steady_copies, follows_copies};
}

/// `retrieve_all_run` comes after.
pub broadcast proof fn follows_retrieve_all(
    world: World,
    decl: TraitView,
    ctx: ContextView,
    type_id: TypeId,
    call_path: CallPath,
    type_arguments: Seq<TypeArgument>,
)
    ensures
        follows(
            world,
            #[trigger] retrieve_all_run(world, decl, ctx, type_id, call_path, type_arguments),
        ),
{
    steady_retrieve_all(world, Seq::empty(), decl, ctx, type_id, call_path, type_arguments);
}

/// `stand_in_run` is steady.
pub broadcast proof fn steady_stand_in(
    world: World,
    extra: Seq<Reply>,
    ctx: ContextView,
    item: TyTraitInterfaceItem,
    type_id: TypeId,
    type_mapping: Seq<(TypeId, TypeId)>,
)
    ensures
        steady(
            world,
            extra,
            stand_in_run(world, ctx, item, type_id, type_mapping),
            #[trigger] stand_in_run(grown(world, extra), ctx, item, type_id, type_mapping),
        ),
{
    broadcast use group_steady;
}

/// `stand_in_run` comes after.
pub broadcast proof fn follows_stand_in(
    world: World,
    ctx: ContextView,
    item: TyTraitInterfaceItem,
    type_id: TypeId,
    type_mapping: Seq<(TypeId, TypeId)>,
)
    ensures
        follows(world, #[trigger] stand_in_run(world, ctx, item, type_id, type_mapping)),
{
    steady_stand_in(world, Seq::empty(), ctx, item, type_id, type_mapping);
}

/// `stand_ins_run` is steady.
pub broadcast proof fn steady_stand_ins(
    world: World,
    extra: Seq<Reply>,
    ctx: ContextView,
    interface_surface: Seq<TyTraitInterfaceItem>,
    type_id: TypeId,
    type_mapping: Seq<(TypeId, TypeId)>,
    all_items: Seq<TyTraitItem>,
    i: int,
)
    ensures
        steady(
            world,
            extra,
            stand_ins_run(world, ctx, interface_surface, type_id, type_mapping, all_items, i),
            #[trigger] stand_ins_run(
                grown(world, extra),
                ctx,
                interface_surface,
                type_id,
                type_mapping,
                all_items,
                i,
            ),
        ),
    decreases interface_surface.len() - i,
{
    broadcast use {group_steady, steady_stand_in, follows_stand_in};

    if i < interface_surface.len() {
        let first = stand_in_run(world, ctx, interface_surface[i], type_id, type_mapping);
        if let Some(item) = first.value {
            steady_stand_ins(
                first.world,
                extra,
                ctx,
                interface_surface,
                type_id,
                type_mapping,
                all_items.push(item),
                i + 1,
            );
        }
        let other = stand_in_run(
            grown(world, extra),
            ctx,
            interface_surface[i],
            type_id,
            type_mapping,
        );
        if let Some(item) = other.value {
            steady_stand_ins(
                other.world,
                Seq::empty(),
                ctx,
                interface_surface,
                type_id,
                type_mapping,
                all_items.push(item),
                i + 1,
            );
        }
    }
}

/// `stand_ins_run` comes after.
pub broadcast proof fn follows_stand_ins(
    world: World,
    ctx: ContextView,
    interface_surface: Seq<TyTraitInterfaceItem>,
    type_id: TypeId,
    type_mapping: Seq<(TypeId, TypeId)>,
    all_items: Seq<TyTraitItem>,
    i: int,
)
    ensures
        follows(
            world,
            #[trigger] stand_ins_run(
                world,
                ctx,
                interface_surface,
                type_id,
                type_mapping,
                all_items,
                i,
            ),
        ),
{
    steady_stand_ins(
        world,
        Seq::empty(),
        ctx,
        interface_surface,
        type_id,
        type_mapping,
        all_items,
        i,
    );
}

/// `provided_run` is steady.
pub broadcast proof fn steady_provided(
    world: World,
    extra: Seq<Reply>,
    items: Seq<TyTraitItem>,
    type_id: TypeId,
    type_mapping: Seq<(TypeId, TypeId)>,
    all_items: Seq<TyTraitItem>,
    i: int,
)
    ensures
        steady(
            world,
            extra,
            provided_run(world, items, type_id, type_mapping, all_items, i),
            #[trigger] provided_run(
                grown(world, extra),
                items,
                type_id,
                type_mapping,
                all_items,
                i,
            ),
        ),
    decreases items.len() - i,
{
    broadcast use {group_steady, steady_copy_item, follows_copy_item};

    if i < items.len() {
        let first = copy_item_run(world, items[i], Some(type_id), type_mapping);
        if let Some(copy) = first.value {
            steady_provided(
                first.world,
                extra,
                items,
                type_id,
                type_mapping,
                all_items.push(copy.1),
                i + 1,
            );
        }
        let other = copy_item_run(grown(world, extra), items[i], Some(type_id), type_mapping);
        if let Some(copy) = other.value {
            steady_provided(
                other.world,
                Seq::empty(),
                items,
                type_id,
                type_mapping,
                all_items.push(copy.1),
                i + 1,
            );
        }
    }
}

/// `provided_run` comes after.
pub broadcast proof fn follows_provided(
    world: World,
    items: Seq<TyTraitItem>,
    type_id: TypeId,
    type_mapping: Seq<(TypeId, TypeId)>,
    all_items: Seq<TyTraitItem>,
    i: int,
)
    ensures
        follows(world, #[trigger] provided_run(world, items, type_id, type_mapping, all_items, i)),
{
    steady_provided(world, Seq::empty(), items, type_id, type_mapping, all_items, i);
}

/// `insert_surface_run` is steady.
pub broadcast proof fn steady_insert_surface(
    world: World,
    extra: Seq<Reply>,
    decl: TraitView,
    ctx: ContextView,
    trait_name: CallPath,
    type_arguments: Seq<TypeArgument>,
    type_id: TypeId,
)
    ensures
        steady(
            world,
            extra,
            insert_surface_run(world, decl, ctx, trait_name, type_arguments, type_id),
            #[trigger] insert_surface_run(
                grown(world, extra),
                decl,
                ctx,
                trait_name,
                type_arguments,
                type_id,
            ),
        ),
{
    broadcast use {
        group_steady,
        steady_stand_ins,
        steady_provided,
        follows_stand_ins,
        follows_provided,
    };
}

/// `insert_surface_run` comes after.
pub broadcast proof fn follows_insert_surface(
    world: World,
    decl: TraitView,
    ctx: ContextView,
    trait_name: CallPath,
    type_arguments: Seq<TypeArgument>,
    type_id: TypeId,
)
    ensures
        follows(
            world,
            #[trigger] insert_surface_run(world, decl, ctx, trait_name, type_arguments, type_id),
        ),
{
    steady_insert_surface(world, Seq::empty(), decl, ctx, trait_name, type_arguments, type_id);
}

/// Whether a part of a check is steady and never finds the replies in contradiction.
pub open spec fn steady_without_contradiction<T>(
    world: World,
    extra: Seq<Reply>,
    short: Run<T>,
    long: Run<T>,
) -> bool {
    &&& steady(world, extra, short, long)
    &&& short.value is None ==> !(short.world.stop is Contradiction)
}

/// `supertraits_run` is steady. No branch is taken in which supertraits were followed
/// without reading a reply.
pub proof fn steady_supertraits(
    world: World,
    extra: Seq<Reply>,
    ctx: ContextView,
    supertraits: Seq<Supertrait>,
)
    ensures
        steady_without_contradiction(
            world,
            extra,
            supertraits_run(world, ctx, supertraits),
            supertraits_run(grown(world, extra), ctx, supertraits),
        ),
        accounts(world, supertraits_run(world, ctx, supertraits)),
    decreases world.replies.len(), supertraits.len() + 1,
{
    steady_each_supertrait(world, extra, ctx, supertraits, SupertraitItems::empty(), 0);
}

/// `supertraits_run` comes after.
pub proof fn follows_supertraits(world: World, ctx: ContextView, supertraits: Seq<Supertrait>)
    ensures
        follows(world, supertraits_run(world, ctx, supertraits)),
    decreases world.replies.len(), supertraits.len() + 1,
{
    follows_each_supertrait(world, ctx, supertraits, SupertraitItems::empty(), 0);
}

/// `each_supertrait_run` comes after.
pub proof fn follows_each_supertrait(
    world: World,
    ctx: ContextView,
    supertraits: Seq<Supertrait>,
    items: SupertraitItems,
    i: int,
)
    ensures
        follows(world, each_supertrait_run(world, ctx, supertraits, items, i)),
    decreases world.replies.len(), supertraits.len() - i,
{
    broadcast use group_steady;

    if i < supertraits.len() {
        follows_one_supertrait(world, ctx, supertraits[i], items);
        let first = one_supertrait_run(world, ctx, supertraits[i], items);
        if let Some(items) = first.value {
            follows_each_supertrait(first.world, ctx, supertraits, items, i + 1);
        }
    }
}

/// `one_supertrait_run` comes after.
pub proof fn follows_one_supertrait(
    world: World,
    ctx: ContextView,
    supertrait: Supertrait,
    items: SupertraitItems,
)
    ensures
        follows(world, one_supertrait_run(world, ctx, supertrait, items)),
    decreases world.replies.len(), 0int,
{
    broadcast use group_steady;

    if supertrait.name.prefixes is None {
        let found = to_symbol(
            ask(world, QueryView::ResolveCallPath { ctx, path: supertrait.name }),
        );
        if let Some(Ok(TyDecl::TraitDecl { decl_id })) = found.value {
            let got = to_trait(ask(found.world, QueryView::GetTrait { id: decl_id }));
            if let Some(trait_decl) = got.value {
                follows_with_nested(got.world, ctx, trait_decl, supertrait.name, items);
            }
        }
    }
}

/// `with_nested_run` comes after.
pub proof fn follows_with_nested(
    world: World,
    ctx: ContextView,
    trait_decl: TyTraitDecl,
    path: CallPath,
    items: SupertraitItems,
)
    ensures
        follows(world, with_nested_run(world, ctx, trait_decl, path, items)),
    decreases world.replies.len(), 0int,
{
    broadcast use {group_steady, follows_retrieve};

    let own = retrieve_run(world, trait_decl@, ctx, ctx.self_type, path);
    if own.value is Some {
        follows_supertraits(own.world, ctx, trait_decl.supertraits@);
    }
}

/// `each_supertrait_run` is steady.
pub proof fn steady_each_supertrait(
    world: World,
    extra: Seq<Reply>,
    ctx: ContextView,
    supertraits: Seq<Supertrait>,
    items: SupertraitItems,
    i: int,
)
    ensures
        steady_without_contradiction(
            world,
            extra,
            each_supertrait_run(world, ctx, supertraits, items, i),
            each_supertrait_run(grown(world, extra), ctx, supertraits, items, i),
        ),
        accounts(world, each_supertrait_run(world, ctx, supertraits, items, i)),
    decreases world.replies.len(), supertraits.len() - i,
{
    broadcast use group_steady;

    if i < supertraits.len() {
        steady_one_supertrait(world, extra, ctx, supertraits[i], items);
        let first = one_supertrait_run(world, ctx, supertraits[i], items);
        if let Some(items) = first.value {
            steady_each_supertrait(first.world, extra, ctx, supertraits, items, i + 1);
        }
        let other = one_supertrait_run(grown(world, extra), ctx, supertraits[i], items);
        if let Some(items) = other.value {
            follows_each_supertrait(other.world, ctx, supertraits, items, i + 1);
        }
    }
}

/// `one_supertrait_run` is steady.
#[verifier::rlimit(40)]
pub proof fn steady_one_supertrait(
    world: World,
    extra: Seq<Reply>,
    ctx: ContextView,
    supertrait: Supertrait,
    items: SupertraitItems,
)
    ensures
        steady_without_contradiction(
            world,
            extra,
            one_supertrait_run(world, ctx, supertrait, items),
            one_supertrait_run(grown(world, extra), ctx, supertrait, items),
        ),
    decreases world.replies.len(), 0int,
{
    broadcast use group_steady;

    if supertrait.name.prefixes is None {
        let found = to_symbol(
            ask(world, QueryView::ResolveCallPath { ctx, path: supertrait.name }),
        );
        if let Some(Ok(TyDecl::TraitDecl { decl_id })) = found.value {
            let got = to_trait(ask(found.world, QueryView::GetTrait { id: decl_id }));
            if let Some(trait_decl) = got.value {
                steady_with_nested(got.world, extra, ctx, trait_decl, supertrait.name, items);
            }
        }
        let other = to_symbol(
            ask(grown(world, extra), QueryView::ResolveCallPath { ctx, path: supertrait.name }),
        );
        if let Some(Ok(TyDecl::TraitDecl { decl_id })) = other.value {
            let got = to_trait(ask(other.world, QueryView::GetTrait { id: decl_id }));
            if let Some(trait_decl) = got.value {
                follows_with_nested(got.world, ctx, trait_decl, supertrait.name, items);
            }
        }
    }
}

/// `with_nested_run` is steady.
pub proof fn steady_with_nested(
    world: World,
    extra: Seq<Reply>,
    ctx: ContextView,
    trait_decl: TyTraitDecl,
    path: CallPath,
    items: SupertraitItems,
)
    ensures
        steady_without_contradiction(
            world,
            extra,
            with_nested_run(world, ctx, trait_decl, path, items),
            with_nested_run(grown(world, extra), ctx, trait_decl, path, items),
        ),
    decreases world.replies.len(), 0int,
{
    broadcast use {group_steady, steady_retrieve, follows_retrieve};

    let own = retrieve_run(world, trait_decl@, ctx, ctx.self_type, path);
    if own.value is Some {
        steady_supertraits(own.world, extra, ctx, trait_decl.supertraits@);
    }
    let other = retrieve_run(grown(world, extra), trait_decl@, ctx, ctx.self_type, path);
    if other.value is Some {
        follows_supertraits(other.world, ctx, trait_decl.supertraits@);
    }
}

} // verus!
