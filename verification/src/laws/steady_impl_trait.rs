//! The checks of impl blocks are steady.
use crate::decl::{
    CallPathView, ConstantDeclaration, FunctionDeclaration, ImplItem, ImplSelf, ImplTrait,
    TraitTypeDeclaration, TyAbiDecl, TyImplItem, TyTraitDecl, TypeParameterList,
};
use crate::impl_trait::{
    bodies_run, body_run, constant_signature_run, contract_run, finish_item_run, finish_run,
    function_signature_run, head_run, impl_body_run, impl_of_abi_run, impl_of_known_abi_run,
    impl_of_monomorphized_run, impl_of_trait_run, impl_self_run, impl_trait_run,
    resolve_argument_run, resolve_arguments_run, self_body_run, self_items_run, self_name_run,
    self_symbol_run, signature_run, signatures_run, type_signature_run, used_head_run, HeadView,
};
use crate::laws::steady::{follows, group_steady, grown, steady, steady_result};
use crate::laws::steady_implementation::{follows_implementation, steady_implementation};
use crate::laws::steady_items::{follows_unconstrained, steady_unconstrained};
use crate::laws::steady_surface::{follows_insert_surface, steady_insert_surface};
use crate::laws::steady_trait::{follows_insert_parameters, steady_insert_parameters};
use crate::session::{ContextView, Reply, World};
use crate::types::{TypeArgument, TypeId};
use vstd::prelude::*;

verus! {

/// `resolve_argument_run` is steady.
pub broadcast proof fn steady_resolve_argument(
    world: World,
    extra: Seq<Reply>,
    ctx: ContextView,
    argument: TypeArgument,
)
    ensures
        steady_result(
            world,
            extra,
            resolve_argument_run(world, ctx, argument),
            #[trigger] resolve_argument_run(grown(world, extra), ctx, argument),
        ),
{
    broadcast use group_steady;
}

/// `resolve_argument_run` comes after.
pub broadcast proof fn follows_resolve_argument(
    world: World,
    ctx: ContextView,
    argument: TypeArgument,
)
    ensures
        follows(world, #[trigger] resolve_argument_run(world, ctx, argument)),
{
    steady_resolve_argument(world, Seq::empty(), ctx, argument);
}

/// `resolve_arguments_run` is steady.
pub broadcast proof fn steady_resolve_arguments(
    world: World,
    extra: Seq<Reply>,
    ctx: ContextView,
    type_arguments: Seq<TypeArgument>,
    resolved: Seq<TypeArgument>,
    i: int,
)
    ensures
        steady_result(
            world,
            extra,
            resolve_arguments_run(world, ctx, type_arguments, resolved, i),
            #[trigger] resolve_arguments_run(grown(world, extra), ctx, type_arguments, resolved, i),
        ),
    decreases type_arguments.len() - i,
{
    broadcast use {group_steady, steady_resolve_argument, follows_resolve_argument};

    if i < type_arguments.len() {
        let first = resolve_argument_run(world, ctx, type_arguments[i]);
        if let Some(Ok(argument)) = first.value {
            steady_resolve_arguments(
                first.world,
                extra,
                ctx,
                type_arguments,
                resolved.push(argument),
                i + 1,
            );
        }
        let other = resolve_argument_run(grown(world, extra), ctx, type_arguments[i]);
        if let Some(Ok(argument)) = other.value {
            steady_resolve_arguments(
                other.world,
                Seq::empty(),
                ctx,
                type_arguments,
                resolved.push(argument),
                i + 1,
            );
        }
    }
}

/// `resolve_arguments_run` comes after.
pub broadcast proof fn follows_resolve_arguments(
    world: World,
    ctx: ContextView,
    type_arguments: Seq<TypeArgument>,
    resolved: Seq<TypeArgument>,
    i: int,
)
    ensures
        follows(world, #[trigger] resolve_arguments_run(world, ctx, type_arguments, resolved, i)),
{
    steady_resolve_arguments(world, Seq::empty(), ctx, type_arguments, resolved, i);
}

/// `used_head_run` is steady.
pub broadcast proof fn steady_used_head(
    world: World,
    extra: Seq<Reply>,
    head: HeadView,
)
    ensures
        steady_result(
            world,
            extra,
            used_head_run(world, head),
            #[trigger] used_head_run(grown(world, extra), head),
        ),
{
    broadcast use {group_steady, steady_unconstrained, follows_unconstrained};
}

/// `used_head_run` comes after.
pub broadcast proof fn follows_used_head(world: World, head: HeadView)
    ensures
        follows(world, #[trigger] used_head_run(world, head)),
{
    steady_used_head(world, Seq::empty(), head);
}

/// `head_run` is steady.
#[verifier::rlimit(40)]
pub broadcast proof fn steady_head(
    world: World,
    extra: Seq<Reply>,
    ctx: ContextView,
    parameters: TypeParameterList,
    trait_type_arguments: Seq<TypeArgument>,
    implementing_for: TypeArgument,
)
    ensures
        steady_result(
            world,
            extra,
            head_run(world, ctx, parameters, trait_type_arguments, implementing_for),
            #[trigger] head_run(
                grown(world, extra),
                ctx,
                parameters,
                trait_type_arguments,
                implementing_for,
            ),
        ),
{
    broadcast use {
        group_steady,
        steady_insert_parameters,
        steady_resolve_argument,
        steady_resolve_arguments,
        steady_used_head,
        follows_insert_parameters,
        follows_resolve_argument,
        follows_resolve_arguments,
        follows_used_head,
    };
}

/// `head_run` comes after.
pub broadcast proof fn follows_head(
    world: World,
    ctx: ContextView,
    parameters: TypeParameterList,
    trait_type_arguments: Seq<TypeArgument>,
    implementing_for: TypeArgument,
)
    ensures
        follows(
            world,
            #[trigger] head_run(world, ctx, parameters, trait_type_arguments, implementing_for),
        ),
{
    steady_head(world, Seq::empty(), ctx, parameters, trait_type_arguments, implementing_for);
}

/// `impl_of_monomorphized_run` is steady.
pub broadcast proof fn steady_impl_of_monomorphized(
    world: World,
    extra: Seq<Reply>,
    ctx: ContextView,
    block: ImplTrait,
    head: HeadView,
    decl_id: u64,
    trait_decl: TyTraitDecl,
    trait_type_arguments: Seq<TypeArgument>,
)
    ensures
        steady_result(
            world,
            extra,
            impl_of_monomorphized_run(
                world,
                ctx,
                block,
                head,
                decl_id,
                trait_decl,
                trait_type_arguments,
            ),
            #[trigger] impl_of_monomorphized_run(
                grown(world, extra),
                ctx,
                block,
                head,
                decl_id,
                trait_decl,
                trait_type_arguments,
            ),
        ),
{
    broadcast use {
        group_steady,
        steady_insert_surface,
        steady_implementation,
        follows_insert_surface,
        follows_implementation,
    };
}

/// `impl_of_monomorphized_run` comes after.
pub broadcast proof fn follows_impl_of_monomorphized(
    world: World,
    ctx: ContextView,
    block: ImplTrait,
    head: HeadView,
    decl_id: u64,
    trait_decl: TyTraitDecl,
    trait_type_arguments: Seq<TypeArgument>,
)
    ensures
        follows(
            world,
            #[trigger] impl_of_monomorphized_run(
                world,
                ctx,
                block,
                head,
                decl_id,
                trait_decl,
                trait_type_arguments,
            ),
        ),
{
    steady_impl_of_monomorphized(
        world,
        Seq::empty(),
        ctx,
        block,
        head,
        decl_id,
        trait_decl,
        trait_type_arguments,
    );
}

/// `impl_of_trait_run` is steady.
pub broadcast proof fn steady_impl_of_trait(
    world: World,
    extra: Seq<Reply>,
    ctx: ContextView,
    block: ImplTrait,
    head: HeadView,
    decl_id: u64,
)
    ensures
        steady_result(
            world,
            extra,
            impl_of_trait_run(world, ctx, block, head, decl_id),
            #[trigger] impl_of_trait_run(grown(world, extra), ctx, block, head, decl_id),
        ),
{
    broadcast use {group_steady, steady_impl_of_monomorphized, follows_impl_of_monomorphized};
}

/// `impl_of_trait_run` comes after.
pub broadcast proof fn follows_impl_of_trait(
    world: World,
    ctx: ContextView,
    block: ImplTrait,
    head: HeadView,
    decl_id: u64,
)
    ensures
        follows(world, #[trigger] impl_of_trait_run(world, ctx, block, head, decl_id)),
{
    steady_impl_of_trait(world, Seq::empty(), ctx, block, head, decl_id);
}

/// `contract_run` is steady.
pub broadcast proof fn steady_contract(
    world: World,
    extra: Seq<Reply>,
    implementing_for: TypeArgument,
)
    ensures
        steady(
            world,
            extra,
            contract_run(world, implementing_for),
            #[trigger] contract_run(grown(world, extra), implementing_for),
        ),
{
    broadcast use group_steady;
}

/// `contract_run` comes after.
pub broadcast proof fn follows_contract(world: World, implementing_for: TypeArgument)
    ensures
        follows(world, #[trigger] contract_run(world, implementing_for)),
{
    steady_contract(world, Seq::empty(), implementing_for);
}

/// `impl_of_known_abi_run` is steady.
pub broadcast proof fn steady_impl_of_known_abi(
    world: World,
    extra: Seq<Reply>,
    ctx: ContextView,
    block: ImplTrait,
    head: HeadView,
    decl_id: u64,
    abi: TyAbiDecl,
)
    ensures
        steady_result(
            world,
            extra,
            impl_of_known_abi_run(world, ctx, block, head, decl_id, abi),
            #[trigger] impl_of_known_abi_run(grown(world, extra), ctx, block, head, decl_id, abi),
        ),
{
    broadcast use {group_steady, steady_implementation, follows_implementation};
}

/// `impl_of_known_abi_run` comes after.
pub broadcast proof fn follows_impl_of_known_abi(
    world: World,
    ctx: ContextView,
    block: ImplTrait,
    head: HeadView,
    decl_id: u64,
    abi: TyAbiDecl,
)
    ensures
        follows(world, #[trigger] impl_of_known_abi_run(world, ctx, block, head, decl_id, abi)),
{
    steady_impl_of_known_abi(world, Seq::empty(), ctx, block, head, decl_id, abi);
}

/// `impl_of_abi_run` is steady.
pub broadcast proof fn steady_impl_of_abi(
    world: World,
    extra: Seq<Reply>,
    ctx: ContextView,
    block: ImplTrait,
    head: HeadView,
    decl_id: u64,
)
    ensures
        steady_result(
            world,
            extra,
            impl_of_abi_run(world, ctx, block, head, decl_id),
            #[trigger] impl_of_abi_run(grown(world, extra), ctx, block, head, decl_id),
        ),
{
    broadcast use {
        group_steady,
        steady_contract,
        steady_impl_of_known_abi,
        follows_contract,
        follows_impl_of_known_abi,
    };
}

/// `impl_of_abi_run` comes after.
pub broadcast proof fn follows_impl_of_abi(
    world: World,
    ctx: ContextView,
    block: ImplTrait,
    head: HeadView,
    decl_id: u64,
)
    ensures
        follows(world, #[trigger] impl_of_abi_run(world, ctx, block, head, decl_id)),
{
    steady_impl_of_abi(world, Seq::empty(), ctx, block, head, decl_id);
}

/// `impl_body_run` is steady.
pub broadcast proof fn steady_impl_body(
    world: World,
    extra: Seq<Reply>,
    ctx: ContextView,
    block: ImplTrait,
    head: HeadView,
)
    ensures
        steady_result(
            world,
            extra,
            impl_body_run(world, ctx, block, head),
            #[trigger] impl_body_run(grown(world, extra), ctx, block, head),
        ),
{
    broadcast use {
        group_steady,
        steady_impl_of_trait,
        steady_impl_of_abi,
        follows_impl_of_trait,
        follows_impl_of_abi,
    };
}

/// `impl_body_run` comes after.
pub broadcast proof fn follows_impl_body(
    world: World,
    ctx: ContextView,
    block: ImplTrait,
    head: HeadView,
)
    ensures
        follows(world, #[trigger] impl_body_run(world, ctx, block, head)),
{
    steady_impl_body(world, Seq::empty(), ctx, block, head);
}

/// Checking an impl block of a trait or an ABI is steady.
pub broadcast proof fn steady_impl_trait(
    world: World,
    extra: Seq<Reply>,
    ctx: ContextView,
    block: ImplTrait,
)
    ensures
        steady_result(
            world,
            extra,
            impl_trait_run(world, ctx, block),
            #[trigger] impl_trait_run(grown(world, extra), ctx, block),
        ),
{
    broadcast use {group_steady, steady_head, steady_impl_body, follows_head, follows_impl_body};
}

/// `impl_trait_run` comes after.
pub broadcast proof fn follows_impl_trait(world: World, ctx: ContextView, block: ImplTrait)
    ensures
        follows(world, #[trigger] impl_trait_run(world, ctx, block)),
{
    steady_impl_trait(world, Seq::empty(), ctx, block);
}

/// `self_name_run` is steady.
pub broadcast proof fn steady_self_name(
    world: World,
    extra: Seq<Reply>,
    implementing_for: TypeArgument,
)
    ensures
        steady(
            world,
            extra,
            self_name_run(world, implementing_for),
            #[trigger] self_name_run(grown(world, extra), implementing_for),
        ),
{
    broadcast use group_steady;
}

/// `self_name_run` comes after.
pub broadcast proof fn follows_self_name(world: World, implementing_for: TypeArgument)
    ensures
        follows(world, #[trigger] self_name_run(world, implementing_for)),
{
    steady_self_name(world, Seq::empty(), implementing_for);
}

/// `function_signature_run` is steady.
pub broadcast proof fn steady_function_signature(
    world: World,
    extra: Seq<Reply>,
    ctx: ContextView,
    parsed: FunctionDeclaration,
)
    ensures
        steady_result(
            world,
            extra,
            function_signature_run(world, ctx, parsed),
            #[trigger] function_signature_run(grown(world, extra), ctx, parsed),
        ),
{
    broadcast use group_steady;
}

/// `function_signature_run` comes after.
pub broadcast proof fn follows_function_signature(
    world: World,
    ctx: ContextView,
    parsed: FunctionDeclaration,
)
    ensures
        follows(world, #[trigger] function_signature_run(world, ctx, parsed)),
{
    steady_function_signature(world, Seq::empty(), ctx, parsed);
}

/// `constant_signature_run` is steady.
pub broadcast proof fn steady_constant_signature(
    world: World,
    extra: Seq<Reply>,
    ctx: ContextView,
    parsed: ConstantDeclaration,
)
    ensures
        steady_result(
            world,
            extra,
            constant_signature_run(world, ctx, parsed),
            #[trigger] constant_signature_run(grown(world, extra), ctx, parsed),
        ),
{
    broadcast use group_steady;
}

/// `constant_signature_run` comes after.
pub broadcast proof fn follows_constant_signature(
    world: World,
    ctx: ContextView,
    parsed: ConstantDeclaration,
)
    ensures
        follows(world, #[trigger] constant_signature_run(world, ctx, parsed)),
{
    steady_constant_signature(world, Seq::empty(), ctx, parsed);
}

/// `type_signature_run` is steady.
pub broadcast proof fn steady_type_signature(
    world: World,
    extra: Seq<Reply>,
    ctx: ContextView,
    parsed: TraitTypeDeclaration,
)
    ensures
        steady_result(
            world,
            extra,
            type_signature_run(world, ctx, parsed),
            #[trigger] type_signature_run(grown(world, extra), ctx, parsed),
        ),
{
    broadcast use group_steady;
}

/// `type_signature_run` comes after.
pub broadcast proof fn follows_type_signature(
    world: World,
    ctx: ContextView,
    parsed: TraitTypeDeclaration,
)
    ensures
        follows(world, #[trigger] type_signature_run(world, ctx, parsed)),
{
    steady_type_signature(world, Seq::empty(), ctx, parsed);
}

/// `signatures_run` is steady.
pub broadcast proof fn steady_signatures(
    world: World,
    extra: Seq<Reply>,
    ctx: ContextView,
    items: Seq<ImplItem>,
    new_items: Seq<TyImplItem>,
    i: int,
)
    ensures
        steady_result(
            world,
            extra,
            signatures_run(world, ctx, items, new_items, i),
            #[trigger] signatures_run(grown(world, extra), ctx, items, new_items, i),
        ),
    decreases items.len() - i,
{
    broadcast use {
        group_steady,
        steady_function_signature,
        steady_constant_signature,
        steady_type_signature,
        follows_function_signature,
        follows_constant_signature,
        follows_type_signature,
    };

    if i < items.len() {
        let first = signature_run(world, ctx, items[i]);
        if let Some(Ok(item)) = first.value {
            steady_signatures(first.world, extra, ctx, items, match item {
                    Some(item) => new_items.push(item),
                    None => new_items,
                }, i + 1);
        }
        let other = signature_run(grown(world, extra), ctx, items[i]);
        if let Some(Ok(item)) = other.value {
            steady_signatures(other.world, Seq::empty(), ctx, items, match item {
                    Some(item) => new_items.push(item),
                    None => new_items,
                }, i + 1);
        }
    }
}

/// `signatures_run` comes after.
pub broadcast proof fn follows_signatures(
    world: World,
    ctx: ContextView,
    items: Seq<ImplItem>,
    new_items: Seq<TyImplItem>,
    i: int,
)
    ensures
        follows(world, #[trigger] signatures_run(world, ctx, items, new_items, i)),
{
    steady_signatures(world, Seq::empty(), ctx, items, new_items, i);
}

/// `body_run` is steady.
pub broadcast proof fn steady_body(
    world: World,
    extra: Seq<Reply>,
    ctx: ContextView,
    item: ImplItem,
    new_item: TyImplItem,
)
    ensures
        steady(
            world,
            extra,
            body_run(world, ctx, item, new_item),
            #[trigger] body_run(grown(world, extra), ctx, item, new_item),
        ),
{
    broadcast use group_steady;
}

/// `body_run` comes after.
pub broadcast proof fn follows_body(
    world: World,
    ctx: ContextView,
    item: ImplItem,
    new_item: TyImplItem,
)
    ensures
        follows(world, #[trigger] body_run(world, ctx, item, new_item)),
{
    steady_body(world, Seq::empty(), ctx, item, new_item);
}

/// `bodies_run` is steady.
pub broadcast proof fn steady_bodies(
    world: World,
    extra: Seq<Reply>,
    ctx: ContextView,
    items: Seq<ImplItem>,
    new_items: Seq<TyImplItem>,
    i: int,
)
    ensures
        steady(
            world,
            extra,
            bodies_run(world, ctx, items, new_items, i),
            #[trigger] bodies_run(grown(world, extra), ctx, items, new_items, i),
        ),
    decreases items.len() - i,
{
    broadcast use {group_steady, steady_body, follows_body};

    if i < items.len() && i < new_items.len() {
        let first = body_run(world, ctx, items[i], new_items[i]);
        if let Some(_) = first.value {
            steady_bodies(first.world, extra, ctx, items, new_items, i + 1);
        }
        let other = body_run(grown(world, extra), ctx, items[i], new_items[i]);
        if let Some(_) = other.value {
            steady_bodies(other.world, Seq::empty(), ctx, items, new_items, i + 1);
        }
    }
}

/// `bodies_run` comes after.
pub broadcast proof fn follows_bodies(
    world: World,
    ctx: ContextView,
    items: Seq<ImplItem>,
    new_items: Seq<TyImplItem>,
    i: int,
)
    ensures
        follows(world, #[trigger] bodies_run(world, ctx, items, new_items, i)),
{
    steady_bodies(world, Seq::empty(), ctx, items, new_items, i);
}

/// `finish_item_run` is steady.
pub broadcast proof fn steady_finish_item(
    world: World,
    extra: Seq<Reply>,
    ctx: ContextView,
    item: TyImplItem,
)
    ensures
        steady(
            world,
            extra,
            finish_item_run(world, ctx, item),
            #[trigger] finish_item_run(grown(world, extra), ctx, item),
        ),
{
    broadcast use group_steady;
}

/// `finish_item_run` comes after.
pub broadcast proof fn follows_finish_item(world: World, ctx: ContextView, item: TyImplItem)
    ensures
        follows(world, #[trigger] finish_item_run(world, ctx, item)),
{
    steady_finish_item(world, Seq::empty(), ctx, item);
}

/// `finish_run` is steady.
pub broadcast proof fn steady_finish(
    world: World,
    extra: Seq<Reply>,
    ctx: ContextView,
    new_items: Seq<TyImplItem>,
    i: int,
)
    ensures
        steady(
            world,
            extra,
            finish_run(world, ctx, new_items, i),
            #[trigger] finish_run(grown(world, extra), ctx, new_items, i),
        ),
    decreases new_items.len() - i,
{
    broadcast use {group_steady, steady_finish_item, follows_finish_item};

    if i < new_items.len() {
        let first = finish_item_run(world, ctx, new_items[i]);
        if let Some(_) = first.value {
            steady_finish(first.world, extra, ctx, new_items, i + 1);
        }
        let other = finish_item_run(grown(world, extra), ctx, new_items[i]);
        if let Some(_) = other.value {
            steady_finish(other.world, Seq::empty(), ctx, new_items, i + 1);
        }
    }
}

/// `finish_run` comes after.
pub broadcast proof fn follows_finish(
    world: World,
    ctx: ContextView,
    new_items: Seq<TyImplItem>,
    i: int,
)
    ensures
        follows(world, #[trigger] finish_run(world, ctx, new_items, i)),
{
    steady_finish(world, Seq::empty(), ctx, new_items, i);
}

/// `self_items_run` is steady.
pub broadcast proof fn steady_self_items(
    world: World,
    extra: Seq<Reply>,
    ctx: ContextView,
    items: Seq<ImplItem>,
)
    ensures
        steady_result(
            world,
            extra,
            self_items_run(world, ctx, items),
            #[trigger] self_items_run(grown(world, extra), ctx, items),
        ),
{
    broadcast use {
        group_steady,
        steady_signatures,
        steady_bodies,
        steady_finish,
        follows_signatures,
        follows_bodies,
        follows_finish,
    };
}

/// `self_items_run` comes after.
pub broadcast proof fn follows_self_items(world: World, ctx: ContextView, items: Seq<ImplItem>)
    ensures
        follows(world, #[trigger] self_items_run(world, ctx, items)),
{
    steady_self_items(world, Seq::empty(), ctx, items);
}

/// `self_symbol_run` is steady.
pub broadcast proof fn steady_self_symbol(
    world: World,
    extra: Seq<Reply>,
    ctx: ContextView,
    type_id: TypeId,
)
    ensures
        steady(
            world,
            extra,
            self_symbol_run(world, ctx, type_id),
            #[trigger] self_symbol_run(grown(world, extra), ctx, type_id),
        ),
{
    broadcast use group_steady;
}

/// `self_symbol_run` comes after.
pub broadcast proof fn follows_self_symbol(world: World, ctx: ContextView, type_id: TypeId)
    ensures
        follows(world, #[trigger] self_symbol_run(world, ctx, type_id)),
{
    steady_self_symbol(world, Seq::empty(), ctx, type_id);
}

/// `self_body_run` is steady.
pub broadcast proof fn steady_self_body(
    world: World,
    extra: Seq<Reply>,
    ctx: ContextView,
    block: ImplSelf,
    trait_name: CallPathView,
    head: HeadView,
)
    ensures
        steady_result(
            world,
            extra,
            self_body_run(world, ctx, block, trait_name, head),
            #[trigger] self_body_run(grown(world, extra), ctx, block, trait_name, head),
        ),
{
    broadcast use {
        group_steady,
        steady_self_symbol,
        steady_self_items,
        follows_self_symbol,
        follows_self_items,
    };
}

/// `self_body_run` comes after.
pub broadcast proof fn follows_self_body(
    world: World,
    ctx: ContextView,
    block: ImplSelf,
    trait_name: CallPathView,
    head: HeadView,
)
    ensures
        follows(world, #[trigger] self_body_run(world, ctx, block, trait_name, head)),
{
    steady_self_body(world, Seq::empty(), ctx, block, trait_name, head);
}

/// Checking an impl block without a trait is steady.
pub broadcast proof fn steady_impl_self(
    world: World,
    extra: Seq<Reply>,
    ctx: ContextView,
    block: ImplSelf,
)
    ensures
        steady_result(
            world,
            extra,
            impl_self_run(world, ctx, block),
            #[trigger] impl_self_run(grown(world, extra), ctx, block),
        ),
{
    broadcast use {
        group_steady,
        steady_self_name,
        steady_head,
        steady_self_body,
        follows_self_name,
        follows_head,
        follows_self_body,
    };
}

/// `impl_self_run` comes after.
pub broadcast proof fn follows_impl_self(world: World, ctx: ContextView, block: ImplSelf)
    ensures
        follows(world, #[trigger] impl_self_run(world, ctx, block)),
{
    steady_impl_self(world, Seq::empty(), ctx, block);
}

} // verus!
