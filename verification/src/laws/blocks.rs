//! What a checked impl block keeps of the parsed one.
use crate::decl::{
    ImplItem, ImplSelf, ImplTrait, ImplView, TyDecl, TyImplItem, TyTraitItem,
};
use crate::diagnostics::{CompileError, ErrorEmitted, ErrorView};
use crate::ident::Span;
use crate::impl_trait::{
    bodies_run, body_run, head_run, impl_body_run, impl_self_run, impl_trait_run, self_items_run,
    self_name_run, self_symbol_run, signature_run, signatures_run, HeadView,
};
use crate::implementation::{implementation_run, Implementation};
use crate::laws::steady::{group_steady, honest, later, lemma_ask};
use crate::laws::steady_impl_trait::{
    steady_bodies, steady_constant_signature, steady_finish, steady_function_signature,
    steady_head, steady_self_name, steady_self_symbol, steady_signatures, steady_type_signature,
};
use crate::session::{
    ask, to_item, to_namespace, to_outcome, to_symbol, to_type, ContextView, QueryView, Reply,
    World,
};
use crate::trait_decl::{finalize_run, finalized};
use crate::types::{TypeArgument, TypeInfo};
use vstd::prelude::*;

verus! {

/// Whether a checked item is of the kind that was parsed.
pub open spec fn same_kind(parsed: ImplItem, item: TyImplItem) -> bool {
    match parsed {
        ImplItem::Fn(_) => item is Fn,
        ImplItem::Constant(_) => item is Constant,
        ImplItem::Type(_) => item is Type,
    }
}

/// Whether there is a checked item for each parsed one, of its kind and in its place.
pub open spec fn item_for_item(parsed: Seq<ImplItem>, items: Seq<TyImplItem>) -> bool {
    &&& items.len() == parsed.len()
    &&& forall|k: int| 0 <= k < items.len() ==> same_kind(parsed[k], #[trigger] items[k])
}

proof fn lemma_signature(world: World, ctx: ContextView, item: ImplItem)
    ensures
        ({
            let after = signature_run(world, ctx, item);
            &&& later(world, after.world)
            &&& after.value is Some && after.value->0 is Ok ==> match after.value->0->Ok_0 {
                Some(checked) => same_kind(item, checked),
                None => honest(world) ==> after.world.errors.len() > world.errors.len(),
            }
        }),
{
    broadcast use group_steady;

    match item {
        ImplItem::Fn(parsed) => {
            steady_function_signature(world, Seq::empty(), ctx, parsed);
        },
        ImplItem::Constant(parsed) => {
            steady_constant_signature(world, Seq::empty(), ctx, parsed);
        },
        ImplItem::Type(parsed) => {
            steady_type_signature(world, Seq::empty(), ctx, parsed);
        },
    }
}

proof fn lemma_signatures(
    world: World,
    ctx: ContextView,
    items: Seq<ImplItem>,
    new_items: Seq<TyImplItem>,
    i: int,
)
    requires
        0 <= i <= items.len(),
        honest(world),
        item_for_item(items.take(i), new_items),
        signatures_run(world, ctx, items, new_items, i).value is Some,
        signatures_run(world, ctx, items, new_items, i).value->0 is Ok,
        signatures_run(world, ctx, items, new_items, i).world.errors.len()
            == world.errors.len(),
    ensures
        item_for_item(items, signatures_run(world, ctx, items, new_items, i).value->0->Ok_0),
    decreases items.len() - i,
{
    if i < items.len() {
        let first = signature_run(world, ctx, items[i]);
        lemma_signature(world, ctx, items[i]);
        let checked = first.value->0->Ok_0;
        let next = match checked {
            Some(item) => new_items.push(item),
            None => new_items,
        };
        steady_signatures(first.world, Seq::empty(), ctx, items, next, i + 1);
        assert(honest(first.world)) by {
            broadcast use group_steady;

        }
        assert(checked is Some);
        assert forall|k: int| 0 <= k < next.len() implies same_kind(
            items.take(i + 1)[k],
            #[trigger] next[k],
        ) by {
            if k < i {
                assert(next[k] == new_items[k]);
                assert(items.take(i + 1)[k] == items.take(i)[k]);
            }
        }
        lemma_signatures(first.world, ctx, items, next, i + 1);
    } else {
        assert(items.take(i) =~= items);
    }
}

/// An impl block without a trait whose items are accepted has an item for each that was
/// parsed, of the same kind and in the same order, and no error came up about any of them;
/// provided that the compiler reports an error wherever it refuses an item.
pub proof fn law_self_items(world: World, ctx: ContextView, items: Seq<ImplItem>)
    requires
        honest(world),
        self_items_run(world, ctx, items).value is Some,
        self_items_run(world, ctx, items).value->0 is Ok,
    ensures
        item_for_item(items, self_items_run(world, ctx, items).value->0->Ok_0),
        self_items_run(world, ctx, items).world.errors == world.errors,
{
    let after = self_items_run(world, ctx, items);
    let first = signatures_run(world, ctx, items, Seq::empty(), 0);
    steady_signatures(world, Seq::empty(), ctx, items, Seq::empty(), 0);
    let new_items = first.value->0->Ok_0;
    let second = bodies_run(first.world, ctx, items, new_items, 0);
    steady_bodies(first.world, Seq::empty(), ctx, items, new_items, 0);
    steady_finish(second.world, Seq::empty(), ctx, new_items, 0);
    lemma_signatures(world, ctx, items, Seq::empty(), 0);
    assert(later(world, after.world)) by {
        broadcast use group_steady;

    }
    assert(after.world.errors =~= world.errors);
}

/// Bodies are never checked against items of another kind if there is an item for each that
/// was parsed.
pub proof fn law_bodies_fit(
    world: World,
    ctx: ContextView,
    items: Seq<ImplItem>,
    new_items: Seq<TyImplItem>,
    i: int,
)
    requires
        item_for_item(items, new_items),
        0 <= i <= items.len(),
    ensures
        ({
            let after = bodies_run(world, ctx, items, new_items, i);
            after.value is None ==> !(after.world.stop is Contradiction)
        }),
    decreases items.len() - i,
{
    if i < items.len() {
        let first = body_run(world, ctx, items[i], new_items[i]);
        assert(same_kind(items[i], new_items[i]));
        if first.value is Some {
            law_bodies_fit(first.world, ctx, items, new_items, i + 1);
        }
    }
}

proof fn lemma_finalize(
    world: World,
    ctx: ContextView,
    items: Seq<TyTraitItem>,
    finished: Seq<TyTraitItem>,
    i: int,
)
    requires
        0 <= i <= items.len(),
    ensures
        ({
            let after = finalize_run(world, ctx, items, finished, i);
            after.value is Some ==> after.value->0.len() == finished.len() + items.len() - i
        }),
    decreases items.len() - i,
{
    if i < items.len() {
        let first = to_item(ask(world, QueryView::FinalizeItem { ctx, item: items[i] }));
        if let Some(item) = first.value {
            lemma_finalize(first.world, ctx, items, finished.push(item), i + 1);
        }
    }
}

/// Finishing items keeps their number, and succeeds exactly if no error came up.
pub proof fn law_finalized(world: World, ctx: ContextView, items: Seq<TyTraitItem>)
    requires
        finalized(world, ctx, items).value is Some,
    ensures
        ({
            let after = finalized(world, ctx, items);
            &&& (after.value->0).0.len() == items.len()
            &&& (after.value->0).1 is Ok <==> after.world.errors.len() <= world.errors.len()
        }),
{
    lemma_finalize(world, ctx, items, Seq::empty(), 0);
}

/// What a checked impl block has from the parsed one: where it stands, and the type argument
/// that it is for with its type resolved.
pub open spec fn keeps_block(
    checked: ImplView,
    implementing_for: TypeArgument,
    block_span: Span,
) -> bool {
    &&& checked.span == block_span
    &&& checked.implementing_for == TypeArgument {
        type_id: checked.implementing_for.type_id,
        ..implementing_for
    }
}

/// An impl block of a trait or an ABI that is accepted keeps the name of the interface and
/// refers to it. One of an ABI has no type parameters and no type arguments.
pub proof fn law_accepted_impl_trait(world: World, ctx: ContextView, block: ImplTrait)
    requires
        impl_trait_run(world, ctx, block).value is Some,
        impl_trait_run(world, ctx, block).value->0 is Ok,
    ensures
        ({
            let checked = impl_trait_run(world, ctx, block).value->0->Ok_0;
            &&& keeps_block(checked, block.implementing_for, block.block_span)
            &&& checked.trait_name == block.trait_name@
            &&& checked.trait_decl_ref is Some
            &&& checked.trait_decl_ref->0.id is Abi ==> {
                &&& checked.impl_type_parameters.len() == 0
                &&& checked.trait_type_arguments.len() == 0
            }
        }),
{
}

/// Whether items are those of an accepted implementation of the items of an impl block, by the
/// rules for ABIs or by those for traits.
pub open spec fn implements(
    items: Seq<TyImplItem>,
    impl_items: Seq<ImplItem>,
    block_span: Span,
    is_contract: bool,
) -> bool {
    exists|start: World, ctx: ContextView, of: Implementation|
        (#[trigger] implementation_run(start, ctx, of)).value == Some(
            Ok::<_, ErrorEmitted>(items),
        ) && of.impl_items == impl_items && of.block_span == block_span && of.is_contract
            == is_contract
}

/// The items of an impl block of a trait or an ABI that is accepted are those of an accepted
/// implementation, and so leave nothing out that the interface asks for.
pub proof fn law_accepted_block_implements(world: World, ctx: ContextView, block: ImplTrait)
    requires
        impl_trait_run(world, ctx, block).value is Some,
        impl_trait_run(world, ctx, block).value->0 is Ok,
    ensures
        ({
            let checked = impl_trait_run(world, ctx, block).value->0->Ok_0;
            implements(
                checked.items,
                block.items@,
                block.block_span,
                checked.trait_decl_ref->0.id is Abi,
            )
        }),
{
}

/// What is neither a trait nor an ABI cannot be implemented. The last error is that the trait
/// is not known.
pub proof fn law_unknown_trait(
    world: World,
    ctx: ContextView,
    block: ImplTrait,
    head: HeadView,
    found: Result<TyDecl, ErrorEmitted>,
)
    requires
        ({
            let typed = to_type(ask(world, QueryView::InsertType { info: TypeInfo::Unknown }));
            let ctx = ctx.with_self_type(head.implementing_for.type_id).expecting(
                typed.value->0,
            );
            &&& typed.value is Some
            &&& to_symbol(
                ask(typed.world, QueryView::ResolveCallPath { ctx, path: block.trait_name }),
            ).value == Some(found)
        }),
        found is Err || !(found->Ok_0 is TraitDecl || found->Ok_0 is AbiDecl),
    ensures
        ({
            let after = impl_body_run(world, ctx, block, head);
            &&& after.value is Some
            &&& after.value->0 is Err
            &&& after.world.errors.len() > 0
            &&& after.world.errors.last() == ErrorView::Plain(
                CompileError::UnknownTrait {
                    name: block.trait_name.suffix,
                    span: block.trait_name.span,
                },
            )
        }),
{
}

/// An impl block without a trait that is accepted refers to no interface and has no type
/// arguments. It has an item for each that was parsed, provided that the compiler reports an
/// error wherever it refuses one.
pub proof fn law_accepted_impl_self(world: World, ctx: ContextView, block: ImplSelf)
    requires
        impl_self_run(world, ctx, block).value is Some,
        impl_self_run(world, ctx, block).value->0 is Ok,
    ensures
        ({
            let checked = impl_self_run(world, ctx, block).value->0->Ok_0;
            &&& keeps_block(checked, block.implementing_for, block.block_span)
            &&& checked.trait_decl_ref is None
            &&& checked.trait_type_arguments.len() == 0
            &&& honest(world) ==> item_for_item(block.items@, checked.items)
        }),
{
    if honest(world) {
        lemma_self_block_items(world, ctx, block);
    }
}

proof fn lemma_self_block_items(world: World, ctx: ContextView, block: ImplSelf)
    requires
        honest(world),
        impl_self_run(world, ctx, block).value is Some,
        impl_self_run(world, ctx, block).value->0 is Ok,
    ensures
        item_for_item(block.items@, impl_self_run(world, ctx, block).value->0->Ok_0.items),
{
    let none = Seq::<Reply>::empty();
    let query = QueryView::CloneNamespace { namespace: ctx.namespace };
    lemma_ask(world, none, query);
    let cloned = to_namespace(ask(world, query));
    let ctx = ctx.scoped(cloned.value->0).in_impl_block().deferring();
    let named = self_name_run(cloned.world, block.implementing_for);
    steady_self_name(cloned.world, none, block.implementing_for);
    let head = head_run(
        named.world,
        ctx,
        block.impl_type_parameters,
        Seq::empty(),
        block.implementing_for,
    );
    steady_head(
        named.world,
        none,
        ctx,
        block.impl_type_parameters,
        Seq::empty(),
        block.implementing_for,
    );
    let implementing_for = head.value->0->Ok_0.implementing_for;
    let type_id = implementing_for.type_id;
    let query = QueryView::CheckTypeParameterBounds {
        ctx,
        type_id,
        span: implementing_for.span,
        constraints_of: None,
    };
    lemma_ask(head.world, none, query);
    let bounds = to_outcome(ask(head.world, query));
    let query = QueryView::InsertType { info: TypeInfo::Unknown };
    lemma_ask(bounds.world, none, query);
    let typed = to_type(ask(bounds.world, query));
    let ctx = ctx.with_self_type(type_id).expecting(typed.value->0);
    let known = self_symbol_run(typed.world, ctx, type_id);
    steady_self_symbol(typed.world, none, ctx, type_id);
    assert(honest(known.world)) by {
        broadcast use group_steady;

        assert(later(world, cloned.world));
        assert(later(cloned.world, named.world));
        assert(later(named.world, head.world));
        assert(later(head.world, bounds.world));
        assert(later(bounds.world, typed.world));
        assert(later(typed.world, known.world));
    }
    law_self_items(known.world, ctx, block.items@);
}

} // verus!
