//! What an implementation has from the supertraits of its trait: which of them are errors, and
//! that no item of the others is dropped.
use crate::decl::{CallPath, Supertrait, TyDecl, TyTraitDecl, TyTraitInterfaceItem, TyTraitItem};
use crate::diagnostics::{CompileError, ErrorEmitted};
use crate::laws::dialogue::answered;
use crate::laws::maps::{
    last_interface_item, last_item, law_extended_map, law_item_map, law_surface_map,
};
use crate::laws::steady_surface::steady_one_supertrait;
use crate::ordered::{ascending, lookup, Key};
use crate::session::{
    ask, chain, chain_ok, done, to_symbol, to_trait, Answer, ContextView, QueryView, Reply, Run,
    World,
};
use crate::supertraits::{
    each_supertrait_run, one_supertrait_run, supertraits_run, with_nested_run, SupertraitItems,
};
use crate::surface::{item_map, retrieve_run, surface_map};
use crate::types::{item_rank, TypeId};
use vstd::prelude::*;

verus! {

/// Whether the items of supertraits stand in the order of their keys.
pub open spec fn ordered(items: SupertraitItems) -> bool {
    &&& ascending(items.interface_items)
    &&& ascending(items.impld_items)
}

/// Whether a key of some items is a key of others.
pub open spec fn keeps_key(
    before: SupertraitItems,
    after: SupertraitItems,
    rank: Seq<int>,
) -> bool {
    &&& lookup(before.interface_items, rank) is Some ==> lookup(
        after.interface_items,
        rank,
    ) is Some
    &&& lookup(before.impld_items, rank) is Some ==> lookup(after.impld_items, rank) is Some
}

/// Whether each key of some items is a key of others, which stand in the order of their keys.
pub open spec fn keeps_keys(before: SupertraitItems, after: SupertraitItems) -> bool {
    &&& ordered(after)
    &&& forall|rank: Seq<int>| #[trigger] keeps_key(before, after, rank)
}

/// The one of two values that counts, of which the first comes later.
pub open spec fn over<T>(later: Option<T>, earlier: Option<T>) -> Option<T> {
    if later is Some {
        later
    } else {
        earlier
    }
}

proof fn lemma_extended(items: SupertraitItems, more: SupertraitItems)
    requires
        ordered(items),
        ordered(more),
    ensures
        keeps_keys(items, items.extended(more)),
        keeps_keys(more, items.extended(more)),
        forall|rank: Seq<int>|
            #![trigger lookup(items.extended(more).interface_items, rank)]
            lookup(items.extended(more).interface_items, rank) == over(
                lookup(more.interface_items, rank),
                lookup(items.interface_items, rank),
            ),
        forall|rank: Seq<int>|
            #![trigger lookup(items.extended(more).impld_items, rank)]
            lookup(items.extended(more).impld_items, rank) == over(
                lookup(more.impld_items, rank),
                lookup(items.impld_items, rank),
            ),
{
    let both = items.extended(more);
    law_extended_map(items.interface_items, more.interface_items, seq![]);
    law_extended_map(items.impld_items, more.impld_items, seq![]);
    assert forall|rank: Seq<int>|
        #![trigger lookup(both.interface_items, rank)]
        lookup(both.interface_items, rank) == over(
            lookup(more.interface_items, rank),
            lookup(items.interface_items, rank),
        ) by {
        law_extended_map(items.interface_items, more.interface_items, rank);
    }
    assert forall|rank: Seq<int>|
        #![trigger lookup(both.impld_items, rank)]
        lookup(both.impld_items, rank) == over(
            lookup(more.impld_items, rank),
            lookup(items.impld_items, rank),
        ) by {
        law_extended_map(items.impld_items, more.impld_items, rank);
    }
}

/// The items that a trait has of its own for a type.
pub open spec fn own_items(
    trait_decl: TyTraitDecl,
    items: Seq<TyTraitItem>,
    self_type: TypeId,
) -> SupertraitItems {
    SupertraitItems {
        interface_items: surface_map(trait_decl.interface_surface@, self_type),
        impld_items: item_map(items, self_type),
    }
}

proof fn lemma_own_items(
    trait_decl: TyTraitDecl,
    items: Seq<TyTraitItem>,
    self_type: TypeId,
)
    ensures
        ordered(own_items(trait_decl, items, self_type)),
{
    law_surface_map(trait_decl.interface_surface@, self_type, seq![], self_type);
    law_item_map(items, self_type, seq![], self_type);
}

/// Going through supertraits drops no key that was collected before.
pub proof fn law_supertraits_keep_keys(
    world: World,
    ctx: ContextView,
    supertraits: Seq<Supertrait>,
    items: SupertraitItems,
    i: int,
)
    requires
        ordered(items),
    ensures
        ({
            let after = each_supertrait_run(world, ctx, supertraits, items, i);
            after.value is Some ==> {
                &&& after.value->0 is Ok
                &&& keeps_keys(items, after.value->0->Ok_0)
            }
        }),
    decreases world.replies.len(), supertraits.len() - i,
{
    if i < supertraits.len() {
        let first = one_supertrait_run(world, ctx, supertraits[i], items);
        steady_one_supertrait(world, Seq::empty(), ctx, supertraits[i], items);
        law_supertrait_keeps_keys(world, ctx, supertraits[i], items);
        if let Some(next) = first.value {
            law_supertraits_keep_keys(first.world, ctx, supertraits, next, i + 1);
            let last = each_supertrait_run(world, ctx, supertraits, items, i);
            if last.value is Some {
                let all = last.value->0->Ok_0;
                assert forall|rank: Seq<int>| #[trigger] keeps_key(items, all, rank) by {
                    assert(keeps_key(items, next, rank));
                    assert(keeps_key(next, all, rank));
                }
            }
        }
    }
}

/// Going through one supertrait drops no key that was collected before.
pub proof fn law_supertrait_keeps_keys(
    world: World,
    ctx: ContextView,
    supertrait: Supertrait,
    items: SupertraitItems,
)
    requires
        ordered(items),
    ensures
        ({
            let after = one_supertrait_run(world, ctx, supertrait, items);
            after.value is Some ==> keeps_keys(items, after.value->0)
        }),
    decreases world.replies.len(), 0int,
{
    assert forall|rank: Seq<int>| #[trigger] keeps_key(items, items, rank) by {}
    if supertrait.name.prefixes is None {
        let found = to_symbol(
            ask(world, QueryView::ResolveCallPath { ctx, path: supertrait.name }),
        );
        if let Some(Ok(TyDecl::TraitDecl { decl_id })) = found.value {
            let got = to_trait(ask(found.world, QueryView::GetTrait { id: decl_id }));
            if let Some(trait_decl) = got.value {
                lemma_nested_keeps_keys(got.world, ctx, trait_decl, supertrait.name, items);
            }
        }
    }
}

proof fn lemma_nested_keeps_keys(
    world: World,
    ctx: ContextView,
    trait_decl: TyTraitDecl,
    path: CallPath,
    items: SupertraitItems,
)
    requires
        ordered(items),
    ensures
        ({
            let after = with_nested_run(world, ctx, trait_decl, path, items);
            after.value is Some ==> keeps_keys(items, after.value->0)
        }),
    decreases world.replies.len(), 0int,
{
    let own = retrieve_run(world, trait_decl@, ctx, ctx.self_type, path);
    if own.value is Some {
        let none = SupertraitItems::empty();
        let nested = each_supertrait_run(own.world, ctx, trait_decl.supertraits@, none, 0);
        law_supertraits_keep_keys(own.world, ctx, trait_decl.supertraits@, none, 0);
        let listed = world.replies[0].answer->Items_0@;
        let of_trait = own_items(trait_decl, listed, ctx.self_type);
        lemma_own_items(trait_decl, listed, ctx.self_type);
        lemma_extended(items, of_trait);
        let with_own = items.extended(of_trait);
        if nested.value is Some {
            let more = nested.value->0->Ok_0;
            lemma_extended(with_own, more);
            assert forall|rank: Seq<int>| #[trigger]
                keeps_key(items, with_own.extended(more), rank) by {
                assert(keeps_key(items, with_own, rank));
                assert(keeps_key(with_own, with_own.extended(more), rank));
            }
        }
    }
}

/// The items of a trait come to three layers. Those collected before stay, the trait's own
/// come over them, and those of its supertraits over both, unless there are errors about its
/// supertraits. Of its own, the interface items are those of its declaration, and the others
/// those that the self type has for it.
pub proof fn law_nested_supertraits(
    world: World,
    ctx: ContextView,
    trait_decl: TyTraitDecl,
    path: CallPath,
    items: SupertraitItems,
    listed: Vec<TyTraitItem>,
    nested: Run<Result<SupertraitItems, ErrorEmitted>>,
    name: Seq<char>,
    of: TypeId,
)
    requires
        ordered(items),
        answered(world, seq![Answer::Items(listed)]),
        nested == supertraits_run(
            world.hear(
                QueryView::ItemsForTypeAndTrait {
                    ctx,
                    type_id: ctx.self_type,
                    trait_name: path,
                },
            ),
            ctx,
            trait_decl.supertraits@,
        ),
        nested.value is Some,
    ensures
        ({
            let after = with_nested_run(world, ctx, trait_decl, path, items);
            let rank = item_rank(name, of);
            let own_interface_item = if of == ctx.self_type {
                last_interface_item(trait_decl.interface_surface@, name)
            } else {
                None
            };
            let own_item = if of == ctx.self_type {
                last_item(listed@, name)
            } else {
                None
            };
            &&& after.world == nested.world
            &&& after.value is Some
            &&& keeps_keys(items, after.value->0)
            &&& lookup(after.value->0.interface_items, rank) == match nested.value->0 {
                Ok(more) => over(
                    lookup(more.interface_items, rank),
                    over(own_interface_item, lookup(items.interface_items, rank)),
                ),
                Err(_) => over(own_interface_item, lookup(items.interface_items, rank)),
            }
            &&& lookup(after.value->0.impld_items, rank) == match nested.value->0 {
                Ok(more) => over(
                    lookup(more.impld_items, rank),
                    over(own_item, lookup(items.impld_items, rank)),
                ),
                Err(_) => over(own_item, lookup(items.impld_items, rank)),
            }
        }),
{
    let own = retrieve_run(world, trait_decl@, ctx, ctx.self_type, path);
    let none = SupertraitItems::empty();
    law_supertraits_keep_keys(own.world, ctx, trait_decl.supertraits@, none, 0);
    lemma_nested_keeps_keys(world, ctx, trait_decl, path, items);
    let of_trait = own_items(trait_decl, listed@, ctx.self_type);
    lemma_own_items(trait_decl, listed@, ctx.self_type);
    lemma_extended(items, of_trait);
    law_surface_map(trait_decl.interface_surface@, ctx.self_type, name, of);
    law_item_map(listed@, ctx.self_type, name, of);
    let with_own = items.extended(of_trait);
    let rank = item_rank(name, of);
    assert(lookup(with_own.interface_items, rank) == over(
        lookup(of_trait.interface_items, rank),
        lookup(items.interface_items, rank),
    ));
    assert(lookup(with_own.impld_items, rank) == over(
        lookup(of_trait.impld_items, rank),
        lookup(items.impld_items, rank),
    ));
    if let Ok(more) = nested.value->0 {
        lemma_extended(with_own, more);
        assert(lookup(with_own.extended(more).interface_items, rank) == over(
            lookup(more.interface_items, rank),
            lookup(with_own.interface_items, rank),
        ));
        assert(lookup(with_own.extended(more).impld_items, rank) == over(
            lookup(more.impld_items, rank),
            lookup(with_own.impld_items, rank),
        ));
    }
}

/// A supertrait that is named by a path with prefixes is one error. Nothing is asked about it,
/// and it adds nothing.
pub proof fn law_supertrait_by_path(
    world: World,
    ctx: ContextView,
    supertrait: Supertrait,
    items: SupertraitItems,
)
    requires
        supertrait.name.prefixes is Some,
    ensures
        one_supertrait_run(world, ctx, supertrait, items) == done(
            world.emit_plain(
                CompileError::UnimplementedWithHelp(
                    "Using module paths to define supertraits is not supported yet.",
                    "try importing the trait with a \"use\" statement instead",
                    supertrait.span,
                ),
            ),
            items,
        ),
{
}

/// A supertrait with type parameters is one error, and adds nothing.
pub proof fn law_generic_supertrait(
    world: World,
    ctx: ContextView,
    supertrait: Supertrait,
    items: SupertraitItems,
    decl_id: u64,
    trait_decl: TyTraitDecl,
)
    requires
        supertrait.name.prefixes is None,
        answered(
            world,
            seq![Answer::Symbol(TyDecl::TraitDecl { decl_id }), Answer::Trait(trait_decl)],
        ),
        trait_decl.type_parameters@.len() > 0,
    ensures
        one_supertrait_run(world, ctx, supertrait, items) == done(
            world.hear(
                QueryView::ResolveCallPath { ctx, path: supertrait.name },
            ).hear(
                QueryView::GetTrait { id: decl_id },
            ).emit_plain(
                CompileError::Unimplemented(
                    "Using generic traits as supertraits is not supported yet.",
                    supertrait.name.span,
                ),
            ),
            items,
        ),
{
}

/// A supertrait without type parameters adds its own items and those of its supertraits.
pub proof fn law_supertrait(
    world: World,
    ctx: ContextView,
    supertrait: Supertrait,
    items: SupertraitItems,
    decl_id: u64,
    trait_decl: TyTraitDecl,
)
    requires
        supertrait.name.prefixes is None,
        answered(
            world,
            seq![Answer::Symbol(TyDecl::TraitDecl { decl_id }), Answer::Trait(trait_decl)],
        ),
        trait_decl.type_parameters@.len() == 0,
    ensures
        one_supertrait_run(world, ctx, supertrait, items) == with_nested_run(
            world.hear(
                QueryView::ResolveCallPath { ctx, path: supertrait.name },
            ).hear(
                QueryView::GetTrait { id: decl_id },
            ),
            ctx,
            trait_decl,
            supertrait.name,
            items,
        ),
{
}

/// A supertrait that names an ABI adds nothing, and is no error.
pub proof fn law_abi_as_supertrait(
    world: World,
    ctx: ContextView,
    supertrait: Supertrait,
    items: SupertraitItems,
    decl_id: u64,
)
    requires
        supertrait.name.prefixes is None,
        answered(world, seq![Answer::Symbol(TyDecl::AbiDecl { decl_id })]),
    ensures
        one_supertrait_run(world, ctx, supertrait, items) == done(
            world.hear(QueryView::ResolveCallPath { ctx, path: supertrait.name }),
            items,
        ),
{
}

/// A supertrait that cannot be resolved, or names neither a trait nor an ABI, is one error,
/// and adds nothing.
pub proof fn law_unknown_supertrait(
    world: World,
    ctx: ContextView,
    supertrait: Supertrait,
    items: SupertraitItems,
    found: Answer,
)
    requires
        supertrait.name.prefixes is None,
        answered(world, seq![found]),
        found is Failed || found is Symbol,
        found is Symbol ==> found->Symbol_0 !is TraitDecl && found->Symbol_0 !is AbiDecl,
    ensures
        one_supertrait_run(world, ctx, supertrait, items) == done(
            world.hear(
                QueryView::ResolveCallPath { ctx, path: supertrait.name },
            ).emit_plain(
                CompileError::TraitNotFound {
                    name: supertrait.name.suffix.name,
                    span: supertrait.name.span,
                },
            ),
            items,
        ),
{
}

/// The items of supertraits are collected from nothing, through all of them. An error about
/// one of them, or about one of theirs, makes it an error.
pub proof fn law_supertraits(world: World, ctx: ContextView, supertraits: Seq<Supertrait>)
    ensures
        ({
            let none = SupertraitItems { interface_items: Seq::empty(), impld_items: Seq::empty() };
            let each = each_supertrait_run(world, ctx, supertraits, none, 0);
            let after = supertraits_run(world, ctx, supertraits);
            &&& after.world == each.world
            &&& after.value is Some <==> each.value is Some
            &&& after.value is Some ==> after.value->0 == if each.world.errors.len()
                > world.errors.len() {
                Err(ErrorEmitted)
            } else {
                each.value->0
            }
        }),
{
}

/// Each supertrait is gone through, in their order, also behind one with errors. One
/// supertrait more changes nothing for those before it.
pub proof fn law_supertraits_one_more(
    world: World,
    ctx: ContextView,
    supertraits: Seq<Supertrait>,
    last: Supertrait,
    items: SupertraitItems,
)
    ensures
        each_supertrait_run(world, ctx, Seq::empty(), items, 0) == done(
            world,
            Ok::<_, ErrorEmitted>(items),
        ),
        each_supertrait_run(world, ctx, supertraits.push(last), items, 0) == chain_ok(
            each_supertrait_run(world, ctx, supertraits, items, 0),
            |world: World, items: SupertraitItems|
                chain(
                    one_supertrait_run(world, ctx, last, items),
                    |world: World, items: SupertraitItems|
                        done(world, Ok::<_, ErrorEmitted>(items)),
                ),
        ),
{
    lemma_supertraits_one_more(world, ctx, supertraits, last, items, 0);
}

/// The same from the `i`-th on.
proof fn lemma_supertraits_one_more(
    world: World,
    ctx: ContextView,
    supertraits: Seq<Supertrait>,
    last: Supertrait,
    items: SupertraitItems,
    i: int,
)
    requires
        0 <= i <= supertraits.len(),
    ensures
        each_supertrait_run(world, ctx, supertraits.push(last), items, i) == chain_ok(
            each_supertrait_run(world, ctx, supertraits, items, i),
            |world: World, items: SupertraitItems|
                chain(
                    one_supertrait_run(world, ctx, last, items),
                    |world: World, items: SupertraitItems|
                        done(world, Ok::<_, ErrorEmitted>(items)),
                ),
        ),
    decreases supertraits.len() - i,
{
    let none = Seq::<Reply>::empty();
    if i < supertraits.len() {
        assert(supertraits.push(last)[i] == supertraits[i]);
        let first = one_supertrait_run(world, ctx, supertraits[i], items);
        steady_one_supertrait(world, none, ctx, supertraits[i], items);
        if first.value is Some {
            let next = first.value->0;
            lemma_supertraits_one_more(first.world, ctx, supertraits, last, next, i + 1);
        }
    } else {
        steady_one_supertrait(world, none, ctx, last, items);
        let first = one_supertrait_run(world, ctx, last, items);
        if first.value is Some {
            let next = each_supertrait_run(
                first.world,
                ctx,
                supertraits.push(last),
                first.value->0,
                i + 1,
            );
            assert(next == done(first.world, Ok::<_, ErrorEmitted>(first.value->0)));
        }
    }
}

proof fn lemma_supertraits_split(
    world: World,
    ctx: ContextView,
    supertraits: Seq<Supertrait>,
    items: SupertraitItems,
    i: int,
    j: int,
)
    requires
        0 <= i <= j <= supertraits.len(),
    ensures
        each_supertrait_run(world, ctx, supertraits, items, i) == chain_ok(
            each_supertrait_run(world, ctx, supertraits.take(j), items, i),
            |world: World, items: SupertraitItems|
                each_supertrait_run(world, ctx, supertraits, items, j),
        ),
    decreases j - i,
{
    if i < j {
        assert(supertraits.take(j)[i] == supertraits[i]);
        let first = one_supertrait_run(world, ctx, supertraits[i], items);
        steady_one_supertrait(world, Seq::empty(), ctx, supertraits[i], items);
        if first.value is Some {
            lemma_supertraits_split(first.world, ctx, supertraits, first.value->0, i + 1, j);
        }
    }
}

/// Whether each interface item of a trait is found under its name, for the self type, among
/// the interface items collected, and each of the items listed among the others.
pub open spec fn holds_items_of(
    collected: SupertraitItems,
    trait_decl: TyTraitDecl,
    listed: Seq<TyTraitItem>,
    self_type: TypeId,
) -> bool {
    let surface = trait_decl.interface_surface@;
    &&& forall|k: int|
        0 <= k < surface.len() ==> lookup(
            collected.interface_items,
            item_rank((#[trigger] surface[k]).decl_ref().name.name@, self_type),
        ) is Some
    &&& forall|k: int|
        0 <= k < listed.len() ==> lookup(
            collected.impld_items,
            item_rank((#[trigger] listed[k]).decl_ref().name.name@, self_type),
        ) is Some
}

proof fn lemma_has_interface_item(items: Seq<TyTraitInterfaceItem>, k: int)
    requires
        0 <= k < items.len(),
    ensures
        last_interface_item(items, items[k].decl_ref().name.name@) is Some,
    decreases items.len(),
{
    if k < items.len() - 1 {
        lemma_has_interface_item(items.drop_last(), k);
    }
}

proof fn lemma_has_item(items: Seq<TyTraitItem>, k: int)
    requires
        0 <= k < items.len(),
    ensures
        last_item(items, items[k].decl_ref().name.name@) is Some,
    decreases items.len(),
{
    if k < items.len() - 1 {
        lemma_has_item(items.drop_last(), k);
    }
}

proof fn lemma_nested_adds(
    world: World,
    ctx: ContextView,
    trait_decl: TyTraitDecl,
    path: CallPath,
    items: SupertraitItems,
    listed: Vec<TyTraitItem>,
)
    requires
        ordered(items),
        answered(world, seq![Answer::Items(listed)]),
        with_nested_run(world, ctx, trait_decl, path, items).value is Some,
    ensures
        holds_items_of(
            with_nested_run(world, ctx, trait_decl, path, items).value->0,
            trait_decl,
            listed@,
            ctx.self_type,
        ),
{
    let after = with_nested_run(world, ctx, trait_decl, path, items);
    let surface = trait_decl.interface_surface@;
    let heard = world.hear(
        QueryView::ItemsForTypeAndTrait { ctx, type_id: ctx.self_type, trait_name: path },
    );
    let nested = supertraits_run(heard, ctx, trait_decl.supertraits@);
    assert(nested.value is Some);
    let collected = after.value->0;
    let self_type = ctx.self_type;
    assert forall|k: int| 0 <= k < surface.len() implies lookup(
        collected.interface_items,
        item_rank((#[trigger] surface[k]).decl_ref().name.name@, self_type),
    ) is Some by {
        let name = surface[k].decl_ref().name.name@;
        lemma_has_interface_item(surface, k);
        law_nested_supertraits(
            world,
            ctx,
            trait_decl,
            path,
            items,
            listed,
            nested,
            name,
            self_type,
        );
    }
    assert forall|k: int| 0 <= k < listed@.len() implies lookup(
        collected.impld_items,
        item_rank((#[trigger] listed@[k]).decl_ref().name.name@, self_type),
    ) is Some by {
        let name = listed@[k].decl_ref().name.name@;
        lemma_has_item(listed@, k);
        law_nested_supertraits(
            world,
            ctx,
            trait_decl,
            path,
            items,
            listed,
            nested,
            name,
            self_type,
        );
    }
}

/// If the items of supertraits are collected, each of the supertraits is among them: of the
/// `j`-th, whose trait is the one that the replies to the queries about it name, each
/// interface item and each item that the self type has for it is found under its name, and so
/// is whatever was collected for its own supertraits.
pub proof fn law_no_supertrait_is_dropped(
    world: World,
    ctx: ContextView,
    supertraits: Seq<Supertrait>,
    collected: SupertraitItems,
    j: int,
    before: World,
    decl_id: u64,
    trait_decl: TyTraitDecl,
    listed: Vec<TyTraitItem>,
)
    requires
        supertraits_run(world, ctx, supertraits).value == Some(
            Ok::<_, ErrorEmitted>(collected),
        ),
        0 <= j < supertraits.len(),
        before == supertraits_run(world, ctx, supertraits.take(j)).world,
        supertraits[j].name.prefixes is None,
        answered(
            before,
            seq![
                Answer::Symbol(TyDecl::TraitDecl { decl_id }),
                Answer::Trait(trait_decl),
                Answer::Items(listed),
            ],
        ),
        trait_decl.type_parameters@.len() == 0,
    ensures
        ({
            let nested = supertraits_run(
                before.hear(
                    QueryView::ResolveCallPath { ctx, path: supertraits[j].name },
                ).hear(
                    QueryView::GetTrait { id: decl_id },
                ).hear(
                    QueryView::ItemsForTypeAndTrait {
                        ctx,
                        type_id: ctx.self_type,
                        trait_name: supertraits[j].name,
                    },
                ),
                ctx,
                trait_decl.supertraits@,
            );
            &&& holds_items_of(collected, trait_decl, listed@, ctx.self_type)
            &&& nested.value is Some
            &&& nested.value->0 is Ok ==> keeps_keys(nested.value->0->Ok_0, collected)
        }),
{
    let none = SupertraitItems::empty();
    let first = each_supertrait_run(world, ctx, supertraits.take(j), none, 0);
    lemma_supertraits_split(world, ctx, supertraits, none, 0, j);
    law_supertraits_keep_keys(world, ctx, supertraits.take(j), none, 0);
    let items = first.value->0->Ok_0;
    let one = one_supertrait_run(before, ctx, supertraits[j], items);
    steady_one_supertrait(before, Seq::empty(), ctx, supertraits[j], items);
    law_supertrait(before, ctx, supertraits[j], items, decl_id, trait_decl);
    let found = before.hear(
        QueryView::ResolveCallPath { ctx, path: supertraits[j].name },
    ).hear(QueryView::GetTrait { id: decl_id });
    assert(answered(found, seq![Answer::Items(listed)]));
    let next = one.value->0;
    assert(one.value is Some);
    lemma_nested_adds(found, ctx, trait_decl, supertraits[j].name, items, listed);
    law_supertrait_keeps_keys(before, ctx, supertraits[j], items);
    law_supertraits_keep_keys(one.world, ctx, supertraits, next, j + 1);
    assert(keeps_keys(next, collected));
    let surface = trait_decl.interface_surface@;
    assert forall|k: int| 0 <= k < surface.len() implies lookup(
        collected.interface_items,
        item_rank((#[trigger] surface[k]).decl_ref().name.name@, ctx.self_type),
    ) is Some by {
        let rank = item_rank(surface[k].decl_ref().name.name@, ctx.self_type);
        assert(keeps_key(next, collected, rank));
    }
    assert forall|k: int| 0 <= k < listed@.len() implies lookup(
        collected.impld_items,
        item_rank((#[trigger] listed@[k]).decl_ref().name.name@, ctx.self_type),
    ) is Some by {
        let rank = item_rank(listed@[k].decl_ref().name.name@, ctx.self_type);
        assert(keeps_key(next, collected, rank));
    }
    lemma_nested_included(found, ctx, trait_decl, supertraits[j].name, items, listed);
    let heard = found.hear(
        QueryView::ItemsForTypeAndTrait {
            ctx,
            type_id: ctx.self_type,
            trait_name: supertraits[j].name,
        },
    );
    let nested = supertraits_run(heard, ctx, trait_decl.supertraits@);
    if nested.value->0 is Ok {
        let more = nested.value->0->Ok_0;
        assert forall|rank: Seq<int>| #[trigger] keeps_key(more, collected, rank) by {
            assert(keeps_key(more, next, rank));
            assert(keeps_key(next, collected, rank));
        }
    }
}

proof fn lemma_nested_included(
    world: World,
    ctx: ContextView,
    trait_decl: TyTraitDecl,
    path: CallPath,
    items: SupertraitItems,
    listed: Vec<TyTraitItem>,
)
    requires
        ordered(items),
        answered(world, seq![Answer::Items(listed)]),
        with_nested_run(world, ctx, trait_decl, path, items).value is Some,
    ensures
        ({
            let nested = supertraits_run(
                world.hear(
                    QueryView::ItemsForTypeAndTrait {
                        ctx,
                        type_id: ctx.self_type,
                        trait_name: path,
                    },
                ),
                ctx,
                trait_decl.supertraits@,
            );
            &&& nested.value is Some
            &&& nested.value->0 is Ok ==> keeps_keys(
                nested.value->0->Ok_0,
                with_nested_run(world, ctx, trait_decl, path, items).value->0,
            )
        }),
{
    let own = retrieve_run(world, trait_decl@, ctx, ctx.self_type, path);
    let none = SupertraitItems::empty();
    law_supertraits_keep_keys(own.world, ctx, trait_decl.supertraits@, none, 0);
    let of_trait = own_items(trait_decl, listed@, ctx.self_type);
    lemma_own_items(trait_decl, listed@, ctx.self_type);
    lemma_extended(items, of_trait);
    let nested = supertraits_run(own.world, ctx, trait_decl.supertraits@);
    if nested.value->0 is Ok {
        lemma_extended(items.extended(of_trait), nested.value->0->Ok_0);
    }
}

} // verus!
