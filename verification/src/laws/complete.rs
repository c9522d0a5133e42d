//! An implementation is complete when nothing that its interface asks for is missing.
use crate::decl::{
    CallPath, ConstantDeclaration, Decl, DeclRef, FunctionDeclaration, FunctionView, ImplItem,
    TraitTypeDeclaration, TyConstantDecl, TyTraitInterfaceItem, TyTraitItem, TyTraitType,
};
use crate::diagnostics::{CompileError, ErrorEmitted, ErrorView};
use crate::ident::{lemma_name_rank_injective, name_rank, Ident, Span};
use crate::impl_items::{admit_const_run, admit_method_run, admit_type_run, interface_name_of};
use crate::implementation::{
    bounds_run, checklist_run, complete_run, fit_item_run, fit_items_run, fitting_of,
    impl_constant_run, impl_members_run, impl_method_run, impl_type_run, impl_types_run,
    implementation_run, known_supertraits_run, missing_errors, surface_item_run, surface_run,
    ChecklistView, Fitting, Implementation,
};
use crate::ordered::{
    ascending, has, keys_of, lemma_drop_key, lemma_lookup, lemma_put, lookup, put, values_of, Key,
};
use crate::session::{ask, done, to_outcome, Answer, ContextView, QueryView, Reply, World};
use crate::supertraits::SupertraitItems;
use crate::types::{item_rank, lemma_item_rank_injective, ItemKey, TypeId, TypeParameter};
use vstd::prelude::*;

verus! {

/// Whether the maps of a checklist stand in order.
pub open spec fn in_order(checklist: ChecklistView) -> bool {
    &&& ascending(checklist.methods)
    &&& ascending(checklist.constants)
    &&& ascending(checklist.types)
    &&& ascending(checklist.interface_items)
    &&& ascending(checklist.impld_items)
}

/// Whether something of that name is still to be implemented.
pub open spec fn missing(checklist: ChecklistView, name: Seq<char>) -> bool {
    ||| lookup(checklist.methods, name_rank(name)) is Some
    ||| lookup(checklist.constants, name_rank(name)) is Some
    ||| lookup(checklist.types, name_rank(name)) is Some
}

/// Whether the interface asks for something of that name.
pub open spec fn asked_for(checklist: ChecklistView, self_type: TypeId, name: Seq<char>) -> bool {
    lookup(checklist.interface_items, item_rank(name, self_type)) is Some
}

/// Whether something of that name is implemented.
pub open spec fn implemented(
    checklist: ChecklistView,
    self_type: TypeId,
    name: Seq<char>,
) -> bool {
    lookup(checklist.impld_items, item_rank(name, self_type)) is Some
}

/// Whether one checklist can come after another: nothing is added to what is to be
/// implemented, what is taken off is implemented, and what is implemented stays so.
pub open spec fn comes_after(
    before: ChecklistView,
    after: ChecklistView,
    self_type: TypeId,
) -> bool {
    &&& in_order(after)
    &&& after.interface_items == before.interface_items
    &&& forall|name: Seq<char>| #[trigger]
        missing(after, name) ==> missing(before, name)
    &&& forall|name: Seq<char>| #[trigger]
        missing(before, name) ==> missing(after, name) || implemented(after, self_type, name)
    &&& forall|name: Seq<char>| #[trigger]
        implemented(before, self_type, name) ==> implemented(after, self_type, name)
}

proof fn lemma_put_item(
    items: Seq<(ItemKey, TyTraitItem)>,
    name: Ident,
    self_type: TypeId,
    item: TyTraitItem,
)
    requires
        ascending(items),
    ensures
        ({
            let after = put(items, ItemKey { name, type_id: self_type }, item);
            &&& ascending(after)
            &&& lookup(after, item_rank(name.name@, self_type)) == Some(item)
            &&& forall|other: Seq<char>|
                lookup(items, #[trigger] item_rank(other, self_type)) is Some ==> lookup(
                    after,
                    item_rank(other, self_type),
                ) is Some
        }),
{
    let key = ItemKey { name, type_id: self_type };
    lemma_put(items, key, item);
    assert(key.rank() == item_rank(name.name@, self_type));
}

proof fn lemma_type_done(
    checklist: ChecklistView,
    name: Ident,
    decl_ref: DeclRef,
    self_type: TypeId,
    from: TypeId,
    to: TypeId,
)
    requires
        in_order(checklist),
    ensures
        comes_after(
            checklist,
            checklist.type_done(name, decl_ref, self_type, from, to),
            self_type,
        ),
{
    let after = checklist.type_done(name, decl_ref, self_type, from, to);
    lemma_drop_key(checklist.types, name.rank());
    lemma_put_item(checklist.impld_items, name, self_type, TyTraitItem::Type(decl_ref));
    assert forall|other: Seq<char>| #[trigger] missing(checklist, other) implies missing(
        after,
        other,
    ) || implemented(after, self_type, other) by {
        lemma_name_rank_injective(other, name.name@);
    }
    assert forall|other: Seq<char>| #[trigger] missing(after, other) implies missing(
        checklist,
        other,
    ) by {
        lemma_name_rank_injective(other, name.name@);
    }
}

proof fn lemma_method_done(
    checklist: ChecklistView,
    name: Ident,
    decl_ref: DeclRef,
    self_type: TypeId,
)
    requires
        in_order(checklist),
    ensures
        comes_after(checklist, checklist.method_done(name, decl_ref, self_type), self_type),
{
    let after = checklist.method_done(name, decl_ref, self_type);
    lemma_drop_key(checklist.methods, name.rank());
    lemma_put_item(checklist.impld_items, name, self_type, TyTraitItem::Fn(decl_ref));
    assert forall|other: Seq<char>| #[trigger] missing(checklist, other) implies missing(
        after,
        other,
    ) || implemented(after, self_type, other) by {
        lemma_name_rank_injective(other, name.name@);
    }
    assert forall|other: Seq<char>| #[trigger] missing(after, other) implies missing(
        checklist,
        other,
    ) by {
        lemma_name_rank_injective(other, name.name@);
    }
}

proof fn lemma_constant_done(
    checklist: ChecklistView,
    name: Ident,
    decl_ref: DeclRef,
    self_type: TypeId,
)
    requires
        in_order(checklist),
    ensures
        comes_after(checklist, checklist.constant_done(name, decl_ref, self_type), self_type),
{
    let after = checklist.constant_done(name, decl_ref, self_type);
    lemma_drop_key(checklist.constants, name.rank());
    lemma_put_item(checklist.impld_items, name, self_type, TyTraitItem::Constant(decl_ref));
    assert forall|other: Seq<char>| #[trigger] missing(checklist, other) implies missing(
        after,
        other,
    ) || implemented(after, self_type, other) by {
        lemma_name_rank_injective(other, name.name@);
    }
    assert forall|other: Seq<char>| #[trigger] missing(after, other) implies missing(
        checklist,
        other,
    ) by {
        lemma_name_rank_injective(other, name.name@);
    }
}

proof fn lemma_impl_type(
    world: World,
    ctx: ContextView,
    parsed: TraitTypeDeclaration,
    trait_name: CallPath,
    is_contract: bool,
    checklist: ChecklistView,
)
    requires
        in_order(checklist),
    ensures
        ({
            let after = impl_type_run(world, ctx, parsed, trait_name, is_contract, checklist);
            after.value is Some ==> comes_after(checklist, after.value->0, ctx.self_type)
        }),
{
    reveal(impl_type_run);
    assert forall|name: Ident, decl_ref: DeclRef, from: TypeId, to: TypeId|
        comes_after(
            checklist,
            #[trigger] checklist.type_done(name, decl_ref, ctx.self_type, from, to),
            ctx.self_type,
        ) by {
        lemma_type_done(checklist, name, decl_ref, ctx.self_type, from, to);
    }
}

proof fn lemma_impl_method(
    world: World,
    ctx: ContextView,
    impl_type_parameters: Seq<TypeParameter>,
    parsed: FunctionDeclaration,
    trait_name: CallPath,
    is_contract: bool,
    checklist: ChecklistView,
)
    requires
        in_order(checklist),
    ensures
        ({
            let after = impl_method_run(
                world,
                ctx,
                impl_type_parameters,
                parsed,
                trait_name,
                is_contract,
                checklist,
            );
            after.value is Some ==> comes_after(checklist, after.value->0, ctx.self_type)
        }),
{
    reveal(impl_method_run);
    assert forall|name: Ident, decl_ref: DeclRef|
        comes_after(
            checklist,
            #[trigger] checklist.method_done(name, decl_ref, ctx.self_type),
            ctx.self_type,
        ) by {
        lemma_method_done(checklist, name, decl_ref, ctx.self_type);
    }
}

proof fn lemma_impl_constant(
    world: World,
    ctx: ContextView,
    parsed: ConstantDeclaration,
    trait_name: CallPath,
    is_contract: bool,
    checklist: ChecklistView,
)
    requires
        in_order(checklist),
    ensures
        ({
            let after = impl_constant_run(
                world,
                ctx,
                parsed,
                trait_name,
                is_contract,
                checklist,
            );
            after.value is Some ==> comes_after(checklist, after.value->0, ctx.self_type)
        }),
{
    reveal(impl_constant_run);
    assert forall|name: Ident, decl_ref: DeclRef|
        comes_after(
            checklist,
            #[trigger] checklist.constant_done(name, decl_ref, ctx.self_type),
            ctx.self_type,
        ) by {
        lemma_constant_done(checklist, name, decl_ref, ctx.self_type);
    }
}

proof fn lemma_impl_types(
    world: World,
    ctx: ContextView,
    impl_items: Seq<ImplItem>,
    trait_name: CallPath,
    is_contract: bool,
    checklist: ChecklistView,
    i: int,
)
    requires
        in_order(checklist),
    ensures
        ({
            let after = impl_types_run(
                world,
                ctx,
                impl_items,
                trait_name,
                is_contract,
                checklist,
                i,
            );
            after.value is Some ==> comes_after(checklist, after.value->0, ctx.self_type)
        }),
    decreases impl_items.len() - i,
{
    if i < impl_items.len() {
        let first = match impl_items[i] {
            ImplItem::Type(parsed) => impl_type_run(
                world,
                ctx,
                parsed,
                trait_name,
                is_contract,
                checklist,
            ),
            _ => done(world, checklist),
        };
        if let ImplItem::Type(parsed) = impl_items[i] {
            lemma_impl_type(world, ctx, parsed, trait_name, is_contract, checklist);
        }
        if let Some(next) = first.value {
            lemma_impl_types(
                first.world,
                ctx,
                impl_items,
                trait_name,
                is_contract,
                next,
                i + 1,
            );
        }
    }
}

proof fn lemma_impl_members(
    world: World,
    ctx: ContextView,
    impl_type_parameters: Seq<TypeParameter>,
    impl_items: Seq<ImplItem>,
    trait_name: CallPath,
    is_contract: bool,
    checklist: ChecklistView,
    i: int,
)
    requires
        in_order(checklist),
    ensures
        ({
            let after = impl_members_run(
                world,
                ctx,
                impl_type_parameters,
                impl_items,
                trait_name,
                is_contract,
                checklist,
                i,
            );
            after.value is Some ==> comes_after(checklist, after.value->0, ctx.self_type)
        }),
    decreases impl_items.len() - i,
{
    if i < impl_items.len() {
        let first = match impl_items[i] {
            ImplItem::Fn(parsed) => impl_method_run(
                world,
                ctx,
                impl_type_parameters,
                parsed,
                trait_name,
                is_contract,
                checklist,
            ),
            ImplItem::Constant(parsed) => impl_constant_run(
                world,
                ctx,
                parsed,
                trait_name,
                is_contract,
                checklist,
            ),
            ImplItem::Type(_) => done(world, checklist),
        };
        match impl_items[i] {
            ImplItem::Fn(parsed) => {
                lemma_impl_method(
                    world,
                    ctx,
                    impl_type_parameters,
                    parsed,
                    trait_name,
                    is_contract,
                    checklist,
                );
            },
            ImplItem::Constant(parsed) => {
                lemma_impl_constant(world, ctx, parsed, trait_name, is_contract, checklist);
            },
            ImplItem::Type(_) => {},
        }
        if let Some(next) = first.value {
            lemma_impl_members(
                first.world,
                ctx,
                impl_type_parameters,
                impl_items,
                trait_name,
                is_contract,
                next,
                i + 1,
            );
        }
    }
}

/// The name in the declaration that a reply gives.
pub open spec fn declared_name(reply: Reply) -> Seq<char> {
    match reply.answer {
        Answer::Decl(Decl::TraitFn(decl)) => decl.name.name@,
        Answer::Decl(Decl::Constant(decl)) => decl.name.name@,
        Answer::Decl(Decl::TraitType(decl)) => decl.name.name@,
        _ => Seq::empty(),
    }
}

/// Whether the interface asks for exactly what is to be implemented, and nothing is
/// implemented yet.
pub open spec fn untouched(checklist: ChecklistView, self_type: TypeId) -> bool {
    &&& in_order(checklist)
    &&& checklist.impld_items == Seq::<(ItemKey, TyTraitItem)>::empty()
    &&& forall|name: Seq<char>| #[trigger]
        missing(checklist, name) <==> asked_for(checklist, self_type, name)
}

proof fn lemma_surface_item(
    world: World,
    item: TyTraitInterfaceItem,
    self_type: TypeId,
    checklist: ChecklistView,
)
    requires
        untouched(checklist, self_type),
        surface_item_run(world, item, self_type, checklist).value is Some,
    ensures
        ({
            let after = surface_item_run(world, item, self_type, checklist);
            let next = after.value->0;
            &&& untouched(next, self_type)
            &&& world.replies.len() > 0
            &&& after.world.replies == world.replies.drop_first()
            &&& forall|name: Seq<char>| #[trigger]
                missing(next, name) <==> missing(checklist, name) || name == declared_name(
                    world.replies[0],
                )
        }),
{
    let after = surface_item_run(world, item, self_type, checklist);
    let next = after.value->0;
    let name = declared_name(world.replies[0]);
    let ident = match world.replies[0].answer {
        Answer::Decl(Decl::TraitFn(decl)) => decl.name,
        Answer::Decl(Decl::Constant(decl)) => decl.name,
        Answer::Decl(Decl::TraitType(decl)) => decl.name,
        _ => arbitrary(),
    };
    match item {
        TyTraitInterfaceItem::TraitFn(_) => {
            let decl = world.replies[0].answer->Decl_0->TraitFn_0;
            lemma_put(checklist.methods, decl.name, decl);
        },
        TyTraitInterfaceItem::Constant(_) => {
            let decl = world.replies[0].answer->Decl_0->Constant_0;
            lemma_put(checklist.constants, decl.name, decl);
        },
        TyTraitInterfaceItem::Type(_) => {
            let decl = world.replies[0].answer->Decl_0->TraitType_0;
            lemma_put(checklist.types, decl.name, decl);
        },
    }
    let key = ItemKey { name: ident, type_id: self_type };
    lemma_put(checklist.interface_items, key, item);
    assert(key.rank() == item_rank(name, self_type));
    assert(ident.rank() == name_rank(name));
    assert forall|other: Seq<char>| #[trigger]
        missing(next, other) <==> missing(checklist, other) || other == name by {
        lemma_name_rank_injective(other, name);
    }
    assert forall|other: Seq<char>| #[trigger]
        missing(next, other) <==> asked_for(next, self_type, other) by {
        lemma_item_rank_injective(other, name, self_type, self_type);
        assert(missing(checklist, other) <==> asked_for(checklist, self_type, other));
    }
}

/// Whether one of the first `n` replies declares a name.
pub open spec fn declared(replies: Seq<Reply>, n: int, name: Seq<char>) -> bool {
    exists|k: int| 0 <= k < n && declared_name(#[trigger] replies[k]) == name
}

proof fn lemma_surface(
    world: World,
    interface_surface: Seq<TyTraitInterfaceItem>,
    self_type: TypeId,
    checklist: ChecklistView,
    i: int,
)
    requires
        0 <= i <= interface_surface.len(),
        untouched(checklist, self_type),
        surface_run(world, interface_surface, self_type, checklist, i).value is Some,
    ensures
        ({
            let after = surface_run(world, interface_surface, self_type, checklist, i);
            let last = after.value->0;
            let n = interface_surface.len() - i;
            &&& untouched(last, self_type)
            &&& n <= world.replies.len()
            &&& forall|name: Seq<char>| #[trigger]
                missing(last, name) <==> missing(checklist, name) || declared(
                    world.replies,
                    n,
                    name,
                )
        }),
    decreases interface_surface.len() - i,
{
    let n = interface_surface.len() - i;
    let after = surface_run(world, interface_surface, self_type, checklist, i);
    let last = after.value->0;
    if n > 0 {
        let first = surface_item_run(world, interface_surface[i], self_type, checklist);
        let next = first.value->0;
        let rest = first.world.replies;
        lemma_surface_item(world, interface_surface[i], self_type, checklist);
        lemma_surface(first.world, interface_surface, self_type, next, i + 1);
        assert forall|name: Seq<char>| #[trigger]
            missing(last, name) <==> missing(checklist, name) || declared(
                world.replies,
                n,
                name,
            ) by {
            assert(missing(next, name) <==> missing(checklist, name) || name == declared_name(
                world.replies[0],
            ));
            if declared(rest, n - 1, name) {
                let k = choose|k: int|
                    0 <= k < n - 1 && declared_name(#[trigger] rest[k]) == name;
                assert(declared_name(world.replies[k + 1]) == name);
            }
            if declared(world.replies, n, name) {
                let k = choose|k: int|
                    0 <= k < n && declared_name(#[trigger] world.replies[k]) == name;
                if k > 0 {
                    assert(declared_name(rest[k - 1]) == name);
                }
            }
        }
    }
}

/// Once an impl block was gone through, each name that the interface declares is implemented
/// or missing, and each missing name is one that the interface declares. The names are those
/// in the declarations of the interface items, which the first replies give in order.
pub proof fn law_checklist(world: World, ctx: ContextView, of: Implementation)
    requires
        checklist_run(world, ctx, of).value is Some,
    ensures
        ({
            let checklist = checklist_run(world, ctx, of).value->0;
            let n = of.trait_interface_surface.len() as int;
            &&& in_order(checklist)
            &&& n <= world.replies.len()
            &&& forall|name: Seq<char>| #[trigger]
                declared(world.replies, n, name) ==> missing(checklist, name) || implemented(
                    checklist,
                    ctx.self_type,
                    name,
                )
            &&& forall|name: Seq<char>| #[trigger]
                missing(checklist, name) ==> declared(world.replies, n, name)
        }),
{
    let first = surface_run(
        world,
        of.trait_interface_surface,
        ctx.self_type,
        ChecklistView::empty(),
        0,
    );
    assert(untouched(ChecklistView::empty(), ctx.self_type));
    lemma_surface(
        world,
        of.trait_interface_surface,
        ctx.self_type,
        ChecklistView::empty(),
        0,
    );
    let asked = first.value->0;
    let second = impl_types_run(
        first.world,
        ctx,
        of.impl_items,
        of.trait_name,
        of.is_contract,
        asked,
        0,
    );
    lemma_impl_types(
        first.world,
        ctx,
        of.impl_items,
        of.trait_name,
        of.is_contract,
        asked,
        0,
    );
    lemma_impl_members(
        second.world,
        ctx,
        of.impl_type_parameters,
        of.impl_items,
        of.trait_name,
        of.is_contract,
        second.value->0,
        0,
    );
    let checklist = checklist_run(world, ctx, of).value->0;
    let n = of.trait_interface_surface.len() as int;
    assert forall|name: Seq<char>| #[trigger] declared(world.replies, n, name) implies missing(
        checklist,
        name,
    ) || implemented(checklist, ctx.self_type, name) by {
        assert(missing(asked, name));
        assert(missing(second.value->0, name) || implemented(
            second.value->0,
            ctx.self_type,
            name,
        ));
    }
    assert forall|name: Seq<char>| #[trigger] missing(checklist, name) implies declared(
        world.replies,
        n,
        name,
    ) by {
        assert(missing(second.value->0, name));
        assert(missing(asked, name));
        assert(!missing(ChecklistView::empty(), name));
    }
}

proof fn lemma_fit_items(
    world: World,
    ctx: ContextView,
    trait_items: Seq<TyTraitItem>,
    fitting: Fitting,
    all_items: Seq<TyTraitItem>,
    i: int,
)
    requires
        0 <= i <= trait_items.len(),
    ensures
        ({
            let after = fit_items_run(world, ctx, trait_items, fitting, all_items, i);
            after.value is Some && after.value->0 is Ok ==> {
                let items = after.value->0->Ok_0;
                &&& items.len() == all_items.len() + trait_items.len() - i
                &&& all_items.is_prefix_of(items)
            }
        }),
    decreases trait_items.len() - i,
{
    if i < trait_items.len() {
        let first = fit_item_run(world, ctx, trait_items[i], fitting);
        if let Some(Ok(item)) = first.value {
            lemma_fit_items(
                first.world,
                ctx,
                trait_items,
                fitting,
                all_items.push(item),
                i + 1,
            );
            let after = fit_items_run(world, ctx, trait_items, fitting, all_items, i);
            if after.value is Some && after.value->0 is Ok {
                let items = after.value->0->Ok_0;
                assert forall|k: int| 0 <= k < all_items.len() implies all_items[k]
                    == items[k] by {
                    assert(all_items.push(item)[k] == items[k]);
                }
            }
        }
    }
}

/// Whether nothing is left to be implemented.
pub open spec fn is_complete(checklist: ChecklistView) -> bool {
    checklist.methods.len() == 0 && checklist.constants.len() == 0 && checklist.types.len() == 0
}

/// An implementation whose provided items could be fitted is accepted exactly if nothing is
/// left on the checklist. It then has the items of the impl block, in the order of their
/// names, and behind them one for each item that the trait provides. What is left is emitted:
/// at most one error each for the methods, the constants and the types.
pub proof fn law_complete(
    world: World,
    ctx: ContextView,
    of: Implementation,
    checklist: ChecklistView,
    inherited: SupertraitItems,
)
    ensures
        ({
            let fitting = fitting_of(of, checklist, inherited);
            let own = values_of(checklist.impld_items);
            let fitted = fit_items_run(world, ctx, of.trait_items, fitting, own, 0);
            let after = complete_run(world, ctx, of, checklist, inherited);
            fitted.value is Some && fitted.value->0 is Ok ==> {
                &&& after.value is Some
                &&& after.value->0 is Ok <==> is_complete(checklist)
                &&& after.world.errors == fitted.world.errors + missing_errors(
                    checklist,
                    of.block_span,
                )
                &&& after.value->0 is Ok ==> {
                    let items = after.value->0->Ok_0;
                    &&& items.len() == own.len() + of.trait_items.len()
                    &&& own.is_prefix_of(items)
                }
            }
        }),
{
    let fitting = fitting_of(of, checklist, inherited);
    let own = values_of(checklist.impld_items);
    lemma_fit_items(world, ctx, of.trait_items, fitting, own, 0);
}

/// The state in which an implementation is held against its checklist: the supertraits and
/// the bounds of the type arguments are behind it.
pub open spec fn before_checklist(world: World, ctx: ContextView, of: Implementation) -> World {
    let met = to_outcome(
        ask(
            world,
            QueryView::CheckTraitConstraints {
                ctx,
                type_id: ctx.self_type,
                supertraits: of.trait_supertraits,
                span: of.block_span,
            },
        ),
    );
    let bounds = bounds_run(
        met.world,
        ctx,
        of.trait_type_arguments,
        of.trait_type_parameters,
        0,
    );
    known_supertraits_run(bounds.world, ctx, of).world
}

/// An implementation that is accepted has an item for each name that its interface declares:
/// the one that the impl block defines under that name.
pub proof fn law_accepted_implementation(world: World, ctx: ContextView, of: Implementation)
    requires
        implementation_run(world, ctx, of).value is Some,
        implementation_run(world, ctx, of).value->0 is Ok,
    ensures
        ({
            let items = implementation_run(world, ctx, of).value->0->Ok_0;
            let start = before_checklist(world, ctx, of);
            let checklist = checklist_run(start, ctx, of).value->0;
            let n = of.trait_interface_surface.len() as int;
            &&& checklist_run(start, ctx, of).value is Some
            &&& n <= start.replies.len()
            &&& forall|name: Seq<char>| #[trigger]
                declared(start.replies, n, name) ==> implemented(
                    checklist,
                    ctx.self_type,
                    name,
                ) && items.contains(
                    lookup(checklist.impld_items, item_rank(name, ctx.self_type))->0,
                )
        }),
{
    let items = implementation_run(world, ctx, of).value->0->Ok_0;
    let start = before_checklist(world, ctx, of);
    let checked = checklist_run(start, ctx, of);
    let checklist = checked.value->0;
    let n = of.trait_interface_surface.len() as int;
    law_checklist(start, ctx, of);
    let met = to_outcome(
        ask(
            world,
            QueryView::CheckTraitConstraints {
                ctx,
                type_id: ctx.self_type,
                supertraits: of.trait_supertraits,
                span: of.block_span,
            },
        ),
    );
    let bounds = bounds_run(
        met.world,
        ctx,
        of.trait_type_arguments,
        of.trait_type_parameters,
        0,
    );
    let inherited = known_supertraits_run(bounds.world, ctx, of).value->0->Ok_0;
    assert(implementation_run(world, ctx, of) == complete_run(
        checked.world,
        ctx,
        of,
        checklist,
        inherited,
    ));
    law_complete(checked.world, ctx, of, checklist, inherited);
    let own = values_of(checklist.impld_items);
    assert forall|name: Seq<char>| #[trigger] declared(start.replies, n, name) implies implemented(
        checklist,
        ctx.self_type,
        name,
    ) && items.contains(lookup(checklist.impld_items, item_rank(name, ctx.self_type))->0) by {
        let rank = item_rank(name, ctx.self_type);
        assert(!missing(checklist, name)) by {
            lemma_lookup(checklist.methods, name_rank(name));
            lemma_lookup(checklist.constants, name_rank(name));
            lemma_lookup(checklist.types, name_rank(name));
        }
        lemma_lookup(checklist.impld_items, rank);
        let k = choose|k: int|
            0 <= k < checklist.impld_items.len() && (
            #[trigger] checklist.impld_items[k]).0.rank() == rank;
        assert(own[k] == lookup(checklist.impld_items, rank)->0);
        assert(items[k] == own[k]);
    }
}

/// What is implemented cannot be defined again: neither a method, nor a constant, nor an
/// associated type of its name is let in, whatever else the impl block has taken off the
/// checklist meanwhile. The error names the one that comes second.
pub proof fn law_second_definition(
    world: World,
    ctx: ContextView,
    trait_name: CallPath,
    is_contract: bool,
    before: ChecklistView,
    after: ChecklistView,
    impl_type_parameters: Seq<TypeParameter>,
    method: FunctionView,
    constant: TyConstantDecl,
    ty: TyTraitType,
)
    requires
        comes_after(before, after, ctx.self_type),
        implemented(before, ctx.self_type, method.name.name@),
        constant.name.name@ == method.name.name@,
        ty.name.name@ == method.name.name@,
    ensures
        admit_method_run(
            world,
            ctx,
            impl_type_parameters,
            method,
            trait_name,
            is_contract,
            after.impld_items,
            after.methods,
        ) == done(
            world.emit_plain(
                CompileError::MultipleDefinitionsOfFunction {
                    name: method.name,
                    span: method.name.span,
                },
            ),
            Err::<FunctionView, _>(ErrorEmitted),
        ),
        admit_const_run(
            world,
            ctx,
            constant,
            trait_name,
            is_contract,
            after.impld_items,
            after.constants,
        ) == done(
            world.emit_plain(
                CompileError::MultipleDefinitionsOfConstant {
                    name: constant.name,
                    span: constant.name.span,
                },
            ),
            Err::<TyConstantDecl, _>(ErrorEmitted),
        ),
        admit_type_run(
            world,
            ctx,
            ty,
            trait_name,
            is_contract,
            after.impld_items,
            after.types,
        ) == done(
            world.emit_plain(
                CompileError::MultipleDefinitionsOfType { name: ty.name, span: ty.name.span },
            ),
            Err::<TyTraitType, _>(ErrorEmitted),
        ),
{
    assert(implemented(after, ctx.self_type, method.name.name@));
}

/// What an interface does not ask for, or not any more, cannot be implemented.
pub proof fn law_not_asked_for(
    world: World,
    ctx: ContextView,
    trait_name: CallPath,
    is_contract: bool,
    checklist: ChecklistView,
    impl_type_parameters: Seq<TypeParameter>,
    method: FunctionView,
    constant: TyConstantDecl,
    ty: TyTraitType,
)
    requires
        !implemented(checklist, ctx.self_type, method.name.name@),
        !missing(checklist, method.name.name@),
        constant.name.name@ == method.name.name@,
        ty.name.name@ == method.name.name@,
    ensures
        admit_method_run(
            world,
            ctx,
            impl_type_parameters,
            method,
            trait_name,
            is_contract,
            checklist.impld_items,
            checklist.methods,
        ) == done(
            world.emit_plain(
                CompileError::FunctionNotAPartOfInterfaceSurface {
                    name: method.name,
                    interface_name: interface_name_of(trait_name, is_contract),
                    span: method.name.span,
                },
            ),
            Err::<FunctionView, _>(ErrorEmitted),
        ),
        admit_const_run(
            world,
            ctx,
            constant,
            trait_name,
            is_contract,
            checklist.impld_items,
            checklist.constants,
        ) == done(
            world.emit_plain(
                CompileError::ConstantNotAPartOfInterfaceSurface {
                    name: constant.name,
                    interface_name: interface_name_of(trait_name, is_contract),
                    span: constant.name.span,
                },
            ),
            Err::<TyConstantDecl, _>(ErrorEmitted),
        ),
        admit_type_run(
            world,
            ctx,
            ty,
            trait_name,
            is_contract,
            checklist.impld_items,
            checklist.types,
        ) == done(
            world.emit_plain(
                CompileError::TypeNotAPartOfInterfaceSurface {
                    name: ty.name,
                    interface_name: interface_name_of(trait_name, is_contract),
                    span: ty.name.span,
                },
            ),
            Err::<TyTraitType, _>(ErrorEmitted),
        ),
{
}

/// The names that an error says are missing.
pub open spec fn names_in(error: ErrorView) -> Seq<Ident> {
    match error {
        ErrorView::MissingMethods { missing, .. } => missing,
        ErrorView::MissingConstants { missing, .. } => missing,
        ErrorView::MissingTypes { missing, .. } => missing,
        ErrorView::Plain(_) => Seq::empty(),
    }
}

/// Whether an error says that a name is missing.
pub open spec fn names(error: ErrorView, name: Seq<char>) -> bool {
    exists|i: int| 0 <= i < names_in(error).len() && (#[trigger] names_in(error)[i]).name@ == name
}

proof fn lemma_keys<V>(entries: Seq<(Ident, V)>, name: Seq<char>)
    requires
        ascending(entries),
    ensures
        lookup(entries, name_rank(name)) is Some <==> exists|i: int|
            0 <= i < keys_of(entries).len() && (#[trigger] keys_of(entries)[i]).name@ == name,
{
    let rank = name_rank(name);
    let keys = keys_of(entries);
    lemma_lookup(entries, rank);
    if has(entries, rank) {
        let i = choose|i: int| 0 <= i < entries.len() && (#[trigger] entries[i]).0.rank() == rank;
        lemma_name_rank_injective(entries[i].0.name@, name);
        assert(keys[i].name@ == name);
    }
    if exists|i: int| 0 <= i < keys.len() && (#[trigger] keys[i]).name@ == name {
        let i = choose|i: int| 0 <= i < keys.len() && (#[trigger] keys[i]).name@ == name;
        assert(entries[i].0.rank() == rank);
    }
}

/// The errors about an implementation that is not complete name exactly what is missing.
pub proof fn law_missing_names(checklist: ChecklistView, block_span: Span, name: Seq<char>)
    requires
        in_order(checklist),
    ensures
        missing(checklist, name) <==> exists|e: int|
            0 <= e < missing_errors(checklist, block_span).len() && names(
                #[trigger] missing_errors(checklist, block_span)[e],
                name,
            ),
{
    let errors = missing_errors(checklist, block_span);
    lemma_keys(checklist.methods, name);
    lemma_keys(checklist.constants, name);
    lemma_keys(checklist.types, name);
    let methods: int = if checklist.methods.len() > 0 {
        1
    } else {
        0
    };
    let constants: int = if checklist.constants.len() > 0 {
        1
    } else {
        0
    };
    if lookup(checklist.methods, name_rank(name)) is Some {
        let keys = keys_of(checklist.methods);
        let i = choose|i: int| 0 <= i < keys.len() && (#[trigger] keys[i]).name@ == name;
        let error = ErrorView::MissingMethods { missing: keys, span: block_span };
        assert(errors[0] == error);
        assert(names_in(error)[i].name@ == name);
    }
    if lookup(checklist.constants, name_rank(name)) is Some {
        let keys = keys_of(checklist.constants);
        let i = choose|i: int| 0 <= i < keys.len() && (#[trigger] keys[i]).name@ == name;
        let error = ErrorView::MissingConstants { missing: keys, span: block_span };
        assert(errors[methods] == error);
        assert(names_in(error)[i].name@ == name);
    }
    if lookup(checklist.types, name_rank(name)) is Some {
        let keys = keys_of(checklist.types);
        let i = choose|i: int| 0 <= i < keys.len() && (#[trigger] keys[i]).name@ == name;
        let error = ErrorView::MissingTypes { missing: keys, span: block_span };
        assert(errors[methods + constants] == error);
        assert(names_in(error)[i].name@ == name);
    }
}

} // verus!
