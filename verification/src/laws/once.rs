//! Of the items that a check goes through, each is asked about once, in its turn, and what
//! comes of it is kept.
use crate::decl::{
    DeclKind, DeclView, ImplItem, ParentId, TraitDeclaration, TraitFn, TraitItem, TyDecl,
    TyTraitInterfaceItem, TyTraitItem,
};
use crate::ident::Ident;
use crate::impl_trait::{bodies_run, body_run};
use crate::laws::declared::{law_declare_members_one_more, member_of_trait_run};
use crate::laws::impl_blocks::law_bodies_one_more;
use crate::laws::steady::{asked_since, later, lemma_later_reflexive};
use crate::laws::steady_impl_trait::{steady_bodies, steady_body};
use crate::laws::steady_trait::{
    steady_declare_constant, steady_declare_fn, steady_declare_members, steady_declare_types,
    steady_methods,
};
use crate::session::{Answer, ContextView, QueryView, Reply, World};
use crate::trait_decl::{
    declare_members_run, declare_types_run, stand_in_run, trait_body_run, SurfaceView,
};
use crate::types::TypeParameter;
use vstd::prelude::*;

verus! {

/// The reply to the `p`-th query of a check that started in a state.
pub open spec fn reply_to(world: World, p: int) -> Answer {
    world.replies[p - world.asked.len()].answer
}

/// Whether some places cut the queries between two states into pieces, one for each of `n`
/// items: the `k`-th piece reaches from the `k`-th place to the next.
pub open spec fn pieces(before: World, after: World, at: Seq<int>, n: nat) -> bool {
    &&& at.len() == n + 1
    &&& at[0] == before.asked.len()
    &&& at[n as int] == after.asked.len()
}

proof fn lemma_longer(before: World, after: World)
    requires
        later(before, after),
    ensures
        before.asked.len() <= after.asked.len(),
        forall|p: int|
            #![trigger before.asked[p]]
            #![trigger after.asked[p]]
            0 <= p < before.asked.len() ==> before.asked[p] == after.asked[p],
{
    reveal(asked_since);
}

/// Whether the queries from `p` to `end` are those about the body of one item. Those about a
/// function are for the declaration that is kept for it, and about the body, with that
/// declaration; unless the body is refused, a third puts the outcome in the place of the
/// declaration. About another item there is none.
pub open spec fn body_queries(
    world: World,
    asked: Seq<QueryView>,
    p: int,
    end: int,
    ctx: ContextView,
    item: ImplItem,
    new_item: TyTraitItem,
) -> bool {
    if item is Fn {
        let id = new_item->Fn_0.id;
        &&& new_item is Fn
        &&& world.asked.len() <= p
        &&& p + 2 <= end <= asked.len()
        &&& asked[p] == QueryView::GetDecl { kind: DeclKind::Function, id }
        &&& asked[p + 1] == QueryView::TypeCheckFunctionBody {
            ctx,
            parsed: item->Fn_0,
            decl: reply_to(world, p)->Decl_0->Function_0@,
        }
        &&& if reply_to(world, p + 1) is Failed {
            end == p + 2
        } else {
            &&& end == p + 3
            &&& asked[p + 2] == QueryView::ReplaceDecl {
                id,
                decl: DeclView::Function(reply_to(world, p + 1)->Decl_0->Function_0@),
            }
        }
    } else {
        end == p
    }
}

proof fn lemma_body(world: World, ctx: ContextView, item: ImplItem, new_item: TyTraitItem)
    requires
        body_run(world, ctx, item, new_item).value is Some,
    ensures
        ({
            let after = body_run(world, ctx, item, new_item).world;
            &&& later(world, after)
            &&& body_queries(
                world,
                after.asked,
                world.asked.len() as int,
                after.asked.len() as int,
                ctx,
                item,
                new_item,
            )
        }),
{
    reveal(asked_since);
    steady_body(world, Seq::empty(), ctx, item, new_item);
    let r = world.replies;
    if r.len() >= 2 {
        assert(r.drop_first()[0] == r[1]);
    }
}

/// Whether the `k`-th piece of the queries is about the body of the `k`-th item.
pub open spec fn body_in_turn(
    world: World,
    asked: Seq<QueryView>,
    at: Seq<int>,
    ctx: ContextView,
    items: Seq<ImplItem>,
    new_items: Seq<TyTraitItem>,
    k: int,
) -> bool {
    body_queries(world, asked, at[k], at[k + 1], ctx, items[k], new_items[k])
}

/// The pieces of the queries about the bodies of some items.
pub open spec fn bodies_in_turn(
    world: World,
    after: World,
    at: Seq<int>,
    ctx: ContextView,
    items: Seq<ImplItem>,
    new_items: Seq<TyTraitItem>,
) -> bool {
    &&& pieces(world, after, at, items.len())
    &&& forall|k: int|
        0 <= k < items.len() ==> #[trigger] body_in_turn(
            world,
            after.asked,
            at,
            ctx,
            items,
            new_items,
            k,
        )
}

proof fn lemma_bodies_in_turn(
    world: World,
    ctx: ContextView,
    items: Seq<ImplItem>,
    new_items: Seq<TyTraitItem>,
) -> (at: Seq<int>)
    requires
        items.len() == new_items.len(),
        bodies_run(world, ctx, items, new_items, 0).value is Some,
    ensures
        ({
            let after = bodies_run(world, ctx, items, new_items, 0).world;
            &&& later(world, after)
            &&& bodies_in_turn(world, after, at, ctx, items, new_items)
        }),
    decreases items.len(),
{
    reveal(asked_since);
    let after = bodies_run(world, ctx, items, new_items, 0).world;
    steady_bodies(world, Seq::empty(), ctx, items, new_items, 0);
    if items.len() == 0 {
        seq![world.asked.len() as int]
    } else {
        let n = items.len() - 1;
        let last = items.last();
        let new_last = new_items.last();
        assert(items.drop_last().push(last) =~= items);
        assert(new_items.drop_last().push(new_last) =~= new_items);
        law_bodies_one_more(world, ctx, items.drop_last(), new_items.drop_last(), last, new_last);
        let first = bodies_run(world, ctx, items.drop_last(), new_items.drop_last(), 0).world;
        let before = lemma_bodies_in_turn(world, ctx, items.drop_last(), new_items.drop_last());
        lemma_body(first, ctx, last, new_last);
        let read = first.asked.len() - world.asked.len();
        assert forall|p: int| first.asked.len() <= p < after.asked.len() implies reply_to(
            first,
            p,
        ) == #[trigger] reply_to(world, p) by {
            assert(first.replies[p - first.asked.len()] == world.replies[read + (p
                - first.asked.len())]);
        }
        let at = before.push(after.asked.len() as int);
        assert forall|k: int| 0 <= k < items.len() implies #[trigger] body_in_turn(
            world,
            after.asked,
            at,
            ctx,
            items,
            new_items,
            k,
        ) by {
            if k < n {
                assert(body_in_turn(
                    world,
                    first.asked,
                    before,
                    ctx,
                    items.drop_last(),
                    new_items.drop_last(),
                    k,
                ));
                assert(at[k] == before[k] && at[k + 1] == before[k + 1]);
                assert(items.drop_last()[k] == items[k]);
                assert(new_items.drop_last()[k] == new_items[k]);
                lemma_longer(first, after);
                assert(body_queries(
                    world,
                    first.asked,
                    at[k],
                    at[k + 1],
                    ctx,
                    items[k],
                    new_items[k],
                ));
            } else {
                let p = first.asked.len() as int;
                assert(at[k] == p);
                assert(at[k + 1] == after.asked.len());
                assert(body_queries(first, after.asked, p, at[k + 1], ctx, last, new_last));
                if last is Fn {
                    assert(reply_to(first, p) == reply_to(world, p));
                    assert(reply_to(first, p + 1) == reply_to(world, p + 1));
                }
            }
        }
        at
    }
}

/// When the bodies of an impl block were gone through, each function among its items was
/// asked about exactly once, in its turn: the queries fall into pieces, one for each item,
/// and the piece of a function holds one query about its body, with the parsed function and
/// the declaration that was kept for it, whose outcome takes the place of that declaration.
pub proof fn law_each_body_once(
    world: World,
    ctx: ContextView,
    items: Seq<ImplItem>,
    new_items: Seq<TyTraitItem>,
)
    requires
        items.len() == new_items.len(),
        bodies_run(world, ctx, items, new_items, 0).value is Some,
    ensures
        exists|at: Seq<int>|
            bodies_in_turn(
                world,
                bodies_run(world, ctx, items, new_items, 0).world,
                at,
                ctx,
                items,
                new_items,
            ),
{
    let at = lemma_bodies_in_turn(world, ctx, items, new_items);
}

/// How many of the items are signatures.
pub open spec fn signatures_in(items: Seq<TraitItem>) -> nat {
    items.filter(|item: TraitItem| item is TraitFn).len()
}

/// Whether the queries from `p` to `end` are those about one item of a trait while its
/// signatures and constants are gone through. A signature is checked, kept, and a function
/// without a body is made from it; a constant is checked, kept, and made known. About an
/// associated type there is none.
pub open spec fn member_queries(
    world: World,
    asked: Seq<QueryView>,
    p: int,
    end: int,
    ctx: ContextView,
    item: TraitItem,
) -> bool {
    if let TraitItem::TraitFn(parsed) = item {
        let decl = reply_to(world, p)->Decl_0->TraitFn_0;
        &&& world.asked.len() <= p
        &&& end == p + 3
        &&& end <= asked.len()
        &&& asked[p] == QueryView::TypeCheckTraitFn { ctx, parsed }
        &&& asked[p + 1] == QueryView::InsertDecl {
            decl: DeclView::TraitFn(decl@),
            parent: None,
        }
        &&& asked[p + 2] == QueryView::InsertDummyFunction {
            trait_fn: decl@,
            parent: ParentId::TraitFn(reply_to(world, p + 1)->DeclRef_0.id),
        }
    } else if let TraitItem::Constant(parsed) = item {
        let decl = reply_to(world, p)->Decl_0->Constant_0;
        &&& world.asked.len() <= p
        &&& end == p + 3
        &&& end <= asked.len()
        &&& asked[p] == QueryView::TypeCheckConstant { ctx, parsed }
        &&& asked[p + 1] == QueryView::InsertDecl { decl: DeclView::Constant(decl), parent: None }
        &&& asked[p + 2] == QueryView::InsertSymbol {
            ctx,
            name: decl.name@,
            decl: TyDecl::ConstantDecl {
                name: decl.name,
                decl_id: reply_to(world, p + 1)->DeclRef_0.id,
                decl_span: decl.span,
            },
        }
    } else {
        end == p
    }
}

/// Whether a step kept the interface items and the stand-ins from before it, and put behind
/// them what the replies about one item brought: the declaration that was kept, and for a
/// signature the function that was made from it.
pub open spec fn member_kept(
    world: World,
    p: int,
    item: TraitItem,
    surface: SurfaceView,
    next: SurfaceView,
) -> bool {
    let kept = reply_to(world, p + 1)->DeclRef_0;
    let made = reply_to(world, p + 2)->DeclRef_0;
    if item is TraitFn {
        &&& next.items == surface.items.push(TyTraitInterfaceItem::TraitFn(kept))
        &&& next.stand_ins == surface.stand_ins.push(TyTraitItem::Fn(made))
    } else if item is Constant {
        &&& next.items == surface.items.push(TyTraitInterfaceItem::Constant(kept))
        &&& next.stand_ins == surface.stand_ins
    } else {
        &&& next.items == surface.items
        &&& next.stand_ins == surface.stand_ins
    }
}

proof fn lemma_member(world: World, ctx: ContextView, item: TraitItem, surface: SurfaceView)
    requires
        member_of_trait_run(world, ctx, item, surface).value is Some,
        member_of_trait_run(world, ctx, item, surface).value->0 is Ok,
    ensures
        ({
            let after = member_of_trait_run(world, ctx, item, surface);
            let p = world.asked.len() as int;
            let end = after.world.asked.len() as int;
            &&& later(world, after.world)
            &&& member_queries(world, after.world.asked, p, end, ctx, item)
            &&& member_kept(world, p, item, surface, after.value->0->Ok_0)
        }),
{
    broadcast use lemma_later_reflexive;

    reveal(asked_since);
    match item {
        TraitItem::TraitFn(parsed) => {
            steady_declare_fn(world, Seq::empty(), ctx, parsed, surface);
        },
        TraitItem::Constant(parsed) => {
            steady_declare_constant(world, Seq::empty(), ctx, parsed, surface);
        },
        _ => {},
    }
    let r = world.replies;
    if r.len() >= 3 {
        assert(r.drop_first()[0] == r[1]);
        assert(r.drop_first().drop_first()[0] == r[2]);
    }
}

/// Whether the `k`-th piece of the queries is about the `k`-th item.
pub open spec fn member_in_turn(
    world: World,
    asked: Seq<QueryView>,
    at: Seq<int>,
    ctx: ContextView,
    items: Seq<TraitItem>,
    k: int,
) -> bool {
    member_queries(world, asked, at[k], at[k + 1], ctx, items[k])
}

/// Whether the `k`-th item, if it is a signature, has the function that was made from it as
/// its stand-in, behind those of the signatures before it.
pub open spec fn stands_in(
    world: World,
    at: Seq<int>,
    items: Seq<TraitItem>,
    stand_ins: Seq<TyTraitItem>,
    start: int,
    k: int,
) -> bool {
    items[k] is TraitFn ==> stand_ins[start + signatures_in(items.take(k))] == TyTraitItem::Fn(
        reply_to(world, at[k] + 2)->DeclRef_0,
    )
}

/// The pieces of the queries about the signatures and constants of a trait, and what is kept
/// of the replies: a stand-in for each signature, in their order, behind those from before.
pub open spec fn members_in_turn(
    world: World,
    after: World,
    at: Seq<int>,
    ctx: ContextView,
    items: Seq<TraitItem>,
    surface: SurfaceView,
    next: SurfaceView,
) -> bool {
    let before = surface.stand_ins.len() as int;
    &&& pieces(world, after, at, items.len())
    &&& forall|k: int|
        0 <= k < items.len() ==> #[trigger] member_in_turn(world, after.asked, at, ctx, items, k)
    &&& surface.items.is_prefix_of(next.items)
    &&& surface.stand_ins.is_prefix_of(next.stand_ins)
    &&& next.stand_ins.len() == before + signatures_in(items)
    &&& forall|k: int|
        0 <= k < items.len() ==> #[trigger] stands_in(
            world,
            at,
            items,
            next.stand_ins,
            before,
            k,
        )
}

proof fn lemma_signatures_in(items: Seq<TraitItem>, item: TraitItem)
    ensures
        signatures_in(items.push(item)) == signatures_in(items) + if item is TraitFn {
            1nat
        } else {
            0nat
        },
{
    reveal(Seq::filter);
    assert(items.push(item).drop_last() =~= items);
}

proof fn lemma_signatures_before(items: Seq<TraitItem>, k: int)
    requires
        0 <= k < items.len(),
        items[k] is TraitFn,
    ensures
        signatures_in(items.take(k)) < signatures_in(items),
    decreases items.len(),
{
    let last = items.last();
    assert(items.drop_last().push(last) =~= items);
    lemma_signatures_in(items.drop_last(), last);
    if k < items.len() - 1 {
        lemma_signatures_before(items.drop_last(), k);
        assert(items.drop_last().take(k) =~= items.take(k));
    } else {
        assert(items.take(k) =~= items.drop_last());
    }
}

proof fn lemma_members_in_turn(
    world: World,
    ctx: ContextView,
    items: Seq<TraitItem>,
    surface: SurfaceView,
) -> (at: Seq<int>)
    requires
        declare_members_run(world, ctx, items, surface, 0).value is Some,
        declare_members_run(world, ctx, items, surface, 0).value->0 is Ok,
    ensures
        ({
            let after = declare_members_run(world, ctx, items, surface, 0);
            let next = after.value->0->Ok_0;
            &&& later(world, after.world)
            &&& members_in_turn(world, after.world, at, ctx, items, surface, next)
        }),
    decreases items.len(),
{
    reveal(asked_since);
    let whole = declare_members_run(world, ctx, items, surface, 0);
    let after = whole.world;
    let next = whole.value->0->Ok_0;
    steady_declare_members(world, Seq::empty(), ctx, items, surface, 0);
    if items.len() == 0 {
        reveal(Seq::filter);
        seq![world.asked.len() as int]
    } else {
        let n = items.len() - 1;
        let last = items.last();
        let rest = items.drop_last();
        assert(rest.push(last) =~= items);
        law_declare_members_one_more(world, ctx, rest, last, surface);
        let first = declare_members_run(world, ctx, rest, surface, 0);
        let middle = first.value->0->Ok_0;
        let before = lemma_members_in_turn(world, ctx, rest, surface);
        lemma_member(first.world, ctx, last, middle);
        lemma_signatures_in(rest, last);
        let read = first.world.asked.len() - world.asked.len();
        assert forall|p: int| first.world.asked.len() <= p < after.asked.len() implies reply_to(
            first.world,
            p,
        ) == #[trigger] reply_to(world, p) by {
            assert(first.world.replies[p - first.world.asked.len()] == world.replies[read + (p
                - first.world.asked.len())]);
        }
        let at = before.push(after.asked.len() as int);
        assert forall|k: int| 0 <= k < items.len() implies #[trigger] member_in_turn(
            world,
            after.asked,
            at,
            ctx,
            items,
            k,
        ) by {
            if k < n {
                assert(member_in_turn(world, first.world.asked, before, ctx, rest, k));
                assert(at[k] == before[k] && at[k + 1] == before[k + 1]);
                lemma_longer(first.world, after);
            } else {
                let p = first.world.asked.len() as int;
                assert(at[k] == p);
                assert(at[k + 1] == after.asked.len());
                assert(member_queries(first.world, after.asked, p, at[k + 1], ctx, last));
                if last is TraitFn || last is Constant {
                    assert(reply_to(first.world, p) == reply_to(world, p));
                    assert(reply_to(first.world, p + 1) == reply_to(world, p + 1));
                }
            }
        }
        let start = surface.stand_ins.len() as int;
        assert forall|k: int| 0 <= k < items.len() implies #[trigger] stands_in(
            world,
            at,
            items,
            next.stand_ins,
            start,
            k,
        ) by {
            if k < n {
                assert(stands_in(world, before, rest, middle.stand_ins, start, k));
                assert(rest.take(k) =~= items.take(k));
                assert(at[k] == before[k]);
                if rest[k] is TraitFn {
                    lemma_signatures_before(rest, k);
                }
            } else {
                assert(items.take(k) =~= rest);
                assert(at[k] == first.world.asked.len());
            }
        }
        at
    }
}

/// When the signatures and constants of a trait were gone through, each of them was asked
/// about exactly once, in its turn. There is one stand-in for each signature, in their order:
/// the function that the compiler made from it when it was asked for one. The stand-ins and
/// interface items from before are all kept in front of them.
pub proof fn law_each_member_once(
    world: World,
    ctx: ContextView,
    items: Seq<TraitItem>,
    surface: SurfaceView,
)
    requires
        declare_members_run(world, ctx, items, surface, 0).value is Some,
        declare_members_run(world, ctx, items, surface, 0).value->0 is Ok,
    ensures
        exists|at: Seq<int>|
            members_in_turn(
                world,
                declare_members_run(world, ctx, items, surface, 0).world,
                at,
                ctx,
                items,
                surface,
                declare_members_run(world, ctx, items, surface, 0).value->0->Ok_0,
            ),
{
    let at = lemma_members_in_turn(world, ctx, items, surface);
}

/// Whether a query makes stand-ins known beside those that are known already.
pub open spec fn adds_stand_ins(
    query: QueryView,
    ctx: ContextView,
    name: Ident,
    stand_ins: Seq<TyTraitItem>,
) -> bool {
    query matches QueryView::InsertTraitImplementation {
        ctx: inner,
        trait_name,
        type_id,
        items,
        is_extending_existing_impl,
        ..
    } && {
        &&& inner == ctx
        &&& trait_name.suffix == name
        &&& type_id == ctx.self_type
        &&& items == stand_ins
        &&& is_extending_existing_impl
    }
}

/// If what is inside a trait is accepted, one query before its methods made the stand-ins of
/// its signatures known, one for each signature, all of them at once and nothing else.
pub proof fn law_stand_ins_of_all_signatures(
    world: World,
    ctx: ContextView,
    decl: TraitDeclaration,
    type_parameters: Seq<TypeParameter>,
)
    requires
        trait_body_run(world, ctx, decl, type_parameters).value is Some,
        trait_body_run(world, ctx, decl, type_parameters).value->0 is Ok,
    ensures
        ({
            let after = trait_body_run(world, ctx, decl, type_parameters).world;
            exists|p: int, stand_ins: Seq<TyTraitItem>|
                {
                    &&& world.asked.len() <= p < after.asked.len()
                    &&& #[trigger] adds_stand_ins(after.asked[p], ctx, decl.name, stand_ins)
                    &&& stand_ins.len() == signatures_in(decl.interface_surface@)
                }
        }),
{
    reveal(asked_since);
    let none = Seq::<Reply>::empty();
    let items = decl.interface_surface@;
    let types = declare_types_run(world, ctx, items, SurfaceView::empty(), 0);
    assert(types.value is Some && types.value->0 is Ok);
    let declared = types.value->0->Ok_0;
    let known = stand_in_run(
        types.world,
        ctx,
        decl,
        type_parameters,
        declared.stand_ins,
        false,
    );
    assert(known.value is Some && known.value->0 is Ok);
    let start = declared.without_stand_ins();
    let members = declare_members_run(known.world, ctx, items, start, 0);
    assert(members.value is Some && members.value->0 is Ok);
    let surface = members.value->0->Ok_0;
    let added = stand_in_run(
        members.world,
        ctx,
        decl,
        type_parameters,
        surface.stand_ins,
        true,
    );
    assert(added.value is Some && added.value->0 is Ok);
    steady_declare_types(world, none, ctx, items, SurfaceView::empty(), 0);
    let at = lemma_members_in_turn(known.world, ctx, items, start);
    steady_methods(added.world, none, ctx, decl.methods@, Seq::empty(), 0);
    let p = members.world.asked.len() as int;
    let after = trait_body_run(world, ctx, decl, type_parameters).world;
    assert(added.world.asked[p] == after.asked[p]);
    assert(adds_stand_ins(after.asked[p], ctx, decl.name, surface.stand_ins));
}

} // verus!
