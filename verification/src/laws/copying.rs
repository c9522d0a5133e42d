//! What becomes of the items of a trait for a type: how each is copied, what stands in for
//! it, and that none is left out.
use crate::decl::{
    CallPath, Decl, DeclKind, DeclRef, DeclView, ParentId, TraitView, TyConstantDecl, TyDecl,
    TyFunctionDecl, TyTraitFn, TyTraitInterfaceItem, TyTraitItem, TyTraitType,
};
use crate::ident::Ident;
use crate::laws::dialogue::answered;
use crate::laws::maps::{last_interface_item, last_item, law_item_map, law_surface_map};
use crate::ordered::{lookup, put, Key};
use crate::session::{chain, done, Answer, ContextView, QueryView, Run, World};
use crate::surface::{
    copies_run, copy_item_run, insert_surface_run, provided_run, retrieve_all_run, retrieve_run,
    stand_in_run, stand_ins_run,
};
use crate::types::{item_rank, subst_map, ItemKey, TypeArgument, TypeId};
use vstd::prelude::*;

verus! {

/// A function is copied for a type in four steps: it is fetched, `Self` is replaced in it by
/// the type, the substitution is applied to what came of that, and the outcome is kept, with
/// the function that was copied as its parent. The copy goes by the name in the outcome.
pub proof fn law_copied_function_for(
    world: World,
    decl_ref: DeclRef,
    type_id: TypeId,
    type_mapping: Seq<(TypeId, TypeId)>,
    decl: TyFunctionDecl,
    replaced: TyFunctionDecl,
    substituted: TyFunctionDecl,
    copy: DeclRef,
)
    requires
        answered(
            world,
            seq![
                Answer::Decl(Decl::Function(decl)),
                Answer::Decl(Decl::Function(replaced)),
                Answer::Decl(Decl::Function(substituted)),
                Answer::DeclRef(copy),
            ],
        ),
    ensures
        copy_item_run(world, TyTraitItem::Fn(decl_ref), Some(type_id), type_mapping) == done(
            world.hear(
                QueryView::GetDecl { kind: DeclKind::Function, id: decl_ref.id },
            ).hear(
                QueryView::ReplaceSelfType { decl: DeclView::Function(decl@), type_id },
            ).hear(
                QueryView::SubstDecl {
                    decl: DeclView::Function(replaced@),
                    type_subst: type_mapping,
                },
            ).hear(
                QueryView::InsertDecl {
                    decl: DeclView::Function(substituted@),
                    parent: Some(ParentId::Function(decl_ref.id)),
                },
            ),
            (substituted.name, TyTraitItem::Fn(copy)),
        ),
{
}

/// A function that keeps its `Self` is copied in three steps: it is fetched, the substitution
/// is applied to it, and the outcome is kept, with the function that was copied as its parent.
pub proof fn law_copied_function(
    world: World,
    decl_ref: DeclRef,
    type_mapping: Seq<(TypeId, TypeId)>,
    decl: TyFunctionDecl,
    substituted: TyFunctionDecl,
    copy: DeclRef,
)
    requires
        answered(
            world,
            seq![
                Answer::Decl(Decl::Function(decl)),
                Answer::Decl(Decl::Function(substituted)),
                Answer::DeclRef(copy),
            ],
        ),
    ensures
        copy_item_run(world, TyTraitItem::Fn(decl_ref), None, type_mapping) == done(
            world.hear(
                QueryView::GetDecl { kind: DeclKind::Function, id: decl_ref.id },
            ).hear(
                QueryView::SubstDecl { decl: DeclView::Function(decl@), type_subst: type_mapping },
            ).hear(
                QueryView::InsertDecl {
                    decl: DeclView::Function(substituted@),
                    parent: Some(ParentId::Function(decl_ref.id)),
                },
            ),
            (substituted.name, TyTraitItem::Fn(copy)),
        ),
{
}

/// A constant is copied for a type in four steps: it is fetched, `Self` is replaced in it by
/// the type, the substitution is applied to what came of that, and the outcome is kept,
/// without a parent. The copy goes by the name in the outcome.
pub proof fn law_copied_constant_for(
    world: World,
    decl_ref: DeclRef,
    type_id: TypeId,
    type_mapping: Seq<(TypeId, TypeId)>,
    decl: TyConstantDecl,
    replaced: TyConstantDecl,
    substituted: TyConstantDecl,
    copy: DeclRef,
)
    requires
        answered(
            world,
            seq![
                Answer::Decl(Decl::Constant(decl)),
                Answer::Decl(Decl::Constant(replaced)),
                Answer::Decl(Decl::Constant(substituted)),
                Answer::DeclRef(copy),
            ],
        ),
    ensures
        copy_item_run(world, TyTraitItem::Constant(decl_ref), Some(type_id), type_mapping) == done(
            world.hear(
                QueryView::GetDecl { kind: DeclKind::Constant, id: decl_ref.id },
            ).hear(
                QueryView::ReplaceSelfType { decl: DeclView::Constant(decl), type_id },
            ).hear(
                QueryView::SubstDecl {
                    decl: DeclView::Constant(replaced),
                    type_subst: type_mapping,
                },
            ).hear(
                QueryView::InsertDecl { decl: DeclView::Constant(substituted), parent: None },
            ),
            (substituted.name, TyTraitItem::Constant(copy)),
        ),
{
}

/// A constant that keeps its `Self` is copied in three steps: it is fetched, the substitution
/// is applied to it, and the outcome is kept, without a parent.
pub proof fn law_copied_constant(
    world: World,
    decl_ref: DeclRef,
    type_mapping: Seq<(TypeId, TypeId)>,
    decl: TyConstantDecl,
    substituted: TyConstantDecl,
    copy: DeclRef,
)
    requires
        answered(
            world,
            seq![
                Answer::Decl(Decl::Constant(decl)),
                Answer::Decl(Decl::Constant(substituted)),
                Answer::DeclRef(copy),
            ],
        ),
    ensures
        copy_item_run(world, TyTraitItem::Constant(decl_ref), None, type_mapping) == done(
            world.hear(
                QueryView::GetDecl { kind: DeclKind::Constant, id: decl_ref.id },
            ).hear(
                QueryView::SubstDecl { decl: DeclView::Constant(decl), type_subst: type_mapping },
            ).hear(
                QueryView::InsertDecl { decl: DeclView::Constant(substituted), parent: None },
            ),
            (substituted.name, TyTraitItem::Constant(copy)),
        ),
{
}

/// An associated type is copied for a type in four steps: it is fetched, `Self` is replaced in
/// it by the type, the substitution is applied to what came of that, and the outcome is kept,
/// without a parent. The copy goes by the name in the outcome.
pub proof fn law_copied_type_for(
    world: World,
    decl_ref: DeclRef,
    type_id: TypeId,
    type_mapping: Seq<(TypeId, TypeId)>,
    decl: TyTraitType,
    replaced: TyTraitType,
    substituted: TyTraitType,
    copy: DeclRef,
)
    requires
        answered(
            world,
            seq![
                Answer::Decl(Decl::TraitType(decl)),
                Answer::Decl(Decl::TraitType(replaced)),
                Answer::Decl(Decl::TraitType(substituted)),
                Answer::DeclRef(copy),
            ],
        ),
    ensures
        copy_item_run(world, TyTraitItem::Type(decl_ref), Some(type_id), type_mapping) == done(
            world.hear(
                QueryView::GetDecl { kind: DeclKind::TraitType, id: decl_ref.id },
            ).hear(
                QueryView::ReplaceSelfType { decl: DeclView::TraitType(decl), type_id },
            ).hear(
                QueryView::SubstDecl {
                    decl: DeclView::TraitType(replaced),
                    type_subst: type_mapping,
                },
            ).hear(
                QueryView::InsertDecl { decl: DeclView::TraitType(substituted), parent: None },
            ),
            (substituted.name, TyTraitItem::Type(copy)),
        ),
{
}

/// An associated type that keeps its `Self` is copied in three steps: it is fetched, the
/// substitution is applied to it, and the outcome is kept, without a parent.
pub proof fn law_copied_type(
    world: World,
    decl_ref: DeclRef,
    type_mapping: Seq<(TypeId, TypeId)>,
    decl: TyTraitType,
    substituted: TyTraitType,
    copy: DeclRef,
)
    requires
        answered(
            world,
            seq![
                Answer::Decl(Decl::TraitType(decl)),
                Answer::Decl(Decl::TraitType(substituted)),
                Answer::DeclRef(copy),
            ],
        ),
    ensures
        copy_item_run(world, TyTraitItem::Type(decl_ref), None, type_mapping) == done(
            world.hear(
                QueryView::GetDecl { kind: DeclKind::TraitType, id: decl_ref.id },
            ).hear(
                QueryView::SubstDecl { decl: DeclView::TraitType(decl), type_subst: type_mapping },
            ).hear(
                QueryView::InsertDecl { decl: DeclView::TraitType(substituted), parent: None },
            ),
            (substituted.name, TyTraitItem::Type(copy)),
        ),
{
}

/// For a signature a function without a body stands in: the signature is fetched, `Self` is
/// replaced in it by the type, the substitution is applied to what came of that, and a
/// function is made from the outcome, with the signature as its parent.
pub proof fn law_stand_in_for_signature(
    world: World,
    ctx: ContextView,
    decl_ref: DeclRef,
    type_id: TypeId,
    type_mapping: Seq<(TypeId, TypeId)>,
    method: TyTraitFn,
    replaced: TyTraitFn,
    substituted: TyTraitFn,
    dummy: DeclRef,
)
    requires
        answered(
            world,
            seq![
                Answer::Decl(Decl::TraitFn(method)),
                Answer::Decl(Decl::TraitFn(replaced)),
                Answer::Decl(Decl::TraitFn(substituted)),
                Answer::DeclRef(dummy),
            ],
        ),
    ensures
        stand_in_run(
            world,
            ctx,
            TyTraitInterfaceItem::TraitFn(decl_ref),
            type_id,
            type_mapping,
        ) == done(
            world.hear(
                QueryView::GetDecl { kind: DeclKind::TraitFn, id: decl_ref.id },
            ).hear(
                QueryView::ReplaceSelfType { decl: DeclView::TraitFn(method@), type_id },
            ).hear(
                QueryView::SubstDecl {
                    decl: DeclView::TraitFn(replaced@),
                    type_subst: type_mapping,
                },
            ).hear(
                QueryView::InsertDummyFunction {
                    trait_fn: substituted@,
                    parent: ParentId::TraitFn(decl_ref.id),
                },
            ),
            TyTraitItem::Fn(dummy),
        ),
{
}

/// A constant stands in for itself, and its name becomes known, whether or not that name can
/// be inserted.
pub proof fn law_stand_in_for_constant(
    world: World,
    ctx: ContextView,
    decl_ref: DeclRef,
    type_id: TypeId,
    type_mapping: Seq<(TypeId, TypeId)>,
    constant: TyConstantDecl,
    inserted: Answer,
)
    requires
        answered(world, seq![Answer::Decl(Decl::Constant(constant)), inserted]),
        inserted is Done || inserted is Failed,
    ensures
        stand_in_run(
            world,
            ctx,
            TyTraitInterfaceItem::Constant(decl_ref),
            type_id,
            type_mapping,
        ) == done(
            world.hear(
                QueryView::GetDecl { kind: DeclKind::Constant, id: decl_ref.id },
            ).hear(
                QueryView::InsertSymbol {
                    ctx,
                    name: constant.name@,
                    decl: TyDecl::ConstantDecl {
                        name: constant.name,
                        decl_id: decl_ref.id,
                        decl_span: constant.span,
                    },
                },
            ),
            TyTraitItem::Constant(decl_ref),
        ),
{
}

/// An associated type stands in for itself, and nothing is asked about it.
pub proof fn law_stand_in_for_type(
    world: World,
    ctx: ContextView,
    decl_ref: DeclRef,
    type_id: TypeId,
    type_mapping: Seq<(TypeId, TypeId)>,
)
    ensures
        stand_in_run(
            world,
            ctx,
            TyTraitInterfaceItem::Type(decl_ref),
            type_id,
            type_mapping,
        ) == done(world, TyTraitItem::Type(decl_ref)),
{
}

/// Of items that are copied, each is copied once, in their order, and found by its own name
/// for the type. One item more changes nothing for those before it.
pub proof fn law_copies_one_more(
    world: World,
    type_id: TypeId,
    type_mapping: Seq<(TypeId, TypeId)>,
    items: Seq<TyTraitItem>,
    last: TyTraitItem,
    copies: Seq<(ItemKey, TyTraitItem)>,
)
    ensures
        copies_run(world, Seq::empty(), type_id, type_mapping, copies, 0) == done(world, copies),
        copies_run(world, items.push(last), type_id, type_mapping, copies, 0) == chain(
            copies_run(world, items, type_id, type_mapping, copies, 0),
            |world: World, copies: Seq<(ItemKey, TyTraitItem)>|
                chain(
                    copy_item_run(world, last, None, type_mapping),
                    |world: World, copy: (Ident, TyTraitItem)|
                        done(world, put(copies, ItemKey { name: copy.0, type_id }, copy.1)),
                ),
        ),
{
    lemma_copies_one_more(world, type_id, type_mapping, items, last, copies, 0);
}

/// The same from the `i`-th on.
proof fn lemma_copies_one_more(
    world: World,
    type_id: TypeId,
    type_mapping: Seq<(TypeId, TypeId)>,
    items: Seq<TyTraitItem>,
    last: TyTraitItem,
    copies: Seq<(ItemKey, TyTraitItem)>,
    i: int,
)
    requires
        0 <= i <= items.len(),
    ensures
        copies_run(world, items.push(last), type_id, type_mapping, copies, i) == chain(
            copies_run(world, items, type_id, type_mapping, copies, i),
            |world: World, copies: Seq<(ItemKey, TyTraitItem)>|
                chain(
                    copy_item_run(world, last, None, type_mapping),
                    |world: World, copy: (Ident, TyTraitItem)|
                        done(world, put(copies, ItemKey { name: copy.0, type_id }, copy.1)),
                ),
        ),
    decreases items.len() - i,
{
    if i < items.len() {
        assert(items.push(last)[i] == items[i]);
        let first = chain(
            copy_item_run(world, items[i], None, type_mapping),
            |world: World, copy: (Ident, TyTraitItem)|
                done(world, put(copies, ItemKey { name: copy.0, type_id }, copy.1)),
        );
        if first.value is Some {
            lemma_copies_one_more(
                first.world,
                type_id,
                type_mapping,
                items,
                last,
                first.value->0,
                i + 1,
            );
        }
    } else {
        reveal_with_fuel(copies_run, 2);
    }
}

/// Of the items of an interface, each gets one stand-in, in their order. One item more puts
/// its stand-in behind those before it.
pub proof fn law_stand_ins_one_more(
    world: World,
    ctx: ContextView,
    type_id: TypeId,
    type_mapping: Seq<(TypeId, TypeId)>,
    items: Seq<TyTraitInterfaceItem>,
    last: TyTraitInterfaceItem,
    all_items: Seq<TyTraitItem>,
)
    ensures
        stand_ins_run(
            world,
            ctx,
            Seq::empty(),
            type_id,
            type_mapping,
            all_items,
            0,
        ) == done(world, all_items),
        stand_ins_run(world, ctx, items.push(last), type_id, type_mapping, all_items, 0) == chain(
            stand_ins_run(world, ctx, items, type_id, type_mapping, all_items, 0),
            |world: World, all_items: Seq<TyTraitItem>|
                chain(
                    stand_in_run(world, ctx, last, type_id, type_mapping),
                    |world: World, item: TyTraitItem| done(world, all_items.push(item)),
                ),
        ),
{
    lemma_stand_ins_one_more(world, ctx, type_id, type_mapping, items, last, all_items, 0);
}

/// The same from the `i`-th on.
proof fn lemma_stand_ins_one_more(
    world: World,
    ctx: ContextView,
    type_id: TypeId,
    type_mapping: Seq<(TypeId, TypeId)>,
    items: Seq<TyTraitInterfaceItem>,
    last: TyTraitInterfaceItem,
    all_items: Seq<TyTraitItem>,
    i: int,
)
    requires
        0 <= i <= items.len(),
    ensures
        stand_ins_run(world, ctx, items.push(last), type_id, type_mapping, all_items, i) == chain(
            stand_ins_run(world, ctx, items, type_id, type_mapping, all_items, i),
            |world: World, all_items: Seq<TyTraitItem>|
                chain(
                    stand_in_run(world, ctx, last, type_id, type_mapping),
                    |world: World, item: TyTraitItem| done(world, all_items.push(item)),
                ),
        ),
    decreases items.len() - i,
{
    if i < items.len() {
        assert(items.push(last)[i] == items[i]);
        let first = chain(
            stand_in_run(world, ctx, items[i], type_id, type_mapping),
            |world: World, item: TyTraitItem| done(world, all_items.push(item)),
        );
        if first.value is Some {
            lemma_stand_ins_one_more(
                first.world,
                ctx,
                type_id,
                type_mapping,
                items,
                last,
                first.value->0,
                i + 1,
            );
        }
    } else {
        reveal_with_fuel(stand_ins_run, 2);
    }
}

/// Of the items that a trait provides, each is copied once for the type, in their order. One
/// item more puts its copy behind those before it.
pub proof fn law_provided_one_more(
    world: World,
    type_id: TypeId,
    type_mapping: Seq<(TypeId, TypeId)>,
    items: Seq<TyTraitItem>,
    last: TyTraitItem,
    all_items: Seq<TyTraitItem>,
)
    ensures
        provided_run(
            world,
            Seq::empty(),
            type_id,
            type_mapping,
            all_items,
            0,
        ) == done(world, all_items),
        provided_run(world, items.push(last), type_id, type_mapping, all_items, 0) == chain(
            provided_run(world, items, type_id, type_mapping, all_items, 0),
            |world: World, all_items: Seq<TyTraitItem>|
                chain(
                    copy_item_run(world, last, Some(type_id), type_mapping),
                    |world: World, copy: (Ident, TyTraitItem)| done(world, all_items.push(copy.1)),
                ),
        ),
{
    lemma_provided_one_more(world, type_id, type_mapping, items, last, all_items, 0);
}

/// The same from the `i`-th on.
proof fn lemma_provided_one_more(
    world: World,
    type_id: TypeId,
    type_mapping: Seq<(TypeId, TypeId)>,
    items: Seq<TyTraitItem>,
    last: TyTraitItem,
    all_items: Seq<TyTraitItem>,
    i: int,
)
    requires
        0 <= i <= items.len(),
    ensures
        provided_run(world, items.push(last), type_id, type_mapping, all_items, i) == chain(
            provided_run(world, items, type_id, type_mapping, all_items, i),
            |world: World, all_items: Seq<TyTraitItem>|
                chain(
                    copy_item_run(world, last, Some(type_id), type_mapping),
                    |world: World, copy: (Ident, TyTraitItem)| done(world, all_items.push(copy.1)),
                ),
        ),
    decreases items.len() - i,
{
    if i < items.len() {
        assert(items.push(last)[i] == items[i]);
        let first = chain(
            copy_item_run(world, items[i], Some(type_id), type_mapping),
            |world: World, copy: (Ident, TyTraitItem)| done(world, all_items.push(copy.1)),
        );
        if first.value is Some {
            lemma_provided_one_more(
                first.world,
                type_id,
                type_mapping,
                items,
                last,
                first.value->0,
                i + 1,
            );
        }
    } else {
        reveal_with_fuel(provided_run, 2);
    }
}

/// The implemented items are those that the type has for the trait, by name, and the interface
/// items those of the trait itself. Of several of one name the last counts.
pub proof fn law_retrieved(
    world: World,
    decl: TraitView,
    ctx: ContextView,
    type_id: TypeId,
    call_path: CallPath,
    items: Vec<TyTraitItem>,
    name: Seq<char>,
    of: TypeId,
)
    requires
        answered(world, seq![Answer::Items(items)]),
    ensures
        ({
            let after = retrieve_run(world, decl, ctx, type_id, call_path);
            &&& after.world == world.hear(
                QueryView::ItemsForTypeAndTrait { ctx, type_id, trait_name: call_path },
            )
            &&& after.value is Some
            &&& lookup((after.value->0).0, item_rank(name, of)) == if of == type_id {
                last_interface_item(decl.interface_surface, name)
            } else {
                None
            }
            &&& lookup((after.value->0).1, item_rank(name, of)) == if of == type_id {
                last_item(items@, name)
            } else {
                None
            }
        }),
{
    law_surface_map(decl.interface_surface, type_id, name, of);
    law_item_map(items@, type_id, name, of);
}

/// Besides the interface items, a trait with type arguments has the items that it provides, by
/// name, and a copy of each item that the type has for it, with the type arguments put in for
/// the type parameters.
pub proof fn law_retrieved_all(
    world: World,
    decl: TraitView,
    ctx: ContextView,
    type_id: TypeId,
    call_path: CallPath,
    type_arguments: Seq<TypeArgument>,
    items: Vec<TyTraitItem>,
    name: Seq<char>,
    of: TypeId,
)
    requires
        answered(world, seq![Answer::Items(items)]),
    ensures
        ({
            let after = retrieve_all_run(world, decl, ctx, type_id, call_path, type_arguments);
            let copies = copies_run(
                world.hear(
                    QueryView::ItemsForTypeAndTrait { ctx, type_id, trait_name: call_path },
                ),
                items@,
                type_id,
                subst_map(decl.type_parameters, type_arguments),
                Seq::empty(),
                0,
            );
            &&& after.world == copies.world
            &&& after.value is Some <==> copies.value is Some
            &&& after.value is Some ==> {
                &&& lookup((after.value->0).0, item_rank(name, of)) == if of == type_id {
                    last_interface_item(decl.interface_surface, name)
                } else {
                    None
                }
                &&& lookup((after.value->0).1, item_rank(name, of)) == if of == type_id {
                    last_item(decl.items, name)
                } else {
                    None
                }
                &&& (after.value->0).2 == copies.value->0
            }
        }),
{
    law_surface_map(decl.interface_surface, type_id, name, of);
    law_item_map(decl.items, type_id, name, of);
}

/// The interface surface of a trait is made known for a type by one query at the end, asked
/// quietly, with the stand-ins of all interface items and behind them the copies of all items
/// that the trait provides. Whether that succeeds makes no difference.
pub proof fn law_inserted_surface(
    world: World,
    decl: TraitView,
    ctx: ContextView,
    trait_name: CallPath,
    type_arguments: Seq<TypeArgument>,
    type_id: TypeId,
    stand_ins: Run<Seq<TyTraitItem>>,
    provided: Run<Seq<TyTraitItem>>,
    inserted: Answer,
)
    requires
        stand_ins == stand_ins_run(
            world,
            ctx,
            decl.interface_surface,
            type_id,
            subst_map(decl.type_parameters, type_arguments),
            Seq::empty(),
            0,
        ),
        stand_ins.value is Some,
        provided == provided_run(
            stand_ins.world,
            decl.items,
            type_id,
            subst_map(decl.type_parameters, type_arguments),
            stand_ins.value->0,
            0,
        ),
        provided.value is Some,
        answered(provided.world, seq![inserted]),
        inserted is Done || inserted is Failed,
    ensures
        insert_surface_run(world, decl, ctx, trait_name, type_arguments, type_id) == done(
            provided.world.hear_quietly(
                QueryView::InsertTraitImplementation {
                    ctx,
                    trait_name,
                    type_arguments,
                    type_id,
                    items: provided.value->0,
                    impl_span: trait_name.span,
                    trait_decl_span: Some(decl.span),
                    is_extending_existing_impl: false,
                },
            ),
            (),
        ),
        (provided.value->0).len() == decl.interface_surface.len() + decl.items.len(),
        (stand_ins.value->0).is_prefix_of(provided.value->0),
{
    let mapping = subst_map(decl.type_parameters, type_arguments);
    lemma_stand_ins(world, ctx, decl.interface_surface, type_id, mapping, Seq::empty(), 0);
    lemma_provided(stand_ins.world, decl.items, type_id, mapping, stand_ins.value->0, 0);
}

proof fn lemma_stand_ins(
    world: World,
    ctx: ContextView,
    items: Seq<TyTraitInterfaceItem>,
    type_id: TypeId,
    type_mapping: Seq<(TypeId, TypeId)>,
    before: Seq<TyTraitItem>,
    i: int,
)
    requires
        0 <= i <= items.len(),
    ensures
        ({
            let after = stand_ins_run(world, ctx, items, type_id, type_mapping, before, i);
            after.value is Some ==> {
                &&& (after.value->0).len() == before.len() + items.len() - i
                &&& before.is_prefix_of(after.value->0)
            }
        }),
    decreases items.len() - i,
{
    if i < items.len() {
        let first = stand_in_run(world, ctx, items[i], type_id, type_mapping);
        if first.value is Some {
            let next = before.push(first.value->0);
            lemma_stand_ins(first.world, ctx, items, type_id, type_mapping, next, i + 1);
        }
    }
}

proof fn lemma_provided(
    world: World,
    items: Seq<TyTraitItem>,
    type_id: TypeId,
    type_mapping: Seq<(TypeId, TypeId)>,
    before: Seq<TyTraitItem>,
    i: int,
)
    requires
        0 <= i <= items.len(),
    ensures
        ({
            let after = provided_run(world, items, type_id, type_mapping, before, i);
            after.value is Some ==> {
                &&& (after.value->0).len() == before.len() + items.len() - i
                &&& before.is_prefix_of(after.value->0)
            }
        }),
    decreases items.len() - i,
{
    if i < items.len() {
        let first = copy_item_run(world, items[i], Some(type_id), type_mapping);
        if first.value is Some {
            let next = before.push((first.value->0).1);
            lemma_provided(first.world, items, type_id, type_mapping, next, i + 1);
        }
    }
}

} // verus!
