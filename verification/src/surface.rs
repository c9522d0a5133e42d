//! The items of a trait: those it asks for, those it provides, and those a type has from it.
use crate::decl::{
    CallPath, Decl, DeclKind, DeclRef, DeclView, InterfaceItemMap, ItemMap, ParentId, TraitView,
    TyConstantDecl, TyDecl, TyFunctionDecl, TyTraitDecl, TyTraitFn, TyTraitInterfaceItem,
    TyTraitItem, TyTraitType,
};
use crate::diagnostics::ErrorEmitted;
use crate::duplicate::{duplicate_all, Duplicate};
use crate::ident::Ident;
use crate::ordered::{put, put_all, SortedMap};
use crate::session::{
    ask, ask_quietly, chain, done, list, run, to_constant, to_decl_ref, to_function, to_items,
    to_outcome, to_trait_fn, to_trait_type, Context, ContextView, Query, QueryView, Run, Session,
    World,
};
use crate::types::{
    from_type_parameters_and_type_arguments, subst_map, ItemKey, TypeArgument, TypeId,
    TypeSubstMap,
};
use vstd::prelude::*;

verus! {

/// Interface items beside their keys.
pub open spec fn surface_entries(
    interface_surface: Seq<TyTraitInterfaceItem>,
    type_id: TypeId,
) -> Seq<(ItemKey, TyTraitInterfaceItem)> {
    Seq::new(
        interface_surface.len(),
        |i: int|
            (
                ItemKey { name: interface_surface[i].decl_ref().name, type_id },
                interface_surface[i],
            ),
    )
}

/// The interface items of a trait by name and type. The last of several of one name counts.
pub open spec fn surface_map(
    interface_surface: Seq<TyTraitInterfaceItem>,
    type_id: TypeId,
) -> Seq<(ItemKey, TyTraitInterfaceItem)> {
    put_all(Seq::empty(), surface_entries(interface_surface, type_id))
}

/// Items beside their keys.
pub open spec fn item_entries(items: Seq<TyTraitItem>, type_id: TypeId) -> Seq<
    (ItemKey, TyTraitItem),
> {
    Seq::new(
        items.len(),
        |i: int| (ItemKey { name: items[i].decl_ref().name, type_id }, items[i]),
    )
}

/// Items by name and type. The last of several of one name counts.
pub open spec fn item_map(items: Seq<TyTraitItem>, type_id: TypeId) -> Seq<
    (ItemKey, TyTraitItem),
> {
    put_all(Seq::empty(), item_entries(items, type_id))
}

/// Collects interface items by name and type.
fn collect_surface(interface_surface: &Vec<TyTraitInterfaceItem>, type_id: TypeId) -> (map:
    InterfaceItemMap)
    ensures
        map@ == surface_map(interface_surface@, type_id),
{
    let mut map: InterfaceItemMap = SortedMap::new();
    let ghost entries = surface_entries(interface_surface@, type_id);
    let mut i: usize = 0;
    assert(entries.skip(0) =~= entries);
    while i < interface_surface.len()
        invariant
            i <= interface_surface@.len(),
            entries == surface_entries(interface_surface@, type_id),
            put_all(Seq::empty(), entries) == put_all(map@, entries.skip(i as int)),
        decreases interface_surface@.len() - i,
    {
        assert(entries.skip(i as int).drop_first() =~= entries.skip(i + 1));
        let item = &interface_surface[i];
        let name = match item {
            TyTraitInterfaceItem::TraitFn(decl_ref) => decl_ref.name.duplicate(),
            TyTraitInterfaceItem::Constant(decl_ref) => decl_ref.name.duplicate(),
            TyTraitInterfaceItem::Type(decl_ref) => decl_ref.name.duplicate(),
        };
        map.insert(ItemKey { name, type_id }, item.duplicate());
        i = i + 1;
    }
    map
}

/// Collects items by name and type.
fn collect_items(items: &Vec<TyTraitItem>, type_id: TypeId) -> (map: ItemMap)
    ensures
        map@ == item_map(items@, type_id),
{
    let mut map: ItemMap = SortedMap::new();
    let ghost entries = item_entries(items@, type_id);
    let mut i: usize = 0;
    assert(entries.skip(0) =~= entries);
    while i < items.len()
        invariant
            i <= items@.len(),
            entries == item_entries(items@, type_id),
            put_all(Seq::empty(), entries) == put_all(map@, entries.skip(i as int)),
        decreases items@.len() - i,
    {
        assert(entries.skip(i as int).drop_first() =~= entries.skip(i + 1));
        let item = &items[i];
        let name = match item {
            TyTraitItem::Fn(decl_ref) => decl_ref.name.duplicate(),
            TyTraitItem::Constant(decl_ref) => decl_ref.name.duplicate(),
            TyTraitItem::Type(decl_ref) => decl_ref.name.duplicate(),
        };
        map.insert(ItemKey { name, type_id }, item.duplicate());
        i = i + 1;
    }
    map
}

/// What becomes of the interface surface and the implemented items of a trait.
pub open spec fn retrieve_run(
    world: World,
    decl: TraitView,
    ctx: ContextView,
    type_id: TypeId,
    call_path: CallPath,
) -> Run<(Seq<(ItemKey, TyTraitInterfaceItem)>, Seq<(ItemKey, TyTraitItem)>)> {
    chain(
        to_items(
            ask(
                world,
                QueryView::ItemsForTypeAndTrait { ctx, type_id, trait_name: call_path },
            ),
        ),
        |world: World, items: Vec<TyTraitItem>|
            done(
                world,
                (surface_map(decl.interface_surface, type_id), item_map(items@, type_id)),
            ),
    )
}

/// A pair of maps that may be missing, as a mathematical value.
pub open spec fn two_maps(value: Option<(InterfaceItemMap, ItemMap)>) -> Option<
    (Seq<(ItemKey, TyTraitInterfaceItem)>, Seq<(ItemKey, TyTraitItem)>),
> {
    match value {
        Some((surface, items)) => Some((surface@, items@)),
        None => None,
    }
}

/// Three maps that may be missing, as a mathematical value.
pub open spec fn three_maps(value: Option<(InterfaceItemMap, ItemMap, ItemMap)>) -> Option<
    (
        Seq<(ItemKey, TyTraitInterfaceItem)>,
        Seq<(ItemKey, TyTraitItem)>,
        Seq<(ItemKey, TyTraitItem)>,
    ),
> {
    match value {
        Some((surface, items, impld)) => Some((surface@, items@, impld@)),
        None => None,
    }
}

/// A function declaration with `Self` replaced if a type is given for it.
pub open spec fn function_for(world: World, decl: TyFunctionDecl, self_type: Option<TypeId>) -> Run<
    TyFunctionDecl,
> {
    match self_type {
        None => done(world, decl),
        Some(type_id) => to_function(
            ask(
                world,
                QueryView::ReplaceSelfType { decl: DeclView::Function(decl@), type_id },
            ),
        ),
    }
}

/// A constant with `Self` replaced if a type is given for it.
pub open spec fn constant_for(world: World, decl: TyConstantDecl, self_type: Option<TypeId>) -> Run<
    TyConstantDecl,
> {
    match self_type {
        None => done(world, decl),
        Some(type_id) => to_constant(
            ask(
                world,
                QueryView::ReplaceSelfType { decl: DeclView::Constant(decl), type_id },
            ),
        ),
    }
}

/// An associated type with `Self` replaced if a type is given for it.
pub open spec fn trait_type_for(world: World, decl: TyTraitType, self_type: Option<TypeId>) -> Run<
    TyTraitType,
> {
    match self_type {
        None => done(world, decl),
        Some(type_id) => to_trait_type(
            ask(
                world,
                QueryView::ReplaceSelfType { decl: DeclView::TraitType(decl), type_id },
            ),
        ),
    }
}

/// Copies a function for other types. The copy has the function as its parent.
pub open spec fn copy_function_run(
    world: World,
    id: u64,
    self_type: Option<TypeId>,
    type_mapping: Seq<(TypeId, TypeId)>,
) -> Run<(Ident, TyTraitItem)> {
    chain(
        to_function(ask(world, QueryView::GetDecl { kind: DeclKind::Function, id })),
        |world: World, decl: TyFunctionDecl|
            chain(
                function_for(world, decl, self_type),
                |world: World, decl: TyFunctionDecl|
                    chain(
                        to_function(
                            ask(
                                world,
                                QueryView::SubstDecl {
                                    decl: DeclView::Function(decl@),
                                    type_subst: type_mapping,
                                },
                            ),
                        ),
                        |world: World, decl: TyFunctionDecl|
                            chain(
                                to_decl_ref(
                                    ask(
                                        world,
                                        QueryView::InsertDecl {
                                            decl: DeclView::Function(decl@),
                                            parent: Some(ParentId::Function(id)),
                                        },
                                    ),
                                ),
                                |world: World, copy: DeclRef|
                                    done(world, (decl.name, TyTraitItem::Fn(copy))),
                            ),
                    ),
            ),
    )
}

/// Copies a constant for other types.
pub open spec fn copy_constant_run(
    world: World,
    id: u64,
    self_type: Option<TypeId>,
    type_mapping: Seq<(TypeId, TypeId)>,
) -> Run<(Ident, TyTraitItem)> {
    chain(
        to_constant(ask(world, QueryView::GetDecl { kind: DeclKind::Constant, id })),
        |world: World, decl: TyConstantDecl|
            chain(
                constant_for(world, decl, self_type),
                |world: World, decl: TyConstantDecl|
                    chain(
                        to_constant(
                            ask(
                                world,
                                QueryView::SubstDecl {
                                    decl: DeclView::Constant(decl),
                                    type_subst: type_mapping,
                                },
                            ),
                        ),
                        |world: World, decl: TyConstantDecl|
                            chain(
                                to_decl_ref(
                                    ask(
                                        world,
                                        QueryView::InsertDecl {
                                            decl: DeclView::Constant(decl),
                                            parent: None,
                                        },
                                    ),
                                ),
                                |world: World, copy: DeclRef|
                                    done(world, (decl.name, TyTraitItem::Constant(copy))),
                            ),
                    ),
            ),
    )
}

/// Copies an associated type for other types.
pub open spec fn copy_type_run(
    world: World,
    id: u64,
    self_type: Option<TypeId>,
    type_mapping: Seq<(TypeId, TypeId)>,
) -> Run<(Ident, TyTraitItem)> {
    chain(
        to_trait_type(ask(world, QueryView::GetDecl { kind: DeclKind::TraitType, id })),
        |world: World, decl: TyTraitType|
            chain(
                trait_type_for(world, decl, self_type),
                |world: World, decl: TyTraitType|
                    chain(
                        to_trait_type(
                            ask(
                                world,
                                QueryView::SubstDecl {
                                    decl: DeclView::TraitType(decl),
                                    type_subst: type_mapping,
                                },
                            ),
                        ),
                        |world: World, decl: TyTraitType|
                            chain(
                                to_decl_ref(
                                    ask(
                                        world,
                                        QueryView::InsertDecl {
                                            decl: DeclView::TraitType(decl),
                                            parent: None,
                                        },
                                    ),
                                ),
                                |world: World, copy: DeclRef|
                                    done(world, (decl.name, TyTraitItem::Type(copy))),
                            ),
                    ),
            ),
    )
}

/// Copies an item for other types: `Self` is replaced if a type is given for it, the
/// substitution is applied, and the outcome is kept as a declaration of its own.
pub open spec fn copy_item_run(
    world: World,
    item: TyTraitItem,
    self_type: Option<TypeId>,
    type_mapping: Seq<(TypeId, TypeId)>,
) -> Run<(Ident, TyTraitItem)> {
    match item {
        TyTraitItem::Fn(decl_ref) => copy_function_run(
            world,
            decl_ref.id,
            self_type,
            type_mapping,
        ),
        TyTraitItem::Constant(decl_ref) => copy_constant_run(
            world,
            decl_ref.id,
            self_type,
            type_mapping,
        ),
        TyTraitItem::Type(decl_ref) => copy_type_run(world, decl_ref.id, self_type, type_mapping),
    }
}

fn copy_function(
    cx: &mut Session,
    id: u64,
    self_type: Option<TypeId>,
    type_mapping: &TypeSubstMap,
) -> (copy: Option<(Ident, TyTraitItem)>)
    ensures
        run(final(cx)@, copy) == copy_function_run(old(cx)@, id, self_type, type_mapping@),
{
    let mut decl = cx.ask_function(Query::GetDecl { kind: DeclKind::Function, id })?;
    if let Some(type_id) = self_type {
        decl =
        cx.ask_function(Query::ReplaceSelfType { decl: Decl::Function(decl), type_id })?;
    }
    let decl = cx.ask_function(
        Query::SubstDecl { decl: Decl::Function(decl), type_subst: type_mapping.duplicate() },
    )?;
    let name = decl.name.duplicate();
    let copy = cx.ask_decl_ref(
        Query::InsertDecl { decl: Decl::Function(decl), parent: Some(ParentId::Function(id)) },
    )?;
    Some((name, TyTraitItem::Fn(copy)))
}

fn copy_constant(
    cx: &mut Session,
    id: u64,
    self_type: Option<TypeId>,
    type_mapping: &TypeSubstMap,
) -> (copy: Option<(Ident, TyTraitItem)>)
    ensures
        run(final(cx)@, copy) == copy_constant_run(old(cx)@, id, self_type, type_mapping@),
{
    let mut decl = cx.ask_constant(Query::GetDecl { kind: DeclKind::Constant, id })?;
    if let Some(type_id) = self_type {
        decl =
        cx.ask_constant(Query::ReplaceSelfType { decl: Decl::Constant(decl), type_id })?;
    }
    let decl = cx.ask_constant(
        Query::SubstDecl { decl: Decl::Constant(decl), type_subst: type_mapping.duplicate() },
    )?;
    let name = decl.name.duplicate();
    let copy = cx.ask_decl_ref(
        Query::InsertDecl { decl: Decl::Constant(decl), parent: None },
    )?;
    Some((name, TyTraitItem::Constant(copy)))
}

fn copy_type(
    cx: &mut Session,
    id: u64,
    self_type: Option<TypeId>,
    type_mapping: &TypeSubstMap,
) -> (copy: Option<(Ident, TyTraitItem)>)
    ensures
        run(final(cx)@, copy) == copy_type_run(old(cx)@, id, self_type, type_mapping@),
{
    let mut decl = cx.ask_trait_type(Query::GetDecl { kind: DeclKind::TraitType, id })?;
    if let Some(type_id) = self_type {
        decl =
        cx.ask_trait_type(Query::ReplaceSelfType { decl: Decl::TraitType(decl), type_id })?;
    }
    let decl = cx.ask_trait_type(
        Query::SubstDecl { decl: Decl::TraitType(decl), type_subst: type_mapping.duplicate() },
    )?;
    let name = decl.name.duplicate();
    let copy = cx.ask_decl_ref(
        Query::InsertDecl { decl: Decl::TraitType(decl), parent: None },
    )?;
    Some((name, TyTraitItem::Type(copy)))
}

fn copy_item(
    cx: &mut Session,
    item: &TyTraitItem,
    self_type: Option<TypeId>,
    type_mapping: &TypeSubstMap,
) -> (copy: Option<(Ident, TyTraitItem)>)
    ensures
        run(final(cx)@, copy) == copy_item_run(old(cx)@, *item, self_type, type_mapping@),
{
    match item {
        TyTraitItem::Fn(decl_ref) => copy_function(cx, decl_ref.id, self_type, type_mapping),
        TyTraitItem::Constant(decl_ref) => copy_constant(
            cx,
            decl_ref.id,
            self_type,
            type_mapping,
        ),
        TyTraitItem::Type(decl_ref) => copy_type(cx, decl_ref.id, self_type, type_mapping),
    }
}

/// Copies the items from the `i`-th on and collects the copies by name and type.
pub open spec fn copies_run(
    world: World,
    items: Seq<TyTraitItem>,
    type_id: TypeId,
    type_mapping: Seq<(TypeId, TypeId)>,
    copies: Seq<(ItemKey, TyTraitItem)>,
    i: int,
) -> Run<Seq<(ItemKey, TyTraitItem)>>
    decreases items.len() - i,
{
    if i >= items.len() {
        done(world, copies)
    } else {
        chain(
            copy_item_run(world, items[i], None, type_mapping),
            |world: World, copy: (Ident, TyTraitItem)|
                copies_run(
                    world,
                    items,
                    type_id,
                    type_mapping,
                    put(copies, ItemKey { name: copy.0, type_id }, copy.1),
                    i + 1,
                ),
        )
    }
}

/// A map of items that may be missing, as a mathematical value.
spec fn one_map(value: Option<ItemMap>) -> Option<Seq<(ItemKey, TyTraitItem)>> {
    match value {
        Some(items) => Some(items@),
        None => None,
    }
}

fn copy_items(
    cx: &mut Session,
    items: &Vec<TyTraitItem>,
    type_id: TypeId,
    type_mapping: &TypeSubstMap,
) -> (copies: Option<ItemMap>)
    ensures
        run(final(cx)@, one_map(copies)) == copies_run(
            old(cx)@,
            items@,
            type_id,
            type_mapping@,
            Seq::empty(),
            0,
        ),
{
    let mut copies: ItemMap = SortedMap::new();
    let mut i: usize = 0;
    while i < items.len()
        invariant
            i <= items@.len(),
            copies_run(old(cx)@, items@, type_id, type_mapping@, Seq::empty(), 0) == copies_run(
                cx@,
                items@,
                type_id,
                type_mapping@,
                copies@,
                i as int,
            ),
        decreases items@.len() - i,
    {
        let (name, item) = copy_item(cx, &items[i], None, type_mapping)?;
        copies.insert(ItemKey { name, type_id }, item);
        i = i + 1;
    }
    Some(copies)
}

/// What becomes of the interface surface, the provided items and the implemented items of a
/// trait. The implemented ones are copied with the type arguments put in.
pub open spec fn retrieve_all_run(
    world: World,
    decl: TraitView,
    ctx: ContextView,
    type_id: TypeId,
    call_path: CallPath,
    type_arguments: Seq<TypeArgument>,
) -> Run<
    (
        Seq<(ItemKey, TyTraitInterfaceItem)>,
        Seq<(ItemKey, TyTraitItem)>,
        Seq<(ItemKey, TyTraitItem)>,
    ),
> {
    chain(
        to_items(
            ask(
                world,
                QueryView::ItemsForTypeAndTrait { ctx, type_id, trait_name: call_path },
            ),
        ),
        |world: World, items: Vec<TyTraitItem>|
            chain(
                copies_run(
                    world,
                    items@,
                    type_id,
                    subst_map(decl.type_parameters, type_arguments),
                    Seq::empty(),
                    0,
                ),
                |world: World, copies: Seq<(ItemKey, TyTraitItem)>|
                    done(
                        world,
                        (
                            surface_map(decl.interface_surface, type_id),
                            item_map(decl.items, type_id),
                            copies,
                        ),
                    ),
            ),
    )
}

/// Makes stand-ins for the interface items from the `i`-th on: a function without a body for
/// a signature, and the declaration itself for a constant or a type. Constants become known
/// by their names.
pub open spec fn stand_ins_run(
    world: World,
    ctx: ContextView,
    interface_surface: Seq<TyTraitInterfaceItem>,
    type_id: TypeId,
    type_mapping: Seq<(TypeId, TypeId)>,
    all_items: Seq<TyTraitItem>,
    i: int,
) -> Run<Seq<TyTraitItem>>
    decreases interface_surface.len() - i,
{
    if i >= interface_surface.len() {
        done(world, all_items)
    } else {
        chain(
            stand_in_run(world, ctx, interface_surface[i], type_id, type_mapping),
            |world: World, item: TyTraitItem|
                stand_ins_run(
                    world,
                    ctx,
                    interface_surface,
                    type_id,
                    type_mapping,
                    all_items.push(item),
                    i + 1,
                ),
        )
    }
}

/// Makes the stand-in for one interface item.
pub open spec fn stand_in_run(
    world: World,
    ctx: ContextView,
    item: TyTraitInterfaceItem,
    type_id: TypeId,
    type_mapping: Seq<(TypeId, TypeId)>,
) -> Run<TyTraitItem> {
    match item {
        TyTraitInterfaceItem::TraitFn(decl_ref) => chain(
            to_trait_fn(
                ask(world, QueryView::GetDecl { kind: DeclKind::TraitFn, id: decl_ref.id }),
            ),
            |world: World, method: TyTraitFn|
                chain(
                    to_trait_fn(
                        ask(
                            world,
                            QueryView::ReplaceSelfType {
                                decl: DeclView::TraitFn(method@),
                                type_id,
                            },
                        ),
                    ),
                    |world: World, method: TyTraitFn|
                        chain(
                            to_trait_fn(
                                ask(
                                    world,
                                    QueryView::SubstDecl {
                                        decl: DeclView::TraitFn(method@),
                                        type_subst: type_mapping,
                                    },
                                ),
                            ),
                            |world: World, method: TyTraitFn|
                                chain(
                                    to_decl_ref(
                                        ask(
                                            world,
                                            QueryView::InsertDummyFunction {
                                                trait_fn: method@,
                                                parent: ParentId::TraitFn(decl_ref.id),
                                            },
                                        ),
                                    ),
                                    |world: World, dummy: DeclRef|
                                        done(world, TyTraitItem::Fn(dummy)),
                                ),
                        ),
                ),
        ),
        TyTraitInterfaceItem::Constant(decl_ref) => chain(
            to_constant(
                ask(world, QueryView::GetDecl { kind: DeclKind::Constant, id: decl_ref.id }),
            ),
            |world: World, constant: TyConstantDecl|
                chain(
                    to_outcome(
                        ask(
                            world,
                            QueryView::InsertSymbol {
                                ctx,
                                name: constant.name@,
                                decl: TyDecl::ConstantDecl {
                                    name: constant.name,
                                    decl_id: decl_ref.id,
                                    decl_span: constant.span,
                                },
                            },
                        ),
                    ),
                    |world: World, _inserted: Result<(), ErrorEmitted>|
                        done(world, TyTraitItem::Constant(decl_ref)),
                ),
        ),
        TyTraitInterfaceItem::Type(decl_ref) => done(world, TyTraitItem::Type(decl_ref)),
    }
}

/// Copies the provided items from the `i`-th on for a type.
pub open spec fn provided_run(
    world: World,
    items: Seq<TyTraitItem>,
    type_id: TypeId,
    type_mapping: Seq<(TypeId, TypeId)>,
    all_items: Seq<TyTraitItem>,
    i: int,
) -> Run<Seq<TyTraitItem>>
    decreases items.len() - i,
{
    if i >= items.len() {
        done(world, all_items)
    } else {
        chain(
            copy_item_run(world, items[i], Some(type_id), type_mapping),
            |world: World, copy: (Ident, TyTraitItem)|
                provided_run(
                    world,
                    items,
                    type_id,
                    type_mapping,
                    all_items.push(copy.1),
                    i + 1,
                ),
        )
    }
}

/// Makes the interface surface and the items of a trait known for a type, for as long as an
/// impl block is checked. Nothing is said about conflicts: this is no impl block.
pub open spec fn insert_surface_run(
    world: World,
    decl: TraitView,
    ctx: ContextView,
    trait_name: CallPath,
    type_arguments: Seq<TypeArgument>,
    type_id: TypeId,
) -> Run<()> {
    let type_mapping = subst_map(decl.type_parameters, type_arguments);
    chain(
        stand_ins_run(
            world,
            ctx,
            decl.interface_surface,
            type_id,
            type_mapping,
            Seq::empty(),
            0,
        ),
        |world: World, stand_ins: Seq<TyTraitItem>|
            chain(
                provided_run(world, decl.items, type_id, type_mapping, stand_ins, 0),
                |world: World, all_items: Seq<TyTraitItem>|
                    chain(
                        to_outcome(
                            ask_quietly(
                                world,
                                QueryView::InsertTraitImplementation {
                                    ctx,
                                    trait_name,
                                    type_arguments,
                                    type_id,
                                    items: all_items,
                                    impl_span: trait_name.span,
                                    trait_decl_span: Some(decl.span),
                                    is_extending_existing_impl: false,
                                },
                            ),
                        ),
                        |world: World, _inserted: Result<(), ErrorEmitted>| done(world, ()),
                    ),
            ),
    )
}

fn make_stand_in(
    cx: &mut Session,
    ctx: &Context,
    item: &TyTraitInterfaceItem,
    type_id: TypeId,
    type_mapping: &TypeSubstMap,
) -> (stand_in: Option<TyTraitItem>)
    ensures
        run(final(cx)@, stand_in) == stand_in_run(
            old(cx)@,
            ctx@,
            *item,
            type_id,
            type_mapping@,
        ),
{
    match item {
        TyTraitInterfaceItem::TraitFn(decl_ref) => {
            let method = cx.ask_trait_fn(
                Query::GetDecl { kind: DeclKind::TraitFn, id: decl_ref.id },
            )?;
            let method = cx.ask_trait_fn(
                Query::ReplaceSelfType { decl: Decl::TraitFn(method), type_id },
            )?;
            let method = cx.ask_trait_fn(
                Query::SubstDecl {
                    decl: Decl::TraitFn(method),
                    type_subst: type_mapping.duplicate(),
                },
            )?;
            let dummy = cx.ask_decl_ref(
                Query::InsertDummyFunction {
                    trait_fn: method,
                    parent: ParentId::TraitFn(decl_ref.id),
                },
            )?;
            Some(TyTraitItem::Fn(dummy))
        },
        TyTraitInterfaceItem::Constant(decl_ref) => {
            let constant = cx.ask_constant(
                Query::GetDecl { kind: DeclKind::Constant, id: decl_ref.id },
            )?;
            cx.ask_outcome(
                Query::InsertSymbol {
                    ctx: ctx.duplicate(),
                    name: constant.name.duplicate(),
                    decl: TyDecl::ConstantDecl {
                        name: constant.name,
                        decl_id: decl_ref.id,
                        decl_span: constant.span,
                    },
                },
            )?;
            Some(TyTraitItem::Constant(decl_ref.duplicate()))
        },
        TyTraitInterfaceItem::Type(decl_ref) => Some(TyTraitItem::Type(decl_ref.duplicate())),
    }
}

impl TyTraitDecl {
    /// The interface surface of this trait, and the items that a type has from it.
    pub fn retrieve_interface_surface_and_implemented_items_for_type(
        &self,
        cx: &mut Session,
        ctx: &Context,
        type_id: TypeId,
        call_path: &CallPath,
    ) -> (maps: Option<(InterfaceItemMap, ItemMap)>)
        ensures
            run(final(cx)@, two_maps(maps)) == retrieve_run(
                old(cx)@,
                self@,
                ctx@,
                type_id,
                *call_path,
            ),
    {
        let interface_surface_item_refs = collect_surface(&self.interface_surface, type_id);
        let items = cx.ask_items(
            Query::ItemsForTypeAndTrait {
                ctx: ctx.duplicate(),
                type_id,
                trait_name: call_path.duplicate(),
            },
        )?;
        let impld_item_refs = collect_items(&items, type_id);
        Some((interface_surface_item_refs, impld_item_refs))
    }

    /// The interface surface of this trait, the items it provides, and the items that a type
    /// has from it, the last with the type arguments in the place of the type parameters.
    pub fn retrieve_interface_surface_and_items_and_implemented_items_for_type(
        &self,
        cx: &mut Session,
        ctx: &Context,
        type_id: TypeId,
        call_path: &CallPath,
        type_arguments: &Vec<TypeArgument>,
    ) -> (maps: Option<(InterfaceItemMap, ItemMap, ItemMap)>)
        ensures
            run(final(cx)@, three_maps(maps)) == retrieve_all_run(
                old(cx)@,
                self@,
                ctx@,
                type_id,
                *call_path,
                type_arguments@,
            ),
    {
        let interface_surface_item_refs = collect_surface(&self.interface_surface, type_id);
        let item_refs = collect_items(&self.items, type_id);
        let type_mapping = from_type_parameters_and_type_arguments(
            &self.type_parameters,
            type_arguments,
        );
        let items = cx.ask_items(
            Query::ItemsForTypeAndTrait {
                ctx: ctx.duplicate(),
                type_id,
                trait_name: call_path.duplicate(),
            },
        )?;
        let impld_item_refs = copy_items(cx, &items, type_id, &type_mapping)?;
        Some((interface_surface_item_refs, item_refs, impld_item_refs))
    }

    /// Makes the interface surface and the items of this trait known for a type, with the
    /// type arguments in the place of the type parameters.
    pub fn insert_interface_surface_and_items_into_namespace(
        &self,
        cx: &mut Session,
        ctx: &Context,
        trait_name: &CallPath,
        type_arguments: &Vec<TypeArgument>,
        type_id: TypeId,
    ) -> (finished: Option<()>)
        ensures
            run(final(cx)@, finished) == insert_surface_run(
                old(cx)@,
                self@,
                ctx@,
                *trait_name,
                type_arguments@,
                type_id,
            ),
    {
        let type_mapping = from_type_parameters_and_type_arguments(
            &self.type_parameters,
            type_arguments,
        );
        let stand_ins = self.make_stand_ins(cx, ctx, type_id, &type_mapping)?;
        let all_items = self.copy_provided_items(cx, type_id, &type_mapping, stand_ins)?;
        cx.ask_outcome_quietly(
            Query::InsertTraitImplementation {
                ctx: ctx.duplicate(),
                trait_name: trait_name.duplicate(),
                type_arguments: duplicate_all(type_arguments),
                type_id,
                items: all_items,
                impl_span: trait_name.span,
                trait_decl_span: Some(self.span),
                is_extending_existing_impl: false,
            },
        )?;
        Some(())
    }

    fn make_stand_ins(
        &self,
        cx: &mut Session,
        ctx: &Context,
        type_id: TypeId,
        type_mapping: &TypeSubstMap,
    ) -> (stand_ins: Option<Vec<TyTraitItem>>)
        ensures
            run(final(cx)@, list(stand_ins)) == stand_ins_run(
                old(cx)@,
                ctx@,
                self.interface_surface@,
                type_id,
                type_mapping@,
                Seq::empty(),
                0,
            ),
    {
        let mut all_items: Vec<TyTraitItem> = Vec::new();
        let mut i: usize = 0;
        while i < self.interface_surface.len()
            invariant
                i <= self.interface_surface@.len(),
                stand_ins_run(
                    old(cx)@,
                    ctx@,
                    self.interface_surface@,
                    type_id,
                    type_mapping@,
                    Seq::empty(),
                    0,
                ) == stand_ins_run(
                    cx@,
                    ctx@,
                    self.interface_surface@,
                    type_id,
                    type_mapping@,
                    all_items@,
                    i as int,
                ),
            decreases self.interface_surface@.len() - i,
        {
            let item = make_stand_in(cx, ctx, &self.interface_surface[i], type_id, type_mapping)?;
            all_items.push(item);
            i = i + 1;
        }
        Some(all_items)
    }

    fn copy_provided_items(
        &self,
        cx: &mut Session,
        type_id: TypeId,
        type_mapping: &TypeSubstMap,
        stand_ins: Vec<TyTraitItem>,
    ) -> (all_items: Option<Vec<TyTraitItem>>)
        ensures
            run(final(cx)@, list(all_items)) == provided_run(
                old(cx)@,
                self.items@,
                type_id,
                type_mapping@,
                stand_ins@,
                0,
            ),
    {
        let mut all_items = stand_ins;
        let mut i: usize = 0;
        while i < self.items.len()
            invariant
                i <= self.items@.len(),
                provided_run(
                    old(cx)@,
                    self.items@,
                    type_id,
                    type_mapping@,
                    stand_ins@,
                    0,
                ) == provided_run(
                    cx@,
                    self.items@,
                    type_id,
                    type_mapping@,
                    all_items@,
                    i as int,
                ),
            decreases self.items@.len() - i,
        {
            let (_, item) = copy_item(cx, &self.items[i], Some(type_id), type_mapping)?;
            all_items.push(item);
            i = i + 1;
        }
        Some(all_items)
    }
}

} // verus!
