//! How an interface is implemented, step by step: what is asked about each item, and that no
//! item of the interface, of the impl block or of the trait is passed over.
use crate::decl::{
    CallPath, ConstantDeclaration, Decl, DeclKind, DeclRef, DeclView, FunctionDeclaration,
    FunctionView, ImplItem, ParentId, TraitTypeDeclaration, TyConstantDecl, TyFunctionDecl,
    TyTraitFn, TyTraitInterfaceItem, TyTraitItem, TyTraitType,
};
use crate::diagnostics::{ErrorEmitted, ErrorView};
use crate::ident::Span;
use crate::impl_items::{const_decl_run, method_run, type_decl_run};
use crate::implementation::{
    bounds_run, checklist_run, complete_run, fit_item_run, fit_items_run, impl_constant_run,
    impl_members_run, impl_method_run, impl_type_run, impl_types_run, implementation_run,
    known_supertraits_run, missing_errors, surface_item_run, surface_run, ChecklistView, Fitting,
    Implementation,
};
use crate::laws::dialogue::answered;
use crate::ordered::{drop_key, keys_of, put, put_all, values_of, Key};
use crate::session::{
    ask, chain, chain_ok, done, run, to_outcome, Answer, ContextView, DeclMappingView, QueryView,
    Run, StopView, World,
};
use crate::supertraits::{supertraits_run, SupertraitItems};
use crate::types::{subst_map, ItemKey, TypeArgument, TypeId, TypeInfo, TypeParameter};
use vstd::prelude::*;

verus! {

/// A signature of the interface is fetched and put onto the checklist under the name in its
/// declaration; it becomes an interface item of the self type under that name.
pub proof fn law_asked_for_signature(
    world: World,
    decl_ref: DeclRef,
    self_type: TypeId,
    checklist: ChecklistView,
    decl: TyTraitFn,
)
    requires
        answered(world, seq![Answer::Decl(Decl::TraitFn(decl))]),
    ensures
        surface_item_run(
            world,
            TyTraitInterfaceItem::TraitFn(decl_ref),
            self_type,
            checklist,
        ) == done(
            world.hear(QueryView::GetDecl { kind: DeclKind::TraitFn, id: decl_ref.id }),
            ChecklistView {
                methods: put(checklist.methods, decl.name, decl),
                interface_items: put(
                    checklist.interface_items,
                    ItemKey { name: decl.name, type_id: self_type },
                    TyTraitInterfaceItem::TraitFn(decl_ref),
                ),
                ..checklist
            },
        ),
{
}

/// A constant of the interface is fetched and put onto the checklist under the name in its
/// declaration; it becomes an interface item of the self type under that name.
pub proof fn law_asked_for_constant(
    world: World,
    decl_ref: DeclRef,
    self_type: TypeId,
    checklist: ChecklistView,
    decl: TyConstantDecl,
)
    requires
        answered(world, seq![Answer::Decl(Decl::Constant(decl))]),
    ensures
        surface_item_run(
            world,
            TyTraitInterfaceItem::Constant(decl_ref),
            self_type,
            checklist,
        ) == done(
            world.hear(QueryView::GetDecl { kind: DeclKind::Constant, id: decl_ref.id }),
            ChecklistView {
                constants: put(checklist.constants, decl.name, decl),
                interface_items: put(
                    checklist.interface_items,
                    ItemKey { name: decl.name, type_id: self_type },
                    TyTraitInterfaceItem::Constant(decl_ref),
                ),
                ..checklist
            },
        ),
{
}

/// An associated type of the interface is fetched and put onto the checklist under the name in
/// its declaration; it becomes an interface item of the self type under that name.
pub proof fn law_asked_for_type(
    world: World,
    decl_ref: DeclRef,
    self_type: TypeId,
    checklist: ChecklistView,
    decl: TyTraitType,
)
    requires
        answered(world, seq![Answer::Decl(Decl::TraitType(decl))]),
    ensures
        surface_item_run(world, TyTraitInterfaceItem::Type(decl_ref), self_type, checklist) == done(
            world.hear(QueryView::GetDecl { kind: DeclKind::TraitType, id: decl_ref.id }),
            ChecklistView {
                types: put(checklist.types, decl.name, decl),
                interface_items: put(
                    checklist.interface_items,
                    ItemKey { name: decl.name, type_id: self_type },
                    TyTraitInterfaceItem::Type(decl_ref),
                ),
                ..checklist
            },
        ),
{
}

/// Each item of an interface is put onto the checklist, in their order. One item more changes
/// nothing for those before it.
pub proof fn law_surface_one_more(
    world: World,
    self_type: TypeId,
    items: Seq<TyTraitInterfaceItem>,
    last: TyTraitInterfaceItem,
    checklist: ChecklistView,
)
    ensures
        surface_run(world, Seq::empty(), self_type, checklist, 0) == done(world, checklist),
        surface_run(world, items.push(last), self_type, checklist, 0) == chain(
            surface_run(world, items, self_type, checklist, 0),
            |world: World, checklist: ChecklistView|
                surface_item_run(world, last, self_type, checklist),
        ),
{
    lemma_surface_one_more(world, self_type, items, last, checklist, 0);
}

/// The same from the `i`-th on.
proof fn lemma_surface_one_more(
    world: World,
    self_type: TypeId,
    items: Seq<TyTraitInterfaceItem>,
    last: TyTraitInterfaceItem,
    checklist: ChecklistView,
    i: int,
)
    requires
        0 <= i <= items.len(),
    ensures
        surface_run(world, items.push(last), self_type, checklist, i) == chain(
            surface_run(world, items, self_type, checklist, i),
            |world: World, checklist: ChecklistView|
                surface_item_run(world, last, self_type, checklist),
        ),
    decreases items.len() - i,
{
    if i < items.len() {
        assert(items.push(last)[i] == items[i]);
        let first = surface_item_run(world, items[i], self_type, checklist);
        if first.value is Some {
            lemma_surface_one_more(first.world, self_type, items, last, first.value->0, i + 1);
        }
    } else {
        reveal_with_fuel(surface_run, 2);
    }
}

/// An associated type that is accepted is kept after the associated types found so far were
/// put in. It is taken off the checklist under its name, and is implemented for the self type
/// under that name. The type that stands for it inside the trait is mapped to the type it
/// stands for here.
pub proof fn law_implemented_type(
    world: World,
    ctx: ContextView,
    parsed: TraitTypeDeclaration,
    trait_name: CallPath,
    is_contract: bool,
    checklist: ChecklistView,
    checked: Run<Result<TyTraitType, ErrorEmitted>>,
    accepted: TyTraitType,
    kept: TyTraitType,
    decl_ref: DeclRef,
    from: TypeId,
    to: TypeArgument,
)
    requires
        checked == type_decl_run(
            world,
            ctx,
            parsed,
            trait_name,
            is_contract,
            checklist.impld_items,
            checklist.types,
        ),
        checked.value == Some(Ok::<TyTraitType, ErrorEmitted>(accepted)),
        answered(
            checked.world,
            seq![
                Answer::Decl(Decl::TraitType(kept)),
                Answer::DeclRef(decl_ref),
                Answer::Type(from),
            ],
        ),
        kept.ty == Some(to),
    ensures
        impl_type_run(world, ctx, parsed, trait_name, is_contract, checklist) == done(
            checked.world.hear(
                QueryView::SubstDecl {
                    decl: DeclView::TraitType(accepted),
                    type_subst: checklist.type_mapping,
                },
            ).hear(
                QueryView::InsertDecl { decl: DeclView::TraitType(kept), parent: None },
            ).hear(
                QueryView::InsertType {
                    info: TypeInfo::TraitType { name: kept.name, trait_type_id: ctx.self_type },
                },
            ),
            ChecklistView {
                types: drop_key(checklist.types, kept.name.rank()),
                impld_items: put(
                    checklist.impld_items,
                    ItemKey { name: kept.name, type_id: ctx.self_type },
                    TyTraitItem::Type(decl_ref),
                ),
                type_mapping: put(checklist.type_mapping, from, to.type_id),
                ..checklist
            },
        ),
{
    reveal(impl_type_run);
}

/// An associated type that is refused is replaced by an error declaration, which is then kept
/// and taken off the checklist as the item would have been. The impl block is gone through all
/// the same.
pub proof fn law_failed_type(
    world: World,
    ctx: ContextView,
    parsed: TraitTypeDeclaration,
    trait_name: CallPath,
    is_contract: bool,
    checklist: ChecklistView,
    checked: Run<Result<TyTraitType, ErrorEmitted>>,
    error_decl: TyTraitType,
    kept: TyTraitType,
    decl_ref: DeclRef,
    from: TypeId,
    to: TypeArgument,
)
    requires
        checked == type_decl_run(
            world,
            ctx,
            parsed,
            trait_name,
            is_contract,
            checklist.impld_items,
            checklist.types,
        ),
        checked.value == Some(Err::<TyTraitType, _>(ErrorEmitted)),
        answered(
            checked.world,
            seq![
                Answer::Decl(Decl::TraitType(error_decl)),
                Answer::Decl(Decl::TraitType(kept)),
                Answer::DeclRef(decl_ref),
                Answer::Type(from),
            ],
        ),
        kept.ty == Some(to),
    ensures
        impl_type_run(world, ctx, parsed, trait_name, is_contract, checklist) == done(
            checked.world.hear(
                QueryView::ErrorTraitType { parsed },
            ).hear(
                QueryView::SubstDecl {
                    decl: DeclView::TraitType(error_decl),
                    type_subst: checklist.type_mapping,
                },
            ).hear(
                QueryView::InsertDecl { decl: DeclView::TraitType(kept), parent: None },
            ).hear(
                QueryView::InsertType {
                    info: TypeInfo::TraitType { name: kept.name, trait_type_id: ctx.self_type },
                },
            ),
            ChecklistView {
                types: drop_key(checklist.types, kept.name.rank()),
                impld_items: put(
                    checklist.impld_items,
                    ItemKey { name: kept.name, type_id: ctx.self_type },
                    TyTraitItem::Type(decl_ref),
                ),
                type_mapping: put(checklist.type_mapping, from, to.type_id),
                ..checklist
            },
        ),
{
    reveal(impl_type_run);
}

/// A method that is accepted is kept after the associated types found so far were put in. It
/// is taken off the checklist under its name, and is implemented for the self type under that
/// name. It is checked under the associated types found before it.
pub proof fn law_implemented_method(
    world: World,
    ctx: ContextView,
    impl_type_parameters: Seq<TypeParameter>,
    parsed: FunctionDeclaration,
    trait_name: CallPath,
    is_contract: bool,
    checklist: ChecklistView,
    checked: Run<Result<FunctionView, ErrorEmitted>>,
    accepted: FunctionView,
    kept: TyFunctionDecl,
    decl_ref: DeclRef,
)
    requires
        checked == method_run(
            world,
            ctx.with_type_subst(checklist.type_mapping),
            impl_type_parameters,
            parsed,
            trait_name,
            is_contract,
            checklist.impld_items,
            checklist.methods,
        ),
        checked.value == Some(Ok::<FunctionView, ErrorEmitted>(accepted)),
        answered(
            checked.world,
            seq![Answer::Decl(Decl::Function(kept)), Answer::DeclRef(decl_ref)],
        ),
    ensures
        impl_method_run(
            world,
            ctx,
            impl_type_parameters,
            parsed,
            trait_name,
            is_contract,
            checklist,
        ) == done(
            checked.world.hear(
                QueryView::SubstDecl {
                    decl: DeclView::Function(accepted),
                    type_subst: checklist.type_mapping,
                },
            ).hear(QueryView::InsertDecl { decl: DeclView::Function(kept@), parent: None }),
            ChecklistView {
                methods: drop_key(checklist.methods, kept.name.rank()),
                impld_items: put(
                    checklist.impld_items,
                    ItemKey { name: kept.name, type_id: ctx.self_type },
                    TyTraitItem::Fn(decl_ref),
                ),
                ..checklist
            },
        ),
{
    reveal(impl_method_run);
}

/// A method that is refused is replaced by an error declaration, which is then kept and taken
/// off the checklist as the item would have been. The impl block is gone through all the same.
pub proof fn law_failed_method(
    world: World,
    ctx: ContextView,
    impl_type_parameters: Seq<TypeParameter>,
    parsed: FunctionDeclaration,
    trait_name: CallPath,
    is_contract: bool,
    checklist: ChecklistView,
    checked: Run<Result<FunctionView, ErrorEmitted>>,
    error_decl: TyFunctionDecl,
    kept: TyFunctionDecl,
    decl_ref: DeclRef,
)
    requires
        checked == method_run(
            world,
            ctx.with_type_subst(checklist.type_mapping),
            impl_type_parameters,
            parsed,
            trait_name,
            is_contract,
            checklist.impld_items,
            checklist.methods,
        ),
        checked.value == Some(Err::<FunctionView, _>(ErrorEmitted)),
        answered(
            checked.world,
            seq![
                Answer::Decl(Decl::Function(error_decl)),
                Answer::Decl(Decl::Function(kept)),
                Answer::DeclRef(decl_ref),
            ],
        ),
    ensures
        impl_method_run(
            world,
            ctx,
            impl_type_parameters,
            parsed,
            trait_name,
            is_contract,
            checklist,
        ) == done(
            checked.world.hear(
                QueryView::ErrorFunction { parsed },
            ).hear(
                QueryView::SubstDecl {
                    decl: DeclView::Function(error_decl@),
                    type_subst: checklist.type_mapping,
                },
            ).hear(
                QueryView::InsertDecl { decl: DeclView::Function(kept@), parent: None },
            ),
            ChecklistView {
                methods: drop_key(checklist.methods, kept.name.rank()),
                impld_items: put(
                    checklist.impld_items,
                    ItemKey { name: kept.name, type_id: ctx.self_type },
                    TyTraitItem::Fn(decl_ref),
                ),
                ..checklist
            },
        ),
{
    reveal(impl_method_run);
}

/// A constant that is accepted is kept after the associated types found so far were put in. It
/// is taken off the checklist under its name, and is implemented for the self type under that
/// name. It is checked under the associated types found before it.
pub proof fn law_implemented_constant(
    world: World,
    ctx: ContextView,
    parsed: ConstantDeclaration,
    trait_name: CallPath,
    is_contract: bool,
    checklist: ChecklistView,
    checked: Run<Result<TyConstantDecl, ErrorEmitted>>,
    accepted: TyConstantDecl,
    kept: TyConstantDecl,
    decl_ref: DeclRef,
)
    requires
        checked == const_decl_run(
            world,
            ctx.with_type_subst(checklist.type_mapping),
            parsed,
            trait_name,
            is_contract,
            checklist.impld_items,
            checklist.constants,
        ),
        checked.value == Some(Ok::<TyConstantDecl, ErrorEmitted>(accepted)),
        answered(
            checked.world,
            seq![Answer::Decl(Decl::Constant(kept)), Answer::DeclRef(decl_ref)],
        ),
    ensures
        impl_constant_run(world, ctx, parsed, trait_name, is_contract, checklist) == done(
            checked.world.hear(
                QueryView::SubstDecl {
                    decl: DeclView::Constant(accepted),
                    type_subst: checklist.type_mapping,
                },
            ).hear(QueryView::InsertDecl { decl: DeclView::Constant(kept), parent: None }),
            ChecklistView {
                constants: drop_key(checklist.constants, kept.name.rank()),
                impld_items: put(
                    checklist.impld_items,
                    ItemKey { name: kept.name, type_id: ctx.self_type },
                    TyTraitItem::Constant(decl_ref),
                ),
                ..checklist
            },
        ),
{
    reveal(impl_constant_run);
}

/// A constant that is refused is replaced by an error declaration, which is then kept and
/// taken off the checklist as the item would have been. The impl block is gone through all the
/// same.
pub proof fn law_failed_constant(
    world: World,
    ctx: ContextView,
    parsed: ConstantDeclaration,
    trait_name: CallPath,
    is_contract: bool,
    checklist: ChecklistView,
    checked: Run<Result<TyConstantDecl, ErrorEmitted>>,
    error_decl: TyConstantDecl,
    kept: TyConstantDecl,
    decl_ref: DeclRef,
)
    requires
        checked == const_decl_run(
            world,
            ctx.with_type_subst(checklist.type_mapping),
            parsed,
            trait_name,
            is_contract,
            checklist.impld_items,
            checklist.constants,
        ),
        checked.value == Some(Err::<TyConstantDecl, _>(ErrorEmitted)),
        answered(
            checked.world,
            seq![
                Answer::Decl(Decl::Constant(error_decl)),
                Answer::Decl(Decl::Constant(kept)),
                Answer::DeclRef(decl_ref),
            ],
        ),
    ensures
        impl_constant_run(world, ctx, parsed, trait_name, is_contract, checklist) == done(
            checked.world.hear(
                QueryView::ErrorConstant { parsed },
            ).hear(
                QueryView::SubstDecl {
                    decl: DeclView::Constant(error_decl),
                    type_subst: checklist.type_mapping,
                },
            ).hear(
                QueryView::InsertDecl { decl: DeclView::Constant(kept), parent: None },
            ),
            ChecklistView {
                constants: drop_key(checklist.constants, kept.name.rank()),
                impld_items: put(
                    checklist.impld_items,
                    ItemKey { name: kept.name, type_id: ctx.self_type },
                    TyTraitItem::Constant(decl_ref),
                ),
                ..checklist
            },
        ),
{
    reveal(impl_constant_run);
}

/// An associated type must stand for a type. From one that stands for none, accepted or put in
/// the place of a refused one, the check cannot go on.
pub proof fn law_type_for_no_type(
    world: World,
    ctx: ContextView,
    parsed: TraitTypeDeclaration,
    trait_name: CallPath,
    is_contract: bool,
    checklist: ChecklistView,
    checked: Run<Result<TyTraitType, ErrorEmitted>>,
    accepted: TyTraitType,
    kept: TyTraitType,
    decl_ref: DeclRef,
    from: TypeId,
)
    requires
        checked == type_decl_run(
            world,
            ctx,
            parsed,
            trait_name,
            is_contract,
            checklist.impld_items,
            checklist.types,
        ),
        checked.value == Some(Ok::<TyTraitType, ErrorEmitted>(accepted)),
        answered(
            checked.world,
            seq![
                Answer::Decl(Decl::TraitType(kept)),
                Answer::DeclRef(decl_ref),
                Answer::Type(from),
            ],
        ),
        kept.ty is None,
    ensures
        impl_type_run(world, ctx, parsed, trait_name, is_contract, checklist) == run(
            checked.world.hear(
                QueryView::SubstDecl {
                    decl: DeclView::TraitType(accepted),
                    type_subst: checklist.type_mapping,
                },
            ).hear(
                QueryView::InsertDecl { decl: DeclView::TraitType(kept), parent: None },
            ).hear(
                QueryView::InsertType {
                    info: TypeInfo::TraitType { name: kept.name, trait_type_id: ctx.self_type },
                },
            ).stopped(
                StopView::Contradiction,
            ),
            None::<ChecklistView>,
        ),
{
    reveal(impl_type_run);
}

/// An associated type must stand for a type. From one that stands for none, accepted or put in
/// the place of a refused one, the check cannot go on.
pub proof fn law_failed_type_for_no_type(
    world: World,
    ctx: ContextView,
    parsed: TraitTypeDeclaration,
    trait_name: CallPath,
    is_contract: bool,
    checklist: ChecklistView,
    checked: Run<Result<TyTraitType, ErrorEmitted>>,
    accepted: TyTraitType,
    kept: TyTraitType,
    decl_ref: DeclRef,
    from: TypeId,
)
    requires
        checked == type_decl_run(
            world,
            ctx,
            parsed,
            trait_name,
            is_contract,
            checklist.impld_items,
            checklist.types,
        ),
        checked.value == Some(Err::<TyTraitType, _>(ErrorEmitted)),
        answered(
            checked.world,
            seq![
                Answer::Decl(Decl::TraitType(accepted)),
                Answer::Decl(Decl::TraitType(kept)),
                Answer::DeclRef(decl_ref),
                Answer::Type(from),
            ],
        ),
        kept.ty is None,
    ensures
        impl_type_run(world, ctx, parsed, trait_name, is_contract, checklist) == run(
            checked.world.hear(
                QueryView::ErrorTraitType { parsed },
            ).hear(
                QueryView::SubstDecl {
                    decl: DeclView::TraitType(accepted),
                    type_subst: checklist.type_mapping,
                },
            ).hear(
                QueryView::InsertDecl { decl: DeclView::TraitType(kept), parent: None },
            ).hear(
                QueryView::InsertType {
                    info: TypeInfo::TraitType { name: kept.name, trait_type_id: ctx.self_type },
                },
            ).stopped(
                StopView::Contradiction,
            ),
            None::<ChecklistView>,
        ),
{
    reveal(impl_type_run);
}

/// The associated types of an impl block are gone through in their order, and its other items
/// passed over. One item more changes nothing for those before it.
pub proof fn law_impl_types_one_more(
    world: World,
    ctx: ContextView,
    trait_name: CallPath,
    is_contract: bool,
    items: Seq<ImplItem>,
    last: ImplItem,
    checklist: ChecklistView,
)
    ensures
        impl_types_run(
            world,
            ctx,
            Seq::empty(),
            trait_name,
            is_contract,
            checklist,
            0,
        ) == done(world, checklist),
        impl_types_run(
            world,
            ctx,
            items.push(last),
            trait_name,
            is_contract,
            checklist,
            0,
        ) == chain(
            impl_types_run(world, ctx, items, trait_name, is_contract, checklist, 0),
            |world: World, checklist: ChecklistView|
                type_of_block_run(world, ctx, last, trait_name, is_contract, checklist),
        ),
{
    lemma_impl_types_one_more(world, ctx, trait_name, is_contract, items, last, checklist, 0);
}

/// The same from the `i`-th on.
proof fn lemma_impl_types_one_more(
    world: World,
    ctx: ContextView,
    trait_name: CallPath,
    is_contract: bool,
    items: Seq<ImplItem>,
    last: ImplItem,
    checklist: ChecklistView,
    i: int,
)
    requires
        0 <= i <= items.len(),
    ensures
        impl_types_run(
            world,
            ctx,
            items.push(last),
            trait_name,
            is_contract,
            checklist,
            i,
        ) == chain(
            impl_types_run(world, ctx, items, trait_name, is_contract, checklist, i),
            |world: World, checklist: ChecklistView|
                type_of_block_run(world, ctx, last, trait_name, is_contract, checklist),
        ),
    decreases items.len() - i,
{
    if i < items.len() {
        assert(items.push(last)[i] == items[i]);
        let first = type_of_block_run(world, ctx, items[i], trait_name, is_contract, checklist);
        if first.value is Some {
            lemma_impl_types_one_more(
                first.world,
                ctx,
                trait_name,
                is_contract,
                items,
                last,
                first.value->0,
                i + 1,
            );
        }
    } else {
        reveal_with_fuel(impl_types_run, 2);
    }
}

/// The methods and the constants of an impl block are gone through in their order, and its
/// associated types passed over. One item more changes nothing for those before it.
pub proof fn law_impl_members_one_more(
    world: World,
    ctx: ContextView,
    impl_type_parameters: Seq<TypeParameter>,
    trait_name: CallPath,
    is_contract: bool,
    items: Seq<ImplItem>,
    last: ImplItem,
    checklist: ChecklistView,
)
    ensures
        impl_members_run(
            world,
            ctx,
            impl_type_parameters,
            Seq::empty(),
            trait_name,
            is_contract,
            checklist,
            0,
        ) == done(world, checklist),
        impl_members_run(
            world,
            ctx,
            impl_type_parameters,
            items.push(last),
            trait_name,
            is_contract,
            checklist,
            0,
        ) == chain(
            impl_members_run(
                world,
                ctx,
                impl_type_parameters,
                items,
                trait_name,
                is_contract,
                checklist,
                0,
            ),
            |world: World, checklist: ChecklistView|
                member_of_block_run(
                    world,
                    ctx,
                    impl_type_parameters,
                    last,
                    trait_name,
                    is_contract,
                    checklist,
                ),
        ),
{
    lemma_impl_members_one_more(
        world,
        ctx,
        impl_type_parameters,
        trait_name,
        is_contract,
        items,
        last,
        checklist,
        0,
    );
}

/// The same from the `i`-th on.
proof fn lemma_impl_members_one_more(
    world: World,
    ctx: ContextView,
    impl_type_parameters: Seq<TypeParameter>,
    trait_name: CallPath,
    is_contract: bool,
    items: Seq<ImplItem>,
    last: ImplItem,
    checklist: ChecklistView,
    i: int,
)
    requires
        0 <= i <= items.len(),
    ensures
        impl_members_run(
            world,
            ctx,
            impl_type_parameters,
            items.push(last),
            trait_name,
            is_contract,
            checklist,
            i,
        ) == chain(
            impl_members_run(
                world,
                ctx,
                impl_type_parameters,
                items,
                trait_name,
                is_contract,
                checklist,
                i,
            ),
            |world: World, checklist: ChecklistView|
                member_of_block_run(
                    world,
                    ctx,
                    impl_type_parameters,
                    last,
                    trait_name,
                    is_contract,
                    checklist,
                ),
        ),
    decreases items.len() - i,
{
    if i < items.len() {
        assert(items.push(last)[i] == items[i]);
        let first = member_of_block_run(
            world,
            ctx,
            impl_type_parameters,
            items[i],
            trait_name,
            is_contract,
            checklist,
        );
        if first.value is Some {
            lemma_impl_members_one_more(
                first.world,
                ctx,
                impl_type_parameters,
                trait_name,
                is_contract,
                items,
                last,
                first.value->0,
                i + 1,
            );
        }
    } else {
        reveal_with_fuel(impl_members_run, 2);
    }
}

/// What becomes of one item of an impl block while its associated types are gone through.
pub open spec fn type_of_block_run(
    world: World,
    ctx: ContextView,
    item: ImplItem,
    trait_name: CallPath,
    is_contract: bool,
    checklist: ChecklistView,
) -> Run<ChecklistView> {
    if let ImplItem::Type(parsed) = item {
        impl_type_run(world, ctx, parsed, trait_name, is_contract, checklist)
    } else {
        done(world, checklist)
    }
}

/// What becomes of one item of an impl block while its methods and constants are gone
/// through.
pub open spec fn member_of_block_run(
    world: World,
    ctx: ContextView,
    impl_type_parameters: Seq<TypeParameter>,
    item: ImplItem,
    trait_name: CallPath,
    is_contract: bool,
    checklist: ChecklistView,
) -> Run<ChecklistView> {
    if let ImplItem::Fn(parsed) = item {
        impl_method_run(
            world,
            ctx,
            impl_type_parameters,
            parsed,
            trait_name,
            is_contract,
            checklist,
        )
    } else if let ImplItem::Constant(parsed) = item {
        impl_constant_run(world, ctx, parsed, trait_name, is_contract, checklist)
    } else {
        done(world, checklist)
    }
}

/// A function that the trait provides is fitted in five steps: it is fetched, the declarations
/// it uses are replaced, `Self` is replaced by the self type, the type mapping is applied, and
/// the outcome is kept, with the function that the trait provides as its parent.
pub proof fn law_fitted_function(
    world: World,
    ctx: ContextView,
    decl_ref: DeclRef,
    fitting: Fitting,
    decl: TyFunctionDecl,
    mapped: TyFunctionDecl,
    replaced: TyFunctionDecl,
    substituted: TyFunctionDecl,
    new: DeclRef,
)
    requires
        answered(
            world,
            seq![
                Answer::Decl(Decl::Function(decl)),
                Answer::Decl(Decl::Function(mapped)),
                Answer::Decl(Decl::Function(replaced)),
                Answer::Decl(Decl::Function(substituted)),
                Answer::DeclRef(new),
            ],
        ),
    ensures
        fit_item_run(world, ctx, TyTraitItem::Fn(decl_ref), fitting) == done(
            world.hear(
                QueryView::GetDecl { kind: DeclKind::Function, id: decl_ref.id },
            ).hear(
                QueryView::ReplaceDecls {
                    ctx,
                    decl: DeclView::Function(decl@),
                    mapping: fitting.decl_mapping,
                },
            ).hear(
                QueryView::ReplaceSelfType {
                    decl: DeclView::Function(mapped@),
                    type_id: ctx.self_type,
                },
            ).hear(
                QueryView::SubstDecl {
                    decl: DeclView::Function(replaced@),
                    type_subst: fitting.type_mapping,
                },
            ).hear(
                QueryView::InsertDecl {
                    decl: DeclView::Function(substituted@),
                    parent: Some(ParentId::Function(decl_ref.id)),
                },
            ),
            Ok::<TyTraitItem, ErrorEmitted>(TyTraitItem::Fn(new)),
        ),
{
    reveal(fit_item_run);
}

/// A function whose declarations cannot be replaced ends the fitting with an error.
pub proof fn law_unfit_function(
    world: World,
    ctx: ContextView,
    decl_ref: DeclRef,
    fitting: Fitting,
    decl: TyFunctionDecl,
)
    requires
        answered(world, seq![Answer::Decl(Decl::Function(decl)), Answer::Failed]),
    ensures
        fit_item_run(world, ctx, TyTraitItem::Fn(decl_ref), fitting) == done(
            world.hear(
                QueryView::GetDecl { kind: DeclKind::Function, id: decl_ref.id },
            ).hear(
                QueryView::ReplaceDecls {
                    ctx,
                    decl: DeclView::Function(decl@),
                    mapping: fitting.decl_mapping,
                },
            ),
            Err::<TyTraitItem, _>(ErrorEmitted),
        ),
{
    reveal(fit_item_run);
}

/// A constant that the trait provides is fitted in five steps: it is fetched, the declarations
/// it uses are replaced, `Self` is replaced by the self type, the type mapping is applied, and
/// the outcome is kept.
pub proof fn law_fitted_constant(
    world: World,
    ctx: ContextView,
    decl_ref: DeclRef,
    fitting: Fitting,
    decl: TyConstantDecl,
    mapped: TyConstantDecl,
    replaced: TyConstantDecl,
    substituted: TyConstantDecl,
    new: DeclRef,
)
    requires
        answered(
            world,
            seq![
                Answer::Decl(Decl::Constant(decl)),
                Answer::Decl(Decl::Constant(mapped)),
                Answer::Decl(Decl::Constant(replaced)),
                Answer::Decl(Decl::Constant(substituted)),
                Answer::DeclRef(new),
            ],
        ),
    ensures
        fit_item_run(world, ctx, TyTraitItem::Constant(decl_ref), fitting) == done(
            world.hear(
                QueryView::GetDecl { kind: DeclKind::Constant, id: decl_ref.id },
            ).hear(
                QueryView::ReplaceDecls {
                    ctx,
                    decl: DeclView::Constant(decl),
                    mapping: fitting.decl_mapping,
                },
            ).hear(
                QueryView::ReplaceSelfType {
                    decl: DeclView::Constant(mapped),
                    type_id: ctx.self_type,
                },
            ).hear(
                QueryView::SubstDecl {
                    decl: DeclView::Constant(replaced),
                    type_subst: fitting.type_mapping,
                },
            ).hear(
                QueryView::InsertDecl { decl: DeclView::Constant(substituted), parent: None },
            ),
            Ok::<TyTraitItem, ErrorEmitted>(TyTraitItem::Constant(new)),
        ),
{
    reveal(fit_item_run);
}

/// A constant whose declarations cannot be replaced ends the fitting with an error.
pub proof fn law_unfit_constant(
    world: World,
    ctx: ContextView,
    decl_ref: DeclRef,
    fitting: Fitting,
    decl: TyConstantDecl,
)
    requires
        answered(world, seq![Answer::Decl(Decl::Constant(decl)), Answer::Failed]),
    ensures
        fit_item_run(world, ctx, TyTraitItem::Constant(decl_ref), fitting) == done(
            world.hear(
                QueryView::GetDecl { kind: DeclKind::Constant, id: decl_ref.id },
            ).hear(
                QueryView::ReplaceDecls {
                    ctx,
                    decl: DeclView::Constant(decl),
                    mapping: fitting.decl_mapping,
                },
            ),
            Err::<TyTraitItem, _>(ErrorEmitted),
        ),
{
    reveal(fit_item_run);
}

/// An associated type that the trait provides is fitted in four steps: it is fetched, `Self`
/// is replaced by the self type, the type mapping is applied, and the outcome is kept.
pub proof fn law_fitted_type(
    world: World,
    ctx: ContextView,
    decl_ref: DeclRef,
    fitting: Fitting,
    decl: TyTraitType,
    replaced: TyTraitType,
    substituted: TyTraitType,
    new: DeclRef,
)
    requires
        answered(
            world,
            seq![
                Answer::Decl(Decl::TraitType(decl)),
                Answer::Decl(Decl::TraitType(replaced)),
                Answer::Decl(Decl::TraitType(substituted)),
                Answer::DeclRef(new),
            ],
        ),
    ensures
        fit_item_run(world, ctx, TyTraitItem::Type(decl_ref), fitting) == done(
            world.hear(
                QueryView::GetDecl { kind: DeclKind::TraitType, id: decl_ref.id },
            ).hear(
                QueryView::ReplaceSelfType {
                    decl: DeclView::TraitType(decl),
                    type_id: ctx.self_type,
                },
            ).hear(
                QueryView::SubstDecl {
                    decl: DeclView::TraitType(replaced),
                    type_subst: fitting.type_mapping,
                },
            ).hear(
                QueryView::InsertDecl { decl: DeclView::TraitType(substituted), parent: None },
            ),
            Ok::<TyTraitItem, ErrorEmitted>(TyTraitItem::Type(new)),
        ),
{
    reveal(fit_item_run);
}

/// The items that the trait provides are fitted in their order, and each outcome is put behind
/// the items before it. One item more changes nothing for those before it.
pub proof fn law_fit_items_one_more(
    world: World,
    ctx: ContextView,
    fitting: Fitting,
    items: Seq<TyTraitItem>,
    last: TyTraitItem,
    all_items: Seq<TyTraitItem>,
)
    ensures
        fit_items_run(
            world,
            ctx,
            Seq::empty(),
            fitting,
            all_items,
            0,
        ) == done(world, Ok::<_, ErrorEmitted>(all_items)),
        fit_items_run(world, ctx, items.push(last), fitting, all_items, 0) == chain_ok(
            fit_items_run(world, ctx, items, fitting, all_items, 0),
            |world: World, all_items: Seq<TyTraitItem>|
                chain_ok(
                    fit_item_run(world, ctx, last, fitting),
                    |world: World, item: TyTraitItem| done(world, Ok(all_items.push(item))),
                ),
        ),
{
    lemma_fit_items_one_more(world, ctx, fitting, items, last, all_items, 0);
}

/// The same from the `i`-th on.
proof fn lemma_fit_items_one_more(
    world: World,
    ctx: ContextView,
    fitting: Fitting,
    items: Seq<TyTraitItem>,
    last: TyTraitItem,
    all_items: Seq<TyTraitItem>,
    i: int,
)
    requires
        0 <= i <= items.len(),
    ensures
        fit_items_run(world, ctx, items.push(last), fitting, all_items, i) == chain_ok(
            fit_items_run(world, ctx, items, fitting, all_items, i),
            |world: World, all_items: Seq<TyTraitItem>|
                chain_ok(
                    fit_item_run(world, ctx, last, fitting),
                    |world: World, item: TyTraitItem| done(world, Ok(all_items.push(item))),
                ),
        ),
    decreases items.len() - i,
{
    if i < items.len() {
        assert(items.push(last)[i] == items[i]);
        let first = chain_ok(
            fit_item_run(world, ctx, items[i], fitting),
            |world: World, item: TyTraitItem| done(world, Ok(all_items.push(item))),
        );
        if first.value is Some && first.value->0 is Ok {
            lemma_fit_items_one_more(
                first.world,
                ctx,
                fitting,
                items,
                last,
                first.value->0->Ok_0,
                i + 1,
            );
        }
    } else {
        reveal_with_fuel(fit_items_run, 2);
    }
}

/// Each type argument of a trait is checked against the constraints of the type parameter in
/// its place, in their order. One pair more changes nothing for those before it.
pub proof fn law_bounds_one_more(
    world: World,
    ctx: ContextView,
    type_arguments: Seq<TypeArgument>,
    type_parameters: Seq<TypeParameter>,
    argument: TypeArgument,
    parameter: TypeParameter,
)
    requires
        type_arguments.len() == type_parameters.len(),
    ensures
        bounds_run(
            world,
            ctx,
            Seq::empty(),
            Seq::empty(),
            0,
        ) == done(world, Ok::<_, ErrorEmitted>(())),
        bounds_run(
            world,
            ctx,
            type_arguments.push(argument),
            type_parameters.push(parameter),
            0,
        ) == chain_ok(
            bounds_run(world, ctx, type_arguments, type_parameters, 0),
            |world: World, _before: ()|
                to_outcome(
                    ask(
                        world,
                        QueryView::CheckTypeParameterBounds {
                            ctx,
                            type_id: argument.type_id,
                            span: argument.span,
                            constraints_of: Some(parameter),
                        },
                    ),
                ),
        ),
{
    lemma_bounds_one_more(world, ctx, type_arguments, type_parameters, argument, parameter, 0);
}

/// The same from the `i`-th on.
proof fn lemma_bounds_one_more(
    world: World,
    ctx: ContextView,
    type_arguments: Seq<TypeArgument>,
    type_parameters: Seq<TypeParameter>,
    argument: TypeArgument,
    parameter: TypeParameter,
    i: int,
)
    requires
        type_arguments.len() == type_parameters.len(),
        0 <= i <= type_arguments.len(),
    ensures
        bounds_run(
            world,
            ctx,
            type_arguments.push(argument),
            type_parameters.push(parameter),
            i,
        ) == chain_ok(
            bounds_run(world, ctx, type_arguments, type_parameters, i),
            |world: World, _before: ()|
                to_outcome(
                    ask(
                        world,
                        QueryView::CheckTypeParameterBounds {
                            ctx,
                            type_id: argument.type_id,
                            span: argument.span,
                            constraints_of: Some(parameter),
                        },
                    ),
                ),
        ),
    decreases type_arguments.len() - i,
{
    if i < type_arguments.len() {
        assert(type_arguments.push(argument)[i] == type_arguments[i]);
        assert(type_parameters.push(parameter)[i] == type_parameters[i]);
        let first = to_outcome(
            ask(
                world,
                QueryView::CheckTypeParameterBounds {
                    ctx,
                    type_id: type_arguments[i].type_id,
                    span: type_arguments[i].span,
                    constraints_of: Some(type_parameters[i]),
                },
            ),
        );
        if first.value is Some && first.value->0 is Ok {
            lemma_bounds_one_more(
                first.world,
                ctx,
                type_arguments,
                type_parameters,
                argument,
                parameter,
                i + 1,
            );
        }
    } else {
        reveal_with_fuel(bounds_run, 2);
    }
}

/// Type arguments without a type parameter in their place, and type parameters without a type
/// argument, are not checked.
pub proof fn law_bounds_in_pairs(
    world: World,
    ctx: ContextView,
    type_arguments: Seq<TypeArgument>,
    type_parameters: Seq<TypeParameter>,
    more_arguments: Seq<TypeArgument>,
    more_parameters: Seq<TypeParameter>,
)
    requires
        type_arguments.len() == type_parameters.len(),
        more_arguments.len() == 0 || more_parameters.len() == 0,
    ensures
        bounds_run(
            world,
            ctx,
            type_arguments + more_arguments,
            type_parameters + more_parameters,
            0,
        ) == bounds_run(world, ctx, type_arguments, type_parameters, 0),
{
    lemma_bounds_in_pairs(
        world,
        ctx,
        type_arguments,
        type_parameters,
        more_arguments,
        more_parameters,
        0,
    );
}

/// The same from the `i`-th on.
proof fn lemma_bounds_in_pairs(
    world: World,
    ctx: ContextView,
    type_arguments: Seq<TypeArgument>,
    type_parameters: Seq<TypeParameter>,
    more_arguments: Seq<TypeArgument>,
    more_parameters: Seq<TypeParameter>,
    i: int,
)
    requires
        type_arguments.len() == type_parameters.len(),
        more_arguments.len() == 0 || more_parameters.len() == 0,
        0 <= i <= type_arguments.len(),
    ensures
        bounds_run(
            world,
            ctx,
            type_arguments + more_arguments,
            type_parameters + more_parameters,
            i,
        ) == bounds_run(world, ctx, type_arguments, type_parameters, i),
    decreases type_arguments.len() - i,
{
    if i < type_arguments.len() {
        assert((type_arguments + more_arguments)[i] == type_arguments[i]);
        assert((type_parameters + more_parameters)[i] == type_parameters[i]);
        let first = to_outcome(
            ask(
                world,
                QueryView::CheckTypeParameterBounds {
                    ctx,
                    type_id: type_arguments[i].type_id,
                    span: type_arguments[i].span,
                    constraints_of: Some(type_parameters[i]),
                },
            ),
        );
        if first.value is Some && first.value->0 is Ok {
            lemma_bounds_in_pairs(
                first.world,
                ctx,
                type_arguments,
                type_parameters,
                more_arguments,
                more_parameters,
                i + 1,
            );
        }
    }
}

/// Without supertraits nothing is inherited, and nothing is asked.
pub proof fn law_without_supertraits(
    world: World,
    ctx: ContextView,
    of: Implementation,
)
    requires
        of.trait_supertraits.len() == 0,
    ensures
        known_supertraits_run(world, ctx, of) == done(
            world,
            Ok::<SupertraitItems, ErrorEmitted>(
                SupertraitItems { interface_items: Seq::empty(), impld_items: Seq::empty() },
            ),
        ),
{
}

/// The items from the supertraits are made known for the self type by one query, asked
/// quietly; whether that succeeds makes no difference.
pub proof fn law_known_supertraits(
    world: World,
    ctx: ContextView,
    of: Implementation,
    collected: Run<Result<SupertraitItems, ErrorEmitted>>,
    items: SupertraitItems,
    inserted: Answer,
)
    requires
        of.trait_supertraits.len() > 0,
        collected == supertraits_run(world, ctx, of.trait_supertraits),
        collected.value == Some(Ok::<SupertraitItems, ErrorEmitted>(items)),
        answered(collected.world, seq![inserted]),
        inserted is Done || inserted is Failed,
    ensures
        known_supertraits_run(world, ctx, of) == done(
            collected.world.hear_quietly(
                QueryView::InsertTraitImplementation {
                    ctx,
                    trait_name: of.trait_name,
                    type_arguments: of.trait_type_arguments,
                    type_id: ctx.self_type,
                    items: values_of(items.impld_items),
                    impl_span: of.trait_name.span,
                    trait_decl_span: Some(of.trait_decl_span),
                    is_extending_existing_impl: false,
                },
            ),
            Ok::<SupertraitItems, ErrorEmitted>(items),
        ),
{
}

/// Supertraits with errors are an error, and are not made known.
pub proof fn law_refused_supertraits(
    world: World,
    ctx: ContextView,
    of: Implementation,
)
    requires
        of.trait_supertraits.len() > 0,
        supertraits_run(world, ctx, of.trait_supertraits).value == Some(
            Err::<SupertraitItems, _>(ErrorEmitted),
        ),
    ensures
        known_supertraits_run(world, ctx, of) == supertraits_run(world, ctx, of.trait_supertraits),
{
}

/// What the interface asks for comes first, from an empty checklist; then the associated types
/// of the whole impl block, and then its methods and constants, under the types found.
pub proof fn law_order_of_checking(
    world: World,
    ctx: ContextView,
    of: Implementation,
    asked_for: Run<ChecklistView>,
    types: Run<ChecklistView>,
)
    requires
        asked_for == surface_run(
            world,
            of.trait_interface_surface,
            ctx.self_type,
            ChecklistView {
                methods: Seq::empty(),
                constants: Seq::empty(),
                types: Seq::empty(),
                interface_items: Seq::empty(),
                impld_items: Seq::empty(),
                type_mapping: Seq::empty(),
            },
            0,
        ),
        asked_for.value is Some,
        types == impl_types_run(
            asked_for.world,
            ctx,
            of.impl_items,
            of.trait_name,
            of.is_contract,
            asked_for.value->0,
            0,
        ),
        types.value is Some,
    ensures
        checklist_run(world, ctx, of) == impl_members_run(
            types.world,
            ctx,
            of.impl_type_parameters,
            of.impl_items,
            of.trait_name,
            of.is_contract,
            types.value->0,
            0,
        ),
{
}

/// The errors about names that were asked for and not implemented: one for the methods, one
/// for the constants and one for the types, each of them only if there is such a name.
pub open spec fn left_out(checklist: ChecklistView, span: Span) -> Seq<ErrorView> {
    let methods = ErrorView::MissingMethods {
        missing: Seq::new(checklist.methods.len(), |i: int| checklist.methods[i].0),
        span,
    };
    let constants = ErrorView::MissingConstants {
        missing: Seq::new(checklist.constants.len(), |i: int| checklist.constants[i].0),
        span,
    };
    let types = ErrorView::MissingTypes {
        missing: Seq::new(checklist.types.len(), |i: int| checklist.types[i].0),
        span,
    };
    let none = Seq::<ErrorView>::empty();
    let first = if checklist.methods.len() == 0 {
        none
    } else {
        none.push(methods)
    };
    let second = if checklist.constants.len() == 0 {
        first
    } else {
        first.push(constants)
    };
    if checklist.types.len() == 0 {
        second
    } else {
        second.push(types)
    }
}

/// The items of an implementation are those implemented, in the order of their names, and
/// behind them what the trait provides, fitted: what it uses is replaced by what the impl
/// block and the supertraits implement, the type parameters of the trait are mapped to its
/// type arguments, and the associated types to what they stand for. If a name is left out that
/// was asked for, the implementation is refused, with one error for each kind of item.
pub proof fn law_completed(
    world: World,
    ctx: ContextView,
    of: Implementation,
    checklist: ChecklistView,
    inherited: SupertraitItems,
    fitted: Run<Result<Seq<TyTraitItem>, ErrorEmitted>>,
)
    requires
        fitted == fit_items_run(
            world,
            ctx,
            of.trait_items,
            Fitting {
                decl_mapping: DeclMappingView {
                    interface_items: put_all(checklist.interface_items, inherited.interface_items),
                    items: Seq::empty(),
                    impld_items: put_all(checklist.impld_items, inherited.impld_items),
                },
                type_mapping: put_all(
                    subst_map(of.trait_type_parameters, of.trait_type_arguments),
                    checklist.type_mapping,
                ),
            },
            values_of(checklist.impld_items),
            0,
        ),
    ensures
        fitted.value == Some(
            Err::<Seq<TyTraitItem>, _>(ErrorEmitted),
        ) ==> complete_run(world, ctx, of, checklist, inherited) == fitted,
        fitted.value is Some && fitted.value->0 is Ok ==> {
            let after = complete_run(world, ctx, of, checklist, inherited);
            let errors = left_out(checklist, of.block_span);
            &&& after.world == fitted.world.emit_all(errors)
            &&& after.value == if errors.len() == 0 {
                fitted.value
            } else {
                Some(Err(ErrorEmitted))
            }
        },
{
    let errors = missing_errors(checklist, of.block_span);
    assert(errors =~= left_out(checklist, of.block_span)) by {
        assert(keys_of(checklist.methods) =~= Seq::new(
            checklist.methods.len(),
            |i: int| checklist.methods[i].0,
        ));
        assert(keys_of(checklist.constants) =~= Seq::new(
            checklist.constants.len(),
            |i: int| checklist.constants[i].0,
        ));
        assert(keys_of(checklist.types) =~= Seq::new(
            checklist.types.len(),
            |i: int| checklist.types[i].0,
        ));
    }
}

/// An implementation for a type that does not meet the supertraits is refused, and nothing
/// more is asked.
pub proof fn law_unmet_constraints(
    world: World,
    ctx: ContextView,
    of: Implementation,
)
    requires
        answered(world, seq![Answer::Failed]),
    ensures
        implementation_run(world, ctx, of) == done(
            world.hear(
                QueryView::CheckTraitConstraints {
                    ctx,
                    type_id: ctx.self_type,
                    supertraits: of.trait_supertraits,
                    span: of.block_span,
                },
            ),
            Err::<Seq<TyTraitItem>, _>(ErrorEmitted),
        ),
{
}

/// If the self type meets the supertraits, the type arguments of the trait are checked next.
/// One that does not meet its constraints refuses the implementation, and ends it there.
pub proof fn law_unmet_bounds(
    world: World,
    ctx: ContextView,
    of: Implementation,
    met: Run<Result<(), ErrorEmitted>>,
)
    requires
        answered(world, seq![Answer::Done]),
        met == bounds_run(
            world.hear(
                QueryView::CheckTraitConstraints {
                    ctx,
                    type_id: ctx.self_type,
                    supertraits: of.trait_supertraits,
                    span: of.block_span,
                },
            ),
            ctx,
            of.trait_type_arguments,
            of.trait_type_parameters,
            0,
        ),
        met.value == Some(Err::<(), _>(ErrorEmitted)),
    ensures
        implementation_run(world, ctx, of) == done(
            met.world,
            Err::<Seq<TyTraitItem>, _>(ErrorEmitted),
        ),
{
}

/// The supertraits come after the type arguments. An error about them refuses the
/// implementation, and ends it there.
pub proof fn law_unknown_supertraits(
    world: World,
    ctx: ContextView,
    of: Implementation,
    met: Run<Result<(), ErrorEmitted>>,
    inherited: Run<Result<SupertraitItems, ErrorEmitted>>,
)
    requires
        answered(world, seq![Answer::Done]),
        met == bounds_run(
            world.hear(
                QueryView::CheckTraitConstraints {
                    ctx,
                    type_id: ctx.self_type,
                    supertraits: of.trait_supertraits,
                    span: of.block_span,
                },
            ),
            ctx,
            of.trait_type_arguments,
            of.trait_type_parameters,
            0,
        ),
        met.value == Some(Ok::<(), ErrorEmitted>(())),
        inherited == known_supertraits_run(met.world, ctx, of),
        inherited.value == Some(Err::<SupertraitItems, _>(ErrorEmitted)),
    ensures
        implementation_run(world, ctx, of) == done(
            inherited.world,
            Err::<Seq<TyTraitItem>, _>(ErrorEmitted),
        ),
{
}

/// Once the type arguments are checked and the supertraits known, the interface and the impl
/// block are gone through, and the implementation is completed with what was found there and
/// what the supertraits have.
pub proof fn law_implementation(
    world: World,
    ctx: ContextView,
    of: Implementation,
    met: Run<Result<(), ErrorEmitted>>,
    inherited: Run<Result<SupertraitItems, ErrorEmitted>>,
    items: SupertraitItems,
    checked: Run<ChecklistView>,
)
    requires
        answered(world, seq![Answer::Done]),
        met == bounds_run(
            world.hear(
                QueryView::CheckTraitConstraints {
                    ctx,
                    type_id: ctx.self_type,
                    supertraits: of.trait_supertraits,
                    span: of.block_span,
                },
            ),
            ctx,
            of.trait_type_arguments,
            of.trait_type_parameters,
            0,
        ),
        met.value == Some(Ok::<(), ErrorEmitted>(())),
        inherited == known_supertraits_run(met.world, ctx, of),
        inherited.value == Some(Ok::<SupertraitItems, ErrorEmitted>(items)),
        checked == checklist_run(inherited.world, ctx, of),
        checked.value is Some,
    ensures
        implementation_run(world, ctx, of) == complete_run(
            checked.world,
            ctx,
            of,
            checked.value->0,
            items,
        ),
{
}

} // verus!
