//! The implementation of a trait or an ABI by the items of an impl block.
use crate::decl::{
    CallPath, ConstantDeclaration, Decl, DeclKind, DeclRef, DeclView, FunctionDeclaration,
    FunctionView, ImplItem, InterfaceItemMap, ItemMap, ParentId, Supertrait, TraitTypeDeclaration,
    TyConstantDecl, TyFunctionDecl, TyImplItem, TyTraitFn, TyTraitInterfaceItem, TyTraitItem,
    TyTraitType,
};
use crate::diagnostics::{CompileError, ErrorEmitted, ErrorView};
use crate::duplicate::{duplicate_all, Duplicate};
use crate::ident::{Ident, Span};
use crate::impl_items::{
    const_decl_run, method_run, type_check_const_decl, type_check_impl_method,
    type_check_type_decl, type_decl_run,
};
use crate::ordered::{drop_key, keys_of, put, put_all, values_of, Key, SortedMap};
use crate::session::{
    ask, ask_quietly, chain, chain_ok, contradiction, done, list_result, run, scoped,
    to_checked_constant, to_checked_function, to_constant, to_decl_ref, to_function, to_outcome,
    to_trait_fn, to_trait_type, to_type, Context, ContextView, DeclMapping, DeclMappingView,
    Query, QueryView, Run, Session, World,
};
use crate::supertraits::{handle_supertraits, supertraits_run, SupertraitItems};
use crate::surface::{constant_for, copy_type_run, function_for};
use crate::types::{
    from_type_parameters_and_type_arguments, subst_map, ItemKey, TypeArgument, TypeId, TypeInfo,
    TypeParameter, TypeSubstMap,
};
use vstd::prelude::*;

verus! {

/// How far the implementation of an interface has come: what of its surface is still to be
/// implemented, what is implemented, and which types the associated types stand for.
#[verifier::ext_equal]
pub struct ChecklistView {
    pub methods: Seq<(Ident, TyTraitFn)>,
    pub constants: Seq<(Ident, TyConstantDecl)>,
    pub types: Seq<(Ident, TyTraitType)>,
    pub interface_items: Seq<(ItemKey, TyTraitInterfaceItem)>,
    pub impld_items: Seq<(ItemKey, TyTraitItem)>,
    pub type_mapping: Seq<(TypeId, TypeId)>,
}

impl ChecklistView {
    /// Nothing to implement, and nothing implemented.
    pub open spec fn empty() -> ChecklistView {
        ChecklistView {
            methods: Seq::empty(),
            constants: Seq::empty(),
            types: Seq::empty(),
            interface_items: Seq::empty(),
            impld_items: Seq::empty(),
            type_mapping: Seq::empty(),
        }
    }

    /// The checklist with a method more to implement.
    pub open spec fn with_method(
        self,
        method: TyTraitFn,
        item: TyTraitInterfaceItem,
        self_type: TypeId,
    ) -> ChecklistView {
        ChecklistView {
            methods: put(self.methods, method.name, method),
            interface_items: put(
                self.interface_items,
                ItemKey { name: method.name, type_id: self_type },
                item,
            ),
            ..self
        }
    }

    /// The checklist with a constant more to implement.
    pub open spec fn with_constant(
        self,
        constant: TyConstantDecl,
        item: TyTraitInterfaceItem,
        self_type: TypeId,
    ) -> ChecklistView {
        ChecklistView {
            constants: put(self.constants, constant.name, constant),
            interface_items: put(
                self.interface_items,
                ItemKey { name: constant.name, type_id: self_type },
                item,
            ),
            ..self
        }
    }

    /// The checklist with an associated type more to implement.
    pub open spec fn with_type(
        self,
        ty: TyTraitType,
        item: TyTraitInterfaceItem,
        self_type: TypeId,
    ) -> ChecklistView {
        ChecklistView {
            types: put(self.types, ty.name, ty),
            interface_items: put(
                self.interface_items,
                ItemKey { name: ty.name, type_id: self_type },
                item,
            ),
            ..self
        }
    }

    /// The checklist after a method was implemented.
    pub open spec fn method_done(
        self,
        name: Ident,
        decl_ref: DeclRef,
        self_type: TypeId,
    ) -> ChecklistView {
        ChecklistView {
            methods: drop_key(self.methods, name.rank()),
            impld_items: put(
                self.impld_items,
                ItemKey { name, type_id: self_type },
                TyTraitItem::Fn(decl_ref),
            ),
            ..self
        }
    }

    /// The checklist after a constant was implemented.
    pub open spec fn constant_done(
        self,
        name: Ident,
        decl_ref: DeclRef,
        self_type: TypeId,
    ) -> ChecklistView {
        ChecklistView {
            constants: drop_key(self.constants, name.rank()),
            impld_items: put(
                self.impld_items,
                ItemKey { name, type_id: self_type },
                TyTraitItem::Constant(decl_ref),
            ),
            ..self
        }
    }

    /// The checklist after an associated type was implemented: `from`, the type that stands
    /// for it inside the trait, is now the type `to`.
    pub open spec fn type_done(
        self,
        name: Ident,
        decl_ref: DeclRef,
        self_type: TypeId,
        from: TypeId,
        to: TypeId,
    ) -> ChecklistView {
        ChecklistView {
            types: drop_key(self.types, name.rank()),
            impld_items: put(
                self.impld_items,
                ItemKey { name, type_id: self_type },
                TyTraitItem::Type(decl_ref),
            ),
            type_mapping: put(self.type_mapping, from, to),
            ..self
        }
    }
}

/// The errors about what is not implemented: one for the methods, one for the constants and
/// one for the types, each with the names in order.
pub open spec fn missing_errors(checklist: ChecklistView, block_span: Span) -> Seq<ErrorView> {
    (if checklist.methods.len() > 0 {
        seq![ErrorView::MissingMethods { missing: keys_of(checklist.methods), span: block_span }]
    } else {
        Seq::empty()
    }) + (if checklist.constants.len() > 0 {
        seq![
            ErrorView::MissingConstants {
                missing: keys_of(checklist.constants),
                span: block_span,
            },
        ]
    } else {
        Seq::empty()
    }) + (if checklist.types.len() > 0 {
        seq![ErrorView::MissingTypes { missing: keys_of(checklist.types), span: block_span }]
    } else {
        Seq::empty()
    })
}

/// Puts the interface items from the `i`-th on onto the checklist.
pub open spec fn surface_run(
    world: World,
    interface_surface: Seq<TyTraitInterfaceItem>,
    self_type: TypeId,
    checklist: ChecklistView,
    i: int,
) -> Run<ChecklistView>
    decreases interface_surface.len() - i,
{
    if i >= interface_surface.len() {
        done(world, checklist)
    } else {
        chain(
            surface_item_run(world, interface_surface[i], self_type, checklist),
            |world: World, checklist: ChecklistView|
                surface_run(world, interface_surface, self_type, checklist, i + 1),
        )
    }
}

/// Puts one interface item onto the checklist, under the name in its declaration.
pub open spec fn surface_item_run(
    world: World,
    item: TyTraitInterfaceItem,
    self_type: TypeId,
    checklist: ChecklistView,
) -> Run<ChecklistView> {
    match item {
        TyTraitInterfaceItem::TraitFn(decl_ref) => chain(
            to_trait_fn(
                ask(world, QueryView::GetDecl { kind: DeclKind::TraitFn, id: decl_ref.id }),
            ),
            |world: World, method: TyTraitFn|
                done(world, checklist.with_method(method, item, self_type)),
        ),
        TyTraitInterfaceItem::Constant(decl_ref) => chain(
            to_constant(
                ask(world, QueryView::GetDecl { kind: DeclKind::Constant, id: decl_ref.id }),
            ),
            |world: World, constant: TyConstantDecl|
                done(world, checklist.with_constant(constant, item, self_type)),
        ),
        TyTraitInterfaceItem::Type(decl_ref) => chain(
            to_trait_type(
                ask(world, QueryView::GetDecl { kind: DeclKind::TraitType, id: decl_ref.id }),
            ),
            |world: World, ty: TyTraitType|
                done(world, checklist.with_type(ty, item, self_type)),
        ),
    }
}

/// Checks one associated type of an impl block and takes it off the checklist. One with
/// errors is taken off too, and an error declaration is kept for it.
#[verifier::opaque]
pub open spec fn impl_type_run(
    world: World,
    ctx: ContextView,
    parsed: TraitTypeDeclaration,
    trait_name: CallPath,
    is_contract: bool,
    checklist: ChecklistView,
) -> Run<ChecklistView> {
    chain(
        type_decl_run(
            world,
            ctx,
            parsed,
            trait_name,
            is_contract,
            checklist.impld_items,
            checklist.types,
        ),
        |world: World, checked: Result<TyTraitType, ErrorEmitted>|
            chain(
                match checked {
                    Ok(decl) => done(world, decl),
                    Err(_) => to_trait_type(ask(world, QueryView::ErrorTraitType { parsed })),
                },
                |world: World, decl: TyTraitType|
                    chain(
                        to_trait_type(
                            ask(
                                world,
                                QueryView::SubstDecl {
                                    decl: DeclView::TraitType(decl),
                                    type_subst: checklist.type_mapping,
                                },
                            ),
                        ),
                        |world: World, decl: TyTraitType|
                            keep_type_run(world, ctx, decl, checklist),
                    ),
            ),
    )
}

/// Keeps a checked associated type. It must stand for a type.
pub open spec fn keep_type_run(
    world: World,
    ctx: ContextView,
    decl: TyTraitType,
    checklist: ChecklistView,
) -> Run<ChecklistView> {
    chain(
        to_decl_ref(
            ask(
                world,
                QueryView::InsertDecl { decl: DeclView::TraitType(decl), parent: None },
            ),
        ),
        |world: World, decl_ref: DeclRef|
            chain(
                to_type(
                    ask(
                        world,
                        QueryView::InsertType {
                            info: TypeInfo::TraitType {
                                name: decl.name,
                                trait_type_id: ctx.self_type,
                            },
                        },
                    ),
                ),
                |world: World, from: TypeId|
                    match decl.ty {
                        None => contradiction(world),
                        Some(ty) => done(
                            world,
                            checklist.type_done(
                                decl.name,
                                decl_ref,
                                ctx.self_type,
                                from,
                                ty.type_id,
                            ),
                        ),
                    },
            ),
    )
}

/// Checks the associated types among the items from the `i`-th on.
pub open spec fn impl_types_run(
    world: World,
    ctx: ContextView,
    impl_items: Seq<ImplItem>,
    trait_name: CallPath,
    is_contract: bool,
    checklist: ChecklistView,
    i: int,
) -> Run<ChecklistView>
    decreases impl_items.len() - i,
{
    if i >= impl_items.len() {
        done(world, checklist)
    } else {
        chain(
            match impl_items[i] {
                ImplItem::Type(parsed) => impl_type_run(
                    world,
                    ctx,
                    parsed,
                    trait_name,
                    is_contract,
                    checklist,
                ),
                _ => done(world, checklist),
            },
            |world: World, checklist: ChecklistView|
                impl_types_run(
                    world,
                    ctx,
                    impl_items,
                    trait_name,
                    is_contract,
                    checklist,
                    i + 1,
                ),
        )
    }
}

/// Checks one method of an impl block and takes it off the checklist. One with errors is
/// taken off too, and an error declaration is kept for it.
#[verifier::opaque]
pub open spec fn impl_method_run(
    world: World,
    ctx: ContextView,
    impl_type_parameters: Seq<TypeParameter>,
    parsed: FunctionDeclaration,
    trait_name: CallPath,
    is_contract: bool,
    checklist: ChecklistView,
) -> Run<ChecklistView> {
    chain(
        method_run(
            world,
            ctx.with_type_subst(checklist.type_mapping),
            impl_type_parameters,
            parsed,
            trait_name,
            is_contract,
            checklist.impld_items,
            checklist.methods,
        ),
        |world: World, checked: Result<FunctionView, ErrorEmitted>|
            chain(
                match checked {
                    Ok(decl) => done(world, decl),
                    Err(_) => chain(
                        to_function(ask(world, QueryView::ErrorFunction { parsed })),
                        |world: World, decl: TyFunctionDecl| done(world, decl@),
                    ),
                },
                |world: World, decl: FunctionView|
                    chain(
                        to_function(
                            ask(
                                world,
                                QueryView::SubstDecl {
                                    decl: DeclView::Function(decl),
                                    type_subst: checklist.type_mapping,
                                },
                            ),
                        ),
                        |world: World, decl: TyFunctionDecl|
                            chain(
                                to_decl_ref(
                                    ask(
                                        world,
                                        QueryView::InsertDecl {
                                            decl: DeclView::Function(decl@),
                                            parent: None,
                                        },
                                    ),
                                ),
                                |world: World, decl_ref: DeclRef|
                                    done(
                                        world,
                                        checklist.method_done(decl.name, decl_ref, ctx.self_type),
                                    ),
                            ),
                    ),
            ),
    )
}

/// Checks one constant of an impl block and takes it off the checklist. One with errors is
/// taken off too, and an error declaration is kept for it.
#[verifier::opaque]
pub open spec fn impl_constant_run(
    world: World,
    ctx: ContextView,
    parsed: ConstantDeclaration,
    trait_name: CallPath,
    is_contract: bool,
    checklist: ChecklistView,
) -> Run<ChecklistView> {
    chain(
        const_decl_run(
            world,
            ctx.with_type_subst(checklist.type_mapping),
            parsed,
            trait_name,
            is_contract,
            checklist.impld_items,
            checklist.constants,
        ),
        |world: World, checked: Result<TyConstantDecl, ErrorEmitted>|
            chain(
                match checked {
                    Ok(decl) => done(world, decl),
                    Err(_) => to_constant(ask(world, QueryView::ErrorConstant { parsed })),
                },
                |world: World, decl: TyConstantDecl|
                    chain(
                        to_constant(
                            ask(
                                world,
                                QueryView::SubstDecl {
                                    decl: DeclView::Constant(decl),
                                    type_subst: checklist.type_mapping,
                                },
                            ),
                        ),
                        |world: World, decl: TyConstantDecl|
                            chain(
                                to_decl_ref(
                                    ask(
                                        world,
                                        QueryView::InsertDecl {
                                            decl: DeclView::Constant(decl),
                                            parent: None,
                                        },
                                    ),
                                ),
                                |world: World, decl_ref: DeclRef|
                                    done(
                                        world,
                                        checklist.constant_done(
                                            decl.name,
                                            decl_ref,
                                            ctx.self_type,
                                        ),
                                    ),
                            ),
                    ),
            ),
    )
}

/// Checks the methods and the constants among the items from the `i`-th on.
pub open spec fn impl_members_run(
    world: World,
    ctx: ContextView,
    impl_type_parameters: Seq<TypeParameter>,
    impl_items: Seq<ImplItem>,
    trait_name: CallPath,
    is_contract: bool,
    checklist: ChecklistView,
    i: int,
) -> Run<ChecklistView>
    decreases impl_items.len() - i,
{
    if i >= impl_items.len() {
        done(world, checklist)
    } else {
        chain(
            match impl_items[i] {
                ImplItem::Fn(parsed) => impl_method_run(
                    world,
                    ctx,
                    impl_type_parameters,
                    parsed,
                    trait_name,
                    is_contract,
                    checklist,
                ),
                ImplItem::Constant(parsed) => impl_constant_run(
                    world,
                    ctx,
                    parsed,
                    trait_name,
                    is_contract,
                    checklist,
                ),
                ImplItem::Type(_) => done(world, checklist),
            },
            |world: World, checklist: ChecklistView|
                impl_members_run(
                    world,
                    ctx,
                    impl_type_parameters,
                    impl_items,
                    trait_name,
                    is_contract,
                    checklist,
                    i + 1,
                ),
        )
    }
}

/// What a declaration that the trait provides is fitted to.
pub struct Fitting {
    pub decl_mapping: DeclMappingView,
    pub type_mapping: Seq<(TypeId, TypeId)>,
}

/// Fits a function that the trait provides. The outcome has the function as its parent.
pub open spec fn fit_function_run(
    world: World,
    ctx: ContextView,
    id: u64,
    fitting: Fitting,
) -> Run<Result<TyTraitItem, ErrorEmitted>> {
    chain(
        to_function(ask(world, QueryView::GetDecl { kind: DeclKind::Function, id })),
        |world: World, method: TyFunctionDecl|
            chain_ok(
                to_checked_function(
                    ask(
                        world,
                        QueryView::ReplaceDecls {
                            ctx,
                            decl: DeclView::Function(method@),
                            mapping: fitting.decl_mapping,
                        },
                    ),
                ),
                |world: World, method: TyFunctionDecl|
                    chain(
                        function_for(world, method, Some(ctx.self_type)),
                        |world: World, method: TyFunctionDecl|
                            chain(
                                to_function(
                                    ask(
                                        world,
                                        QueryView::SubstDecl {
                                            decl: DeclView::Function(method@),
                                            type_subst: fitting.type_mapping,
                                        },
                                    ),
                                ),
                                |world: World, method: TyFunctionDecl|
                                    chain(
                                        to_decl_ref(
                                            ask(
                                                world,
                                                QueryView::InsertDecl {
                                                    decl: DeclView::Function(method@),
                                                    parent: Some(
                                                        ParentId::Function(id),
                                                    ),
                                                },
                                            ),
                                        ),
                                        |world: World, new: DeclRef|
                                            done(world, Ok(TyTraitItem::Fn(new))),
                                    ),
                            ),
                    ),
            ),
    )
}

/// Fits a constant that the trait provides.
pub open spec fn fit_constant_run(
    world: World,
    ctx: ContextView,
    id: u64,
    fitting: Fitting,
) -> Run<Result<TyTraitItem, ErrorEmitted>> {
    chain(
        to_constant(ask(world, QueryView::GetDecl { kind: DeclKind::Constant, id })),
        |world: World, constant: TyConstantDecl|
            chain_ok(
                to_checked_constant(
                    ask(
                        world,
                        QueryView::ReplaceDecls {
                            ctx,
                            decl: DeclView::Constant(constant),
                            mapping: fitting.decl_mapping,
                        },
                    ),
                ),
                |world: World, constant: TyConstantDecl|
                    chain(
                        constant_for(world, constant, Some(ctx.self_type)),
                        |world: World, constant: TyConstantDecl|
                            chain(
                                to_constant(
                                    ask(
                                        world,
                                        QueryView::SubstDecl {
                                            decl: DeclView::Constant(constant),
                                            type_subst: fitting.type_mapping,
                                        },
                                    ),
                                ),
                                |world: World, constant: TyConstantDecl|
                                    chain(
                                        to_decl_ref(
                                            ask(
                                                world,
                                                QueryView::InsertDecl {
                                                    decl: DeclView::Constant(constant),
                                                    parent: None,
                                                },
                                            ),
                                        ),
                                        |world: World, new: DeclRef|
                                            done(world, Ok(TyTraitItem::Constant(new))),
                                    ),
                            ),
                    ),
            ),
    )
}

/// Fits an associated type that the trait provides.
pub open spec fn fit_type_run(
    world: World,
    ctx: ContextView,
    id: u64,
    type_mapping: Seq<(TypeId, TypeId)>,
) -> Run<Result<TyTraitItem, ErrorEmitted>> {
    chain(
        copy_type_run(world, id, Some(ctx.self_type), type_mapping),
        |world: World, copy: (Ident, TyTraitItem)| done(world, Ok(copy.1)),
    )
}

/// Fits an item that the trait provides to the impl block: the interface items it uses are
/// replaced by their implementations, `Self` by the self type, and the type parameters and
/// associated types by what they stand for. The outcome is kept as a declaration of its own.
#[verifier::opaque]
pub open spec fn fit_item_run(
    world: World,
    ctx: ContextView,
    item: TyTraitItem,
    fitting: Fitting,
) -> Run<Result<TyTraitItem, ErrorEmitted>> {
    match item {
        TyTraitItem::Fn(decl_ref) => fit_function_run(world, ctx, decl_ref.id, fitting),
        TyTraitItem::Constant(decl_ref) => fit_constant_run(world, ctx, decl_ref.id, fitting),
        TyTraitItem::Type(decl_ref) => fit_type_run(
            world,
            ctx,
            decl_ref.id,
            fitting.type_mapping,
        ),
    }
}

/// Fits the items from the `i`-th on and adds them to those of the impl block.
pub open spec fn fit_items_run(
    world: World,
    ctx: ContextView,
    trait_items: Seq<TyTraitItem>,
    fitting: Fitting,
    all_items: Seq<TyTraitItem>,
    i: int,
) -> Run<Result<Seq<TyTraitItem>, ErrorEmitted>>
    decreases trait_items.len() - i,
{
    if i >= trait_items.len() {
        done(world, Ok(all_items))
    } else {
        chain_ok(
            fit_item_run(world, ctx, trait_items[i], fitting),
            |world: World, item: TyTraitItem|
                fit_items_run(world, ctx, trait_items, fitting, all_items.push(item), i + 1),
        )
    }
}

/// Checks the type arguments from the `i`-th on against the constraints of the type
/// parameters in their places.
pub open spec fn bounds_run(
    world: World,
    ctx: ContextView,
    type_arguments: Seq<TypeArgument>,
    type_parameters: Seq<TypeParameter>,
    i: int,
) -> Run<Result<(), ErrorEmitted>>
    decreases type_arguments.len() - i,
{
    if i >= type_arguments.len() || i >= type_parameters.len() {
        done(world, Ok(()))
    } else {
        chain_ok(
            to_outcome(
                ask(
                    world,
                    QueryView::CheckTypeParameterBounds {
                        ctx,
                        type_id: type_arguments[i].type_id,
                        span: type_arguments[i].span,
                        constraints_of: Some(type_parameters[i]),
                    },
                ),
            ),
            |world: World, _met: ()|
                bounds_run(world, ctx, type_arguments, type_parameters, i + 1),
        )
    }
}

/// An interface and the impl block that implements it.
pub struct Implementation {
    pub impl_type_parameters: Seq<TypeParameter>,
    pub trait_type_parameters: Seq<TypeParameter>,
    pub trait_type_arguments: Seq<TypeArgument>,
    pub trait_supertraits: Seq<Supertrait>,
    pub trait_interface_surface: Seq<TyTraitInterfaceItem>,
    pub trait_items: Seq<TyTraitItem>,
    pub impl_items: Seq<ImplItem>,
    pub trait_name: CallPath,
    pub trait_decl_span: Span,
    pub block_span: Span,
    pub is_contract: bool,
}

/// The items from the supertraits, which are made known if there are any supertraits.
pub open spec fn known_supertraits_run(world: World, ctx: ContextView, of: Implementation) -> Run<
    Result<SupertraitItems, ErrorEmitted>,
> {
    if of.trait_supertraits.len() == 0 {
        done(world, Ok(SupertraitItems::empty()))
    } else {
        chain_ok(
            supertraits_run(world, ctx, of.trait_supertraits),
            |world: World, items: SupertraitItems|
                chain(
                    to_outcome(
                        ask_quietly(
                            world,
                            QueryView::InsertTraitImplementation {
                                ctx,
                                trait_name: of.trait_name,
                                type_arguments: of.trait_type_arguments,
                                type_id: ctx.self_type,
                                items: values_of(items.impld_items),
                                impl_span: of.trait_name.span,
                                trait_decl_span: Some(of.trait_decl_span),
                                is_extending_existing_impl: false,
                            },
                        ),
                    ),
                    |world: World, _inserted: Result<(), ErrorEmitted>| done(world, Ok(items)),
                ),
        )
    }
}

/// Goes through the interface and then through the impl block: what the interface asks for,
/// what the block's associated types implement, what its methods and constants implement.
pub open spec fn checklist_run(world: World, ctx: ContextView, of: Implementation) -> Run<
    ChecklistView,
> {
    chain(
        surface_run(
            world,
            of.trait_interface_surface,
            ctx.self_type,
            ChecklistView::empty(),
            0,
        ),
        |world: World, checklist: ChecklistView|
            chain(
                impl_types_run(
                    world,
                    ctx,
                    of.impl_items,
                    of.trait_name,
                    of.is_contract,
                    checklist,
                    0,
                ),
                |world: World, checklist: ChecklistView|
                    impl_members_run(
                        world,
                        ctx,
                        of.impl_type_parameters,
                        of.impl_items,
                        of.trait_name,
                        of.is_contract,
                        checklist,
                        0,
                    ),
            ),
    )
}

/// What the items that the trait provides are fitted to.
pub open spec fn fitting_of(
    of: Implementation,
    checklist: ChecklistView,
    inherited: SupertraitItems,
) -> Fitting {
    Fitting {
        decl_mapping: DeclMappingView {
            interface_items: put_all(checklist.interface_items, inherited.interface_items),
            items: Seq::empty(),
            impld_items: put_all(checklist.impld_items, inherited.impld_items),
        },
        type_mapping: put_all(
            subst_map(of.trait_type_parameters, of.trait_type_arguments),
            checklist.type_mapping,
        ),
    }
}

/// What is left to do once the impl block was gone through: the items that the trait
/// provides are fitted and added, and what is missing is emitted.
pub open spec fn complete_run(
    world: World,
    ctx: ContextView,
    of: Implementation,
    checklist: ChecklistView,
    inherited: SupertraitItems,
) -> Run<Result<Seq<TyTraitItem>, ErrorEmitted>> {
    chain_ok(
        fit_items_run(
            world,
            ctx,
            of.trait_items,
            fitting_of(of, checklist, inherited),
            values_of(checklist.impld_items),
            0,
        ),
        |world: World, all_items: Seq<TyTraitItem>|
            scoped(
                world,
                done(world.emit_all(missing_errors(checklist, of.block_span)), Ok(all_items)),
            ),
    )
}

/// What checking the implementation of an interface comes to.
pub open spec fn implementation_run(world: World, ctx: ContextView, of: Implementation) -> Run<
    Result<Seq<TyTraitItem>, ErrorEmitted>,
> {
    chain_ok(
        to_outcome(
            ask(
                world,
                QueryView::CheckTraitConstraints {
                    ctx,
                    type_id: ctx.self_type,
                    supertraits: of.trait_supertraits,
                    span: of.block_span,
                },
            ),
        ),
        |world: World, _met: ()|
            chain_ok(
                bounds_run(
                    world,
                    ctx,
                    of.trait_type_arguments,
                    of.trait_type_parameters,
                    0,
                ),
                |world: World, _met: ()|
                    chain_ok(
                        known_supertraits_run(world, ctx, of),
                        |world: World, inherited: SupertraitItems|
                            chain(
                                checklist_run(world, ctx, of),
                                |world: World, checklist: ChecklistView|
                                    complete_run(world, ctx, of, checklist, inherited),
                            ),
                    ),
            ),
    )
}

/// How far the implementation of an interface has come.
struct Checklist {
    method_checklist: SortedMap<Ident, TyTraitFn>,
    constant_checklist: SortedMap<Ident, TyConstantDecl>,
    type_checklist: SortedMap<Ident, TyTraitType>,
    interface_item_refs: InterfaceItemMap,
    impld_item_refs: ItemMap,
    trait_type_mapping: TypeSubstMap,
}

impl View for Checklist {
    type V = ChecklistView;

    closed spec fn view(&self) -> ChecklistView {
        ChecklistView {
            methods: self.method_checklist@,
            constants: self.constant_checklist@,
            types: self.type_checklist@,
            interface_items: self.interface_item_refs@,
            impld_items: self.impld_item_refs@,
            type_mapping: self.trait_type_mapping@,
        }
    }
}

spec fn checklist_view(value: Option<Checklist>) -> Option<ChecklistView> {
    match value {
        Some(checklist) => Some(checklist@),
        None => None,
    }
}

fn take_surface(
    cx: &mut Session,
    interface_surface: &Vec<TyTraitInterfaceItem>,
    self_type: TypeId,
) -> (result: Option<Checklist>)
    ensures
        run(final(cx)@, checklist_view(result)) == surface_run(
            old(cx)@,
            interface_surface@,
            self_type,
            ChecklistView::empty(),
            0,
        ),
{
    let mut checklist = Checklist {
        method_checklist: SortedMap::new(),
        constant_checklist: SortedMap::new(),
        type_checklist: SortedMap::new(),
        interface_item_refs: SortedMap::new(),
        impld_item_refs: SortedMap::new(),
        trait_type_mapping: SortedMap::new(),
    };
    let mut i: usize = 0;
    while i < interface_surface.len()
        invariant
            i <= interface_surface@.len(),
            surface_run(old(cx)@, interface_surface@, self_type, ChecklistView::empty(), 0)
                == surface_run(cx@, interface_surface@, self_type, checklist@, i as int),
        decreases interface_surface@.len() - i,
    {
        let item = &interface_surface[i];
        let name = match item {
            TyTraitInterfaceItem::TraitFn(decl_ref) => {
                let method = cx.ask_trait_fn(
                    Query::GetDecl { kind: DeclKind::TraitFn, id: decl_ref.id },
                )?;
                let name = method.name.duplicate();
                checklist.method_checklist.insert(name.duplicate(), method);
                name
            },
            TyTraitInterfaceItem::Constant(decl_ref) => {
                let constant = cx.ask_constant(
                    Query::GetDecl { kind: DeclKind::Constant, id: decl_ref.id },
                )?;
                let name = constant.name.duplicate();
                checklist.constant_checklist.insert(name.duplicate(), constant);
                name
            },
            TyTraitInterfaceItem::Type(decl_ref) => {
                let ty = cx.ask_trait_type(
                    Query::GetDecl { kind: DeclKind::TraitType, id: decl_ref.id },
                )?;
                let name = ty.name.duplicate();
                checklist.type_checklist.insert(name.duplicate(), ty);
                name
            },
        };
        checklist.interface_item_refs.insert(
            ItemKey { name, type_id: self_type },
            item.duplicate(),
        );
        i = i + 1;
    }
    Some(checklist)
}

fn implement_type(
    cx: &mut Session,
    ctx: &Context,
    parsed: TraitTypeDeclaration,
    trait_name: &CallPath,
    is_contract: bool,
    checklist: Checklist,
) -> (result: Option<Checklist>)
    ensures
        run(final(cx)@, checklist_view(result)) == impl_type_run(
            old(cx)@,
            ctx@,
            parsed,
            *trait_name,
            is_contract,
            checklist@,
        ),
{
    reveal(impl_type_run);
    let mut checklist = checklist;
    let decl = match type_check_type_decl(
        cx,
        ctx,
        parsed,
        trait_name,
        is_contract,
        &checklist.impld_item_refs,
        &checklist.type_checklist,
    )? {
        Ok(decl) => decl,
        Err(_) => cx.ask_trait_type(Query::ErrorTraitType { parsed })?,
    };
    let decl = cx.ask_trait_type(
        Query::SubstDecl {
            decl: Decl::TraitType(decl),
            type_subst: checklist.trait_type_mapping.duplicate(),
        },
    )?;

    // The type is taken off the checklist, and is implemented now.
    checklist.type_checklist.remove(&decl.name);
    let decl_ref = cx.ask_decl_ref(
        Query::InsertDecl { decl: Decl::TraitType(decl.duplicate()), parent: None },
    )?;
    checklist.impld_item_refs.insert(
        ItemKey { name: decl.name.duplicate(), type_id: ctx.self_type },
        TyTraitItem::Type(decl_ref),
    );

    // From now on it stands for the type that the impl block gives.
    let from = cx.ask_type(
        Query::InsertType {
            info: TypeInfo::TraitType { name: decl.name, trait_type_id: ctx.self_type },
        },
    )?;
    match decl.ty {
        None => cx.stop_contradiction(),
        Some(ty) => {
            checklist.trait_type_mapping.insert(from, ty.type_id);
            Some(checklist)
        },
    }
}

fn implement_types(
    cx: &mut Session,
    ctx: &Context,
    impl_items: &Vec<ImplItem>,
    trait_name: &CallPath,
    is_contract: bool,
    checklist: Checklist,
) -> (result: Option<Checklist>)
    ensures
        run(final(cx)@, checklist_view(result)) == impl_types_run(
            old(cx)@,
            ctx@,
            impl_items@,
            *trait_name,
            is_contract,
            checklist@,
            0,
        ),
{
    let mut current = checklist;
    let mut i: usize = 0;
    while i < impl_items.len()
        invariant
            i <= impl_items@.len(),
            impl_types_run(
                old(cx)@,
                ctx@,
                impl_items@,
                *trait_name,
                is_contract,
                checklist@,
                0,
            ) == impl_types_run(
                cx@,
                ctx@,
                impl_items@,
                *trait_name,
                is_contract,
                current@,
                i as int,
            ),
        decreases impl_items@.len() - i,
    {
        match impl_items[i] {
            ImplItem::Type(parsed) => {
                current = implement_type(cx, ctx, parsed, trait_name, is_contract, current)?;
            },
            _ => {},
        }
        i = i + 1;
    }
    Some(current)
}

fn implement_method(
    cx: &mut Session,
    ctx: &Context,
    impl_type_parameters: &Vec<TypeParameter>,
    parsed: FunctionDeclaration,
    trait_name: &CallPath,
    is_contract: bool,
    checklist: Checklist,
) -> (result: Option<Checklist>)
    ensures
        run(final(cx)@, checklist_view(result)) == impl_method_run(
            old(cx)@,
            ctx@,
            impl_type_parameters@,
            parsed,
            *trait_name,
            is_contract,
            checklist@,
        ),
{
    reveal(impl_method_run);
    let mut checklist = checklist;
    let decl = match type_check_impl_method(
        cx,
        &ctx.with_type_subst(&checklist.trait_type_mapping),
        impl_type_parameters,
        parsed,
        trait_name,
        is_contract,
        &checklist.impld_item_refs,
        &checklist.method_checklist,
    )? {
        Ok(decl) => decl,
        Err(_) => cx.ask_function(Query::ErrorFunction { parsed })?,
    };
    let decl = cx.ask_function(
        Query::SubstDecl {
            decl: Decl::Function(decl),
            type_subst: checklist.trait_type_mapping.duplicate(),
        },
    )?;

    // The method is taken off the checklist, and is implemented now.
    let name = decl.name.duplicate();
    checklist.method_checklist.remove(&name);
    let decl_ref = cx.ask_decl_ref(
        Query::InsertDecl { decl: Decl::Function(decl), parent: None },
    )?;
    checklist.impld_item_refs.insert(
        ItemKey { name, type_id: ctx.self_type },
        TyTraitItem::Fn(decl_ref),
    );
    Some(checklist)
}

fn implement_constant(
    cx: &mut Session,
    ctx: &Context,
    parsed: ConstantDeclaration,
    trait_name: &CallPath,
    is_contract: bool,
    checklist: Checklist,
) -> (result: Option<Checklist>)
    ensures
        run(final(cx)@, checklist_view(result)) == impl_constant_run(
            old(cx)@,
            ctx@,
            parsed,
            *trait_name,
            is_contract,
            checklist@,
        ),
{
    reveal(impl_constant_run);
    let mut checklist = checklist;
    let decl = match type_check_const_decl(
        cx,
        &ctx.with_type_subst(&checklist.trait_type_mapping),
        parsed,
        trait_name,
        is_contract,
        &checklist.impld_item_refs,
        &checklist.constant_checklist,
    )? {
        Ok(decl) => decl,
        Err(_) => cx.ask_constant(Query::ErrorConstant { parsed })?,
    };
    let decl = cx.ask_constant(
        Query::SubstDecl {
            decl: Decl::Constant(decl),
            type_subst: checklist.trait_type_mapping.duplicate(),
        },
    )?;

    // The constant is taken off the checklist, and is implemented now.
    let name = decl.name.duplicate();
    checklist.constant_checklist.remove(&name);
    let decl_ref = cx.ask_decl_ref(
        Query::InsertDecl { decl: Decl::Constant(decl), parent: None },
    )?;
    checklist.impld_item_refs.insert(
        ItemKey { name, type_id: ctx.self_type },
        TyTraitItem::Constant(decl_ref),
    );
    Some(checklist)
}

fn implement_members(
    cx: &mut Session,
    ctx: &Context,
    impl_type_parameters: &Vec<TypeParameter>,
    impl_items: &Vec<ImplItem>,
    trait_name: &CallPath,
    is_contract: bool,
    checklist: Checklist,
) -> (result: Option<Checklist>)
    ensures
        run(final(cx)@, checklist_view(result)) == impl_members_run(
            old(cx)@,
            ctx@,
            impl_type_parameters@,
            impl_items@,
            *trait_name,
            is_contract,
            checklist@,
            0,
        ),
{
    let mut current = checklist;
    let mut i: usize = 0;
    while i < impl_items.len()
        invariant
            i <= impl_items@.len(),
            impl_members_run(
                old(cx)@,
                ctx@,
                impl_type_parameters@,
                impl_items@,
                *trait_name,
                is_contract,
                checklist@,
                0,
            ) == impl_members_run(
                cx@,
                ctx@,
                impl_type_parameters@,
                impl_items@,
                *trait_name,
                is_contract,
                current@,
                i as int,
            ),
        decreases impl_items@.len() - i,
    {
        match impl_items[i] {
            ImplItem::Fn(parsed) => {
                current =
                implement_method(
                    cx,
                    ctx,
                    impl_type_parameters,
                    parsed,
                    trait_name,
                    is_contract,
                    current,
                )?;
            },
            ImplItem::Constant(parsed) => {
                current =
                implement_constant(cx, ctx, parsed, trait_name, is_contract, current)?;
            },
            ImplItem::Type(_) => {},
        }
        i = i + 1;
    }
    Some(current)
}

fn check_bounds(
    cx: &mut Session,
    ctx: &Context,
    type_arguments: &Vec<TypeArgument>,
    type_parameters: &Vec<TypeParameter>,
) -> (result: Option<Result<(), ErrorEmitted>>)
    ensures
        run(final(cx)@, result) == bounds_run(
            old(cx)@,
            ctx@,
            type_arguments@,
            type_parameters@,
            0,
        ),
{
    let mut i: usize = 0;
    while i < type_arguments.len() && i < type_parameters.len()
        invariant
            i <= type_arguments@.len(),
            i <= type_parameters@.len(),
            bounds_run(old(cx)@, ctx@, type_arguments@, type_parameters@, 0) == bounds_run(
                cx@,
                ctx@,
                type_arguments@,
                type_parameters@,
                i as int,
            ),
        decreases type_arguments@.len() - i,
    {
        let met = cx.ask_outcome(
            Query::CheckTypeParameterBounds {
                ctx: ctx.duplicate(),
                type_id: type_arguments[i].type_id,
                span: type_arguments[i].span,
                constraints_of: Some(type_parameters[i]),
            },
        )?;
        if let Err(error) = met {
            return Some(Err(error));
        }
        i = i + 1;
    }
    Some(Ok(()))
}

fn fit_function(
    cx: &mut Session,
    ctx: &Context,
    id: u64,
    decl_mapping: &DeclMapping,
    type_mapping: &TypeSubstMap,
) -> (result: Option<Result<TyTraitItem, ErrorEmitted>>)
    ensures
        run(final(cx)@, result) == fit_function_run(
            old(cx)@,
            ctx@,
            id,
            (Fitting { decl_mapping: decl_mapping@, type_mapping: type_mapping@ }),
        ),
{
    let method = cx.ask_function(Query::GetDecl { kind: DeclKind::Function, id })?;
    let method = match cx.ask_checked_function(
        Query::ReplaceDecls {
            ctx: ctx.duplicate(),
            decl: Decl::Function(method),
            mapping: decl_mapping.duplicate(),
        },
    )? {
        Ok(method) => method,
        Err(error) => return Some(Err(error)),
    };
    let method = cx.ask_function(
        Query::ReplaceSelfType { decl: Decl::Function(method), type_id: ctx.self_type },
    )?;
    let method = cx.ask_function(
        Query::SubstDecl {
            decl: Decl::Function(method),
            type_subst: type_mapping.duplicate(),
        },
    )?;
    let new = cx.ask_decl_ref(
        Query::InsertDecl {
            decl: Decl::Function(method),
            parent: Some(ParentId::Function(id)),
        },
    )?;
    Some(Ok(TyTraitItem::Fn(new)))
}

fn fit_constant(
    cx: &mut Session,
    ctx: &Context,
    id: u64,
    decl_mapping: &DeclMapping,
    type_mapping: &TypeSubstMap,
) -> (result: Option<Result<TyTraitItem, ErrorEmitted>>)
    ensures
        run(final(cx)@, result) == fit_constant_run(
            old(cx)@,
            ctx@,
            id,
            (Fitting { decl_mapping: decl_mapping@, type_mapping: type_mapping@ }),
        ),
{
    let constant = cx.ask_constant(Query::GetDecl { kind: DeclKind::Constant, id })?;
    let constant = match cx.ask_checked_constant(
        Query::ReplaceDecls {
            ctx: ctx.duplicate(),
            decl: Decl::Constant(constant),
            mapping: decl_mapping.duplicate(),
        },
    )? {
        Ok(constant) => constant,
        Err(error) => return Some(Err(error)),
    };
    let constant = cx.ask_constant(
        Query::ReplaceSelfType { decl: Decl::Constant(constant), type_id: ctx.self_type },
    )?;
    let constant = cx.ask_constant(
        Query::SubstDecl {
            decl: Decl::Constant(constant),
            type_subst: type_mapping.duplicate(),
        },
    )?;
    let new = cx.ask_decl_ref(
        Query::InsertDecl { decl: Decl::Constant(constant), parent: None },
    )?;
    Some(Ok(TyTraitItem::Constant(new)))
}

fn fit_type(cx: &mut Session, ctx: &Context, id: u64, type_mapping: &TypeSubstMap) -> (result:
    Option<Result<TyTraitItem, ErrorEmitted>>)
    ensures
        run(final(cx)@, result) == fit_type_run(old(cx)@, ctx@, id, type_mapping@),
{
    let ty = cx.ask_trait_type(Query::GetDecl { kind: DeclKind::TraitType, id })?;
    let ty = cx.ask_trait_type(
        Query::ReplaceSelfType { decl: Decl::TraitType(ty), type_id: ctx.self_type },
    )?;
    let ty = cx.ask_trait_type(
        Query::SubstDecl {
            decl: Decl::TraitType(ty),
            type_subst: type_mapping.duplicate(),
        },
    )?;
    let new = cx.ask_decl_ref(
        Query::InsertDecl { decl: Decl::TraitType(ty), parent: None },
    )?;
    Some(Ok(TyTraitItem::Type(new)))
}

fn fit_item(
    cx: &mut Session,
    ctx: &Context,
    item: &TyTraitItem,
    decl_mapping: &DeclMapping,
    type_mapping: &TypeSubstMap,
) -> (result: Option<Result<TyTraitItem, ErrorEmitted>>)
    ensures
        run(final(cx)@, result) == fit_item_run(
            old(cx)@,
            ctx@,
            *item,
            (Fitting { decl_mapping: decl_mapping@, type_mapping: type_mapping@ }),
        ),
{
    reveal(fit_item_run);
    match item {
        TyTraitItem::Fn(decl_ref) => fit_function(
            cx,
            ctx,
            decl_ref.id,
            decl_mapping,
            type_mapping,
        ),
        TyTraitItem::Constant(decl_ref) => fit_constant(
            cx,
            ctx,
            decl_ref.id,
            decl_mapping,
            type_mapping,
        ),
        TyTraitItem::Type(decl_ref) => fit_type(cx, ctx, decl_ref.id, type_mapping),
    }
}

fn fit_items(
    cx: &mut Session,
    ctx: &Context,
    trait_items: &Vec<TyTraitItem>,
    decl_mapping: &DeclMapping,
    type_mapping: &TypeSubstMap,
    impl_items: Vec<TyTraitItem>,
) -> (result: Option<Result<Vec<TyTraitItem>, ErrorEmitted>>)
    ensures
        run(final(cx)@, list_result(result)) == fit_items_run(
            old(cx)@,
            ctx@,
            trait_items@,
            (Fitting { decl_mapping: decl_mapping@, type_mapping: type_mapping@ }),
            impl_items@,
            0,
        ),
{
    let ghost fitting = Fitting { decl_mapping: decl_mapping@, type_mapping: type_mapping@ };
    let mut all_items = impl_items;
    let mut i: usize = 0;
    while i < trait_items.len()
        invariant
            i <= trait_items@.len(),
            fitting == (Fitting {
                decl_mapping: decl_mapping@,
                type_mapping: type_mapping@,
            }),
            fit_items_run(old(cx)@, ctx@, trait_items@, fitting, impl_items@, 0)
                == fit_items_run(cx@, ctx@, trait_items@, fitting, all_items@, i as int),
        decreases trait_items@.len() - i,
    {
        match fit_item(cx, ctx, &trait_items[i], decl_mapping, type_mapping)? {
            Ok(item) => {
                all_items.push(item);
            },
            Err(error) => return Some(Err(error)),
        }
        i = i + 1;
    }
    Some(Ok(all_items))
}

/// Emits what is not implemented.
fn emit_missing(cx: &mut Session, checklist: &Checklist, block_span: Span)
    ensures
        final(cx)@ == old(cx)@.emit_all(missing_errors(checklist@, block_span)),
{
    if !checklist.method_checklist.is_empty() {
        let missing_functions = checklist.method_checklist.keys();
        cx.emit_err(
            CompileError::MissingInterfaceSurfaceMethods { missing_functions, span: block_span },
        );
    }
    if !checklist.constant_checklist.is_empty() {
        let missing_constants = checklist.constant_checklist.keys();
        cx.emit_err(
            CompileError::MissingInterfaceSurfaceConstants { missing_constants, span: block_span },
        );
    }
    if !checklist.type_checklist.is_empty() {
        let missing_types = checklist.type_checklist.keys();
        cx.emit_err(
            CompileError::MissingInterfaceSurfaceTypes { missing_types, span: block_span },
        );
    }
    assert(cx@.errors =~= old(cx)@.errors + missing_errors(checklist@, block_span));
}

/// Checks that the items of an impl block implement a trait or an ABI, and gives all items
/// that the type has from it: those of the block, in the order of their names, and those
/// that the trait provides.
///
/// What the interface asks for is put on a checklist, and each item of the block takes its
/// name off. What is left at the end is missing.
pub fn type_check_trait_implementation(
    cx: &mut Session,
    ctx: &Context,
    impl_type_parameters: &Vec<TypeParameter>,
    trait_type_parameters: &Vec<TypeParameter>,
    trait_type_arguments: &Vec<TypeArgument>,
    trait_supertraits: &Vec<Supertrait>,
    trait_interface_surface: &Vec<TyTraitInterfaceItem>,
    trait_items: &Vec<TyTraitItem>,
    impl_items: &Vec<ImplItem>,
    trait_name: &CallPath,
    trait_decl_span: Span,
    block_span: Span,
    is_contract: bool,
) -> (result: Option<Result<Vec<TyImplItem>, ErrorEmitted>>)
    ensures
        run(final(cx)@, list_result(result)) == implementation_run(
            old(cx)@,
            ctx@,
            (Implementation {
                impl_type_parameters: impl_type_parameters@,
                trait_type_parameters: trait_type_parameters@,
                trait_type_arguments: trait_type_arguments@,
                trait_supertraits: trait_supertraits@,
                trait_interface_surface: trait_interface_surface@,
                trait_items: trait_items@,
                impl_items: impl_items@,
                trait_name: *trait_name,
                trait_decl_span,
                block_span,
                is_contract,
            }),
        ),
{
    let self_type = ctx.self_type;

    // The type must implement the supertraits.
    let met = cx.ask_outcome(
        Query::CheckTraitConstraints {
            ctx: ctx.duplicate(),
            type_id: self_type,
            supertraits: duplicate_all(trait_supertraits),
            span: block_span,
        },
    )?;
    if let Err(error) = met {
        return Some(Err(error));
    }
    if let Err(error) = check_bounds(cx, ctx, trait_type_arguments, trait_type_parameters)? {
        return Some(Err(error));
    }

    // The items from the supertraits are made known, so that the methods of the impl block
    // can use them. Errors about that do not count: this is no impl block.
    let mut supertrait_interface_items: InterfaceItemMap = SortedMap::new();
    let mut supertrait_impld_items: ItemMap = SortedMap::new();
    if trait_supertraits.len() > 0 {
        match handle_supertraits(cx, ctx, trait_supertraits)? {
            Ok((interface_items, impld_items)) => {
                cx.ask_outcome_quietly(
                    Query::InsertTraitImplementation {
                        ctx: ctx.duplicate(),
                        trait_name: trait_name.duplicate(),
                        type_arguments: duplicate_all(trait_type_arguments),
                        type_id: self_type,
                        items: impld_items.values(),
                        impl_span: trait_name.span,
                        trait_decl_span: Some(trait_decl_span),
                        is_extending_existing_impl: false,
                    },
                )?;
                supertrait_interface_items = interface_items;
                supertrait_impld_items = impld_items;
            },
            Err(error) => return Some(Err(error)),
        }
    }
    let checklist = take_surface(cx, trait_interface_surface, self_type)?;
    let checklist = implement_types(cx, ctx, impl_items, trait_name, is_contract, checklist)?;
    let checklist = implement_members(
        cx,
        ctx,
        impl_type_parameters,
        impl_items,
        trait_name,
        is_contract,
        checklist,
    )?;

    // The items that the trait provides are fitted to the impl block.
    let all_items = checklist.impld_item_refs.values();
    let mut type_mapping = from_type_parameters_and_type_arguments(
        trait_type_parameters,
        trait_type_arguments,
    );
    type_mapping.extend(checklist.trait_type_mapping.duplicate());
    let mut interface_items = checklist.interface_item_refs.duplicate();
    interface_items.extend(supertrait_interface_items);
    let mut impld_items = checklist.impld_item_refs.duplicate();
    impld_items.extend(supertrait_impld_items);
    let decl_mapping = DeclMapping { interface_items, items: SortedMap::new(), impld_items };
    let all_items = match fit_items(
        cx,
        ctx,
        trait_items,
        &decl_mapping,
        &type_mapping,
        all_items,
    )? {
        Ok(all_items) => all_items,
        Err(error) => return Some(Err(error)),
    };

    // The checklist must be complete.
    let before: usize = cx.error_count();
    emit_missing(cx, &checklist, block_span);
    Some(cx.close_scope(before, Ok(all_items)))
}

} // verus!
