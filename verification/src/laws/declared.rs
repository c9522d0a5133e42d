//! How a trait is declared, step by step: what is asked about each item, what becomes known
//! and when, and that no item is passed over.
use crate::decl::{
    CallPath, ConstantDeclaration, Decl, DeclRef, DeclView, FunctionDeclaration, ParentId,
    TraitDeclaration, TraitFn, TraitItem, TraitTypeDeclaration, TraitView, TyConstantDecl, TyDecl,
    TyFunctionDecl, TyTraitFn, TyTraitInterfaceItem, TyTraitItem, TyTraitType,
};
use crate::diagnostics::{CompileError, CompileWarning, ErrorEmitted};
use crate::ident::Ident;
use crate::laws::dialogue::answered;
use crate::session::{
    ask, chain, chain_ok, done, to_item, to_outcome, Answer, ContextView, QueryView, Run, World,
};
use crate::style::upper_camel_case;
use crate::trait_decl::{
    as_arguments, declare_constant_run, declare_fn_run, declare_members_run, declare_type_run,
    declare_types_run, finalize_run, finalized, insert_parameters_run, methods_run,
    provide_method_run, trait_body_run, trait_head_run, trait_run, SurfaceView,
};
use crate::types::{TypeArgument, TypeId, TypeInfo, TypeParameter};
use vstd::prelude::*;

verus! {

/// Whether a name is among those taken down.
pub open spec fn taken_down(names: Seq<Ident>, name: Ident) -> bool {
    exists|i: int| 0 <= i < names.len() && (#[trigger] names[i]).name@ == name.name@
}

/// An associated type of a trait is checked, kept, listed behind the interface items before
/// it, and stands in for itself behind the stand-ins before it. Its name is taken down; one
/// that was taken down before is an error, which does not end the check.
pub proof fn law_declared_type(
    world: World,
    ctx: ContextView,
    parsed: TraitTypeDeclaration,
    surface: SurfaceView,
    decl: TyTraitType,
    decl_ref: DeclRef,
)
    requires
        answered(world, seq![Answer::Decl(Decl::TraitType(decl)), Answer::DeclRef(decl_ref)]),
    ensures
        !taken_down(
            surface.names,
            decl.name,
        ) ==> declare_type_run(
            world,
            ctx,
            parsed,
            surface,
        ) == done(
            world.hear(
                QueryView::TypeCheckTraitType { ctx, parsed },
            ).hear(
                QueryView::InsertDecl { decl: DeclView::TraitType(decl), parent: None },
            ),
            Ok::<SurfaceView, ErrorEmitted>(
                SurfaceView {
                    items: surface.items.push(TyTraitInterfaceItem::Type(decl_ref)),
                    stand_ins: surface.stand_ins.push(TyTraitItem::Type(decl_ref)),
                    names: surface.names.push(decl.name),
                },
            ),
        ),
        taken_down(
            surface.names,
            decl.name,
        ) ==> declare_type_run(
            world,
            ctx,
            parsed,
            surface,
        ) == done(
            world.hear(
                QueryView::TypeCheckTraitType { ctx, parsed },
            ).hear(
                QueryView::InsertDecl { decl: DeclView::TraitType(decl), parent: None },
            ).emit_plain(
                CompileError::MultipleDefinitionsOfName { name: decl.name, span: decl.name.span },
            ),
            Ok::<SurfaceView, ErrorEmitted>(
                SurfaceView {
                    items: surface.items.push(TyTraitInterfaceItem::Type(decl_ref)),
                    stand_ins: surface.stand_ins.push(TyTraitItem::Type(decl_ref)),
                    ..surface
                },
            ),
        ),
{
}

/// One that the compiler refuses ends the check of the trait with an error, and nothing more
/// is asked.
pub proof fn law_undeclared_type(
    world: World,
    ctx: ContextView,
    parsed: TraitTypeDeclaration,
    surface: SurfaceView,
)
    requires
        answered(world, seq![Answer::Failed]),
    ensures
        declare_type_run(world, ctx, parsed, surface) == done(
            world.hear(QueryView::TypeCheckTraitType { ctx, parsed }),
            Err::<SurfaceView, _>(ErrorEmitted),
        ),
{
}

/// A signature of a trait is checked, kept, and listed behind the interface items before it. A
/// function without a body is made from it, with the signature as its parent, and stands in
/// for it behind the stand-ins before it. Its name is taken down; one that was taken down
/// before is an error, which does not end the check.
pub proof fn law_declared_signature(
    world: World,
    ctx: ContextView,
    parsed: TraitFn,
    surface: SurfaceView,
    decl: TyTraitFn,
    decl_ref: DeclRef,
    dummy: DeclRef,
)
    requires
        answered(
            world,
            seq![
                Answer::Decl(Decl::TraitFn(decl)),
                Answer::DeclRef(decl_ref),
                Answer::DeclRef(dummy),
            ],
        ),
    ensures
        !taken_down(
            surface.names,
            decl.name,
        ) ==> declare_fn_run(
            world,
            ctx,
            parsed,
            surface,
        ) == done(
            world.hear(
                QueryView::TypeCheckTraitFn { ctx, parsed },
            ).hear(
                QueryView::InsertDecl { decl: DeclView::TraitFn(decl@), parent: None },
            ).hear(
                QueryView::InsertDummyFunction {
                    trait_fn: decl@,
                    parent: ParentId::TraitFn(decl_ref.id),
                },
            ),
            Ok::<SurfaceView, ErrorEmitted>(
                SurfaceView {
                    items: surface.items.push(TyTraitInterfaceItem::TraitFn(decl_ref)),
                    stand_ins: surface.stand_ins.push(TyTraitItem::Fn(dummy)),
                    names: surface.names.push(decl.name),
                },
            ),
        ),
        taken_down(
            surface.names,
            decl.name,
        ) ==> declare_fn_run(
            world,
            ctx,
            parsed,
            surface,
        ) == done(
            world.hear(
                QueryView::TypeCheckTraitFn { ctx, parsed },
            ).hear(
                QueryView::InsertDecl { decl: DeclView::TraitFn(decl@), parent: None },
            ).hear(
                QueryView::InsertDummyFunction {
                    trait_fn: decl@,
                    parent: ParentId::TraitFn(decl_ref.id),
                },
            ).emit_plain(
                CompileError::MultipleDefinitionsOfName { name: decl.name, span: decl.name.span },
            ),
            Ok::<SurfaceView, ErrorEmitted>(
                SurfaceView {
                    items: surface.items.push(TyTraitInterfaceItem::TraitFn(decl_ref)),
                    stand_ins: surface.stand_ins.push(TyTraitItem::Fn(dummy)),
                    ..surface
                },
            ),
        ),
{
}

/// One that the compiler refuses ends the check of the trait with an error, and nothing more
/// is asked.
pub proof fn law_undeclared_signature(
    world: World,
    ctx: ContextView,
    parsed: TraitFn,
    surface: SurfaceView,
)
    requires
        answered(world, seq![Answer::Failed]),
    ensures
        declare_fn_run(world, ctx, parsed, surface) == done(
            world.hear(QueryView::TypeCheckTraitFn { ctx, parsed }),
            Err::<SurfaceView, _>(ErrorEmitted),
        ),
{
}

/// A constant of a trait is checked, kept, made known by its name, and listed behind the
/// interface items before it. Nothing stands in for it. Its name is taken down; one that was
/// taken down before is an error, which does not end the check.
pub proof fn law_declared_constant(
    world: World,
    ctx: ContextView,
    parsed: ConstantDeclaration,
    surface: SurfaceView,
    decl: TyConstantDecl,
    decl_ref: DeclRef,
)
    requires
        answered(
            world,
            seq![Answer::Decl(Decl::Constant(decl)), Answer::DeclRef(decl_ref), Answer::Done],
        ),
    ensures
        !taken_down(
            surface.names,
            decl.name,
        ) ==> declare_constant_run(
            world,
            ctx,
            parsed,
            surface,
        ) == done(
            world.hear(
                QueryView::TypeCheckConstant { ctx, parsed },
            ).hear(
                QueryView::InsertDecl { decl: DeclView::Constant(decl), parent: None },
            ).hear(
                QueryView::InsertSymbol {
                    ctx,
                    name: decl.name@,
                    decl: TyDecl::ConstantDecl {
                        name: decl.name,
                        decl_id: decl_ref.id,
                        decl_span: decl.span,
                    },
                },
            ),
            Ok::<SurfaceView, ErrorEmitted>(
                SurfaceView {
                    items: surface.items.push(TyTraitInterfaceItem::Constant(decl_ref)),
                    names: surface.names.push(decl.name),
                    ..surface
                },
            ),
        ),
        taken_down(
            surface.names,
            decl.name,
        ) ==> declare_constant_run(
            world,
            ctx,
            parsed,
            surface,
        ) == done(
            world.hear(
                QueryView::TypeCheckConstant { ctx, parsed },
            ).hear(
                QueryView::InsertDecl { decl: DeclView::Constant(decl), parent: None },
            ).hear(
                QueryView::InsertSymbol {
                    ctx,
                    name: decl.name@,
                    decl: TyDecl::ConstantDecl {
                        name: decl.name,
                        decl_id: decl_ref.id,
                        decl_span: decl.span,
                    },
                },
            ).emit_plain(
                CompileError::MultipleDefinitionsOfName { name: decl.name, span: decl.name.span },
            ),
            Ok::<SurfaceView, ErrorEmitted>(
                SurfaceView {
                    items: surface.items.push(TyTraitInterfaceItem::Constant(decl_ref)),
                    ..surface
                },
            ),
        ),
{
}

/// One that the compiler refuses ends the check of the trait with an error, and nothing more
/// is asked.
pub proof fn law_undeclared_constant(
    world: World,
    ctx: ContextView,
    parsed: ConstantDeclaration,
    surface: SurfaceView,
)
    requires
        answered(world, seq![Answer::Failed]),
    ensures
        declare_constant_run(world, ctx, parsed, surface) == done(
            world.hear(QueryView::TypeCheckConstant { ctx, parsed }),
            Err::<SurfaceView, _>(ErrorEmitted),
        ),
{
}

/// A constant whose name cannot be made known ends the check of the trait with an error.
pub proof fn law_clashing_constant(
    world: World,
    ctx: ContextView,
    parsed: ConstantDeclaration,
    surface: SurfaceView,
    decl: TyConstantDecl,
    decl_ref: DeclRef,
)
    requires
        answered(
            world,
            seq![Answer::Decl(Decl::Constant(decl)), Answer::DeclRef(decl_ref), Answer::Failed],
        ),
    ensures
        declare_constant_run(world, ctx, parsed, surface) == done(
            world.hear(
                QueryView::TypeCheckConstant { ctx, parsed },
            ).hear(
                QueryView::InsertDecl { decl: DeclView::Constant(decl), parent: None },
            ).hear(
                QueryView::InsertSymbol {
                    ctx,
                    name: decl.name@,
                    decl: TyDecl::ConstantDecl {
                        name: decl.name,
                        decl_id: decl_ref.id,
                        decl_span: decl.span,
                    },
                },
            ),
            Err::<SurfaceView, _>(ErrorEmitted),
        ),
{
}

/// What becomes of one item of a trait while its associated types are gone through.
pub open spec fn type_of_trait_run(
    world: World,
    ctx: ContextView,
    item: TraitItem,
    surface: SurfaceView,
) -> Run<Result<SurfaceView, ErrorEmitted>> {
    if let TraitItem::Type(parsed) = item {
        declare_type_run(world, ctx, parsed, surface)
    } else {
        done(world, Ok(surface))
    }
}

/// What becomes of one item of a trait while its signatures and constants are gone through.
pub open spec fn member_of_trait_run(
    world: World,
    ctx: ContextView,
    item: TraitItem,
    surface: SurfaceView,
) -> Run<Result<SurfaceView, ErrorEmitted>> {
    if let TraitItem::TraitFn(parsed) = item {
        declare_fn_run(world, ctx, parsed, surface)
    } else if let TraitItem::Constant(parsed) = item {
        declare_constant_run(world, ctx, parsed, surface)
    } else {
        done(world, Ok(surface))
    }
}

/// The associated types of a trait are gone through in their order, and its other items passed
/// over. One item more changes nothing for those before it.
pub proof fn law_declare_types_one_more(
    world: World,
    ctx: ContextView,
    items: Seq<TraitItem>,
    last: TraitItem,
    surface: SurfaceView,
)
    ensures
        declare_types_run(world, ctx, Seq::empty(), surface, 0) == done(
            world,
            Ok::<_, ErrorEmitted>(surface),
        ),
        declare_types_run(world, ctx, items.push(last), surface, 0) == chain_ok(
            declare_types_run(world, ctx, items, surface, 0),
            |world: World, surface: SurfaceView| type_of_trait_run(world, ctx, last, surface),
        ),
{
    lemma_declare_types_one_more(world, ctx, items, last, surface, 0);
}

/// The same from the `i`-th on.
proof fn lemma_declare_types_one_more(
    world: World,
    ctx: ContextView,
    items: Seq<TraitItem>,
    last: TraitItem,
    surface: SurfaceView,
    i: int,
)
    requires
        0 <= i <= items.len(),
    ensures
        declare_types_run(world, ctx, items.push(last), surface, i) == chain_ok(
            declare_types_run(world, ctx, items, surface, i),
            |world: World, surface: SurfaceView| type_of_trait_run(world, ctx, last, surface),
        ),
    decreases items.len() - i,
{
    if i < items.len() {
        assert(items.push(last)[i] == items[i]);
        let first = type_of_trait_run(world, ctx, items[i], surface);
        if first.value is Some && first.value->0 is Ok {
            lemma_declare_types_one_more(
                first.world,
                ctx,
                items,
                last,
                first.value->0->Ok_0,
                i + 1,
            );
        }
    } else {
        reveal_with_fuel(declare_types_run, 2);
    }
}

/// The signatures and the constants of a trait are gone through in their order, and its other
/// items passed over. One item more changes nothing for those before it.
pub proof fn law_declare_members_one_more(
    world: World,
    ctx: ContextView,
    items: Seq<TraitItem>,
    last: TraitItem,
    surface: SurfaceView,
)
    ensures
        declare_members_run(world, ctx, Seq::empty(), surface, 0) == done(
            world,
            Ok::<_, ErrorEmitted>(surface),
        ),
        declare_members_run(world, ctx, items.push(last), surface, 0) == chain_ok(
            declare_members_run(world, ctx, items, surface, 0),
            |world: World, surface: SurfaceView| member_of_trait_run(world, ctx, last, surface),
        ),
{
    lemma_declare_members_one_more(world, ctx, items, last, surface, 0);
}

/// The same from the `i`-th on.
proof fn lemma_declare_members_one_more(
    world: World,
    ctx: ContextView,
    items: Seq<TraitItem>,
    last: TraitItem,
    surface: SurfaceView,
    i: int,
)
    requires
        0 <= i <= items.len(),
    ensures
        declare_members_run(world, ctx, items.push(last), surface, i) == chain_ok(
            declare_members_run(world, ctx, items, surface, i),
            |world: World, surface: SurfaceView| member_of_trait_run(world, ctx, last, surface),
        ),
    decreases items.len() - i,
{
    if i < items.len() {
        assert(items.push(last)[i] == items[i]);
        let first = member_of_trait_run(world, ctx, items[i], surface);
        if first.value is Some && first.value->0 is Ok {
            lemma_declare_members_one_more(
                first.world,
                ctx,
                items,
                last,
                first.value->0->Ok_0,
                i + 1,
            );
        }
    } else {
        reveal_with_fuel(declare_members_run, 2);
    }
}

/// Each type parameter is made known, in their order; one that cannot be is an error. One type
/// parameter more changes nothing for those before it.
pub proof fn law_inserted_parameters_one_more(
    world: World,
    ctx: ContextView,
    type_parameters: Seq<TypeParameter>,
    last: TypeParameter,
)
    ensures
        insert_parameters_run(world, ctx, Seq::empty(), 0) == done(
            world,
            Ok::<_, ErrorEmitted>(()),
        ),
        insert_parameters_run(world, ctx, type_parameters.push(last), 0) == chain_ok(
            insert_parameters_run(world, ctx, type_parameters, 0),
            |world: World, _before: ()|
                to_outcome(ask(world, QueryView::InsertTypeParameter { ctx, parameter: last })),
        ),
{
    lemma_inserted_parameters_one_more(world, ctx, type_parameters, last, 0);
}

/// The same from the `i`-th on.
proof fn lemma_inserted_parameters_one_more(
    world: World,
    ctx: ContextView,
    type_parameters: Seq<TypeParameter>,
    last: TypeParameter,
    i: int,
)
    requires
        0 <= i <= type_parameters.len(),
    ensures
        insert_parameters_run(world, ctx, type_parameters.push(last), i) == chain_ok(
            insert_parameters_run(world, ctx, type_parameters, i),
            |world: World, _before: ()|
                to_outcome(ask(world, QueryView::InsertTypeParameter { ctx, parameter: last })),
        ),
    decreases type_parameters.len() - i,
{
    if i < type_parameters.len() {
        assert(type_parameters.push(last)[i] == type_parameters[i]);
        let first = to_outcome(
            ask(world, QueryView::InsertTypeParameter { ctx, parameter: type_parameters[i] }),
        );
        if first.value is Some && first.value->0 is Ok {
            lemma_inserted_parameters_one_more(first.world, ctx, type_parameters, last, i + 1);
        }
    } else {
        reveal_with_fuel(insert_parameters_run, 2);
    }
}

/// A method that a trait provides is checked and kept as the compiler checked it.
pub proof fn law_provided_method(
    world: World,
    ctx: ContextView,
    parsed: FunctionDeclaration,
    decl: TyFunctionDecl,
    decl_ref: DeclRef,
)
    requires
        answered(world, seq![Answer::Decl(Decl::Function(decl)), Answer::DeclRef(decl_ref)]),
    ensures
        provide_method_run(world, ctx, parsed) == done(
            world.hear(
                QueryView::TypeCheckFunction { ctx, parsed },
            ).hear(
                QueryView::InsertDecl { decl: DeclView::Function(decl@), parent: None },
            ),
            decl_ref,
        ),
{
}

/// A method that a trait provides and the compiler refuses is replaced by an error
/// declaration, which is kept.
pub proof fn law_failed_provided_method(
    world: World,
    ctx: ContextView,
    parsed: FunctionDeclaration,
    decl: TyFunctionDecl,
    decl_ref: DeclRef,
)
    requires
        answered(
            world,
            seq![Answer::Failed, Answer::Decl(Decl::Function(decl)), Answer::DeclRef(decl_ref)],
        ),
    ensures
        provide_method_run(world, ctx, parsed) == done(
            world.hear(
                QueryView::TypeCheckFunction { ctx, parsed },
            ).hear(
                QueryView::ErrorFunction { parsed },
            ).hear(
                QueryView::InsertDecl { decl: DeclView::Function(decl@), parent: None },
            ),
            decl_ref,
        ),
{
}

/// Each method that a trait provides is checked and kept, in their order. One method more
/// changes nothing for those before it.
pub proof fn law_methods_one_more(
    world: World,
    ctx: ContextView,
    methods: Seq<FunctionDeclaration>,
    last: FunctionDeclaration,
    items: Seq<TyTraitItem>,
)
    ensures
        methods_run(world, ctx, Seq::empty(), items, 0) == done(world, items),
        methods_run(world, ctx, methods.push(last), items, 0) == chain(
            methods_run(world, ctx, methods, items, 0),
            |world: World, items: Seq<TyTraitItem>|
                chain(
                    provide_method_run(world, ctx, last),
                    |world: World, decl_ref: DeclRef|
                        done(world, items.push(TyTraitItem::Fn(decl_ref))),
                ),
        ),
{
    lemma_methods_one_more(world, ctx, methods, last, items, 0);
}

/// The same from the `i`-th on.
proof fn lemma_methods_one_more(
    world: World,
    ctx: ContextView,
    methods: Seq<FunctionDeclaration>,
    last: FunctionDeclaration,
    items: Seq<TyTraitItem>,
    i: int,
)
    requires
        0 <= i <= methods.len(),
    ensures
        methods_run(world, ctx, methods.push(last), items, i) == chain(
            methods_run(world, ctx, methods, items, i),
            |world: World, items: Seq<TyTraitItem>|
                chain(
                    provide_method_run(world, ctx, last),
                    |world: World, decl_ref: DeclRef|
                        done(world, items.push(TyTraitItem::Fn(decl_ref))),
                ),
        ),
    decreases methods.len() - i,
{
    if i < methods.len() {
        assert(methods.push(last)[i] == methods[i]);
        let first = chain(
            provide_method_run(world, ctx, methods[i]),
            |world: World, decl_ref: DeclRef| done(world, items.push(TyTraitItem::Fn(decl_ref))),
        );
        if first.value is Some {
            lemma_methods_one_more(first.world, ctx, methods, last, first.value->0, i + 1);
        }
    } else {
        reveal_with_fuel(methods_run, 2);
    }
}

/// The associated types of a trait come first. An error about one of them ends the check of
/// the trait.
pub proof fn law_refused_types(
    world: World,
    ctx: ContextView,
    decl: TraitDeclaration,
    type_parameters: Seq<TypeParameter>,
    types: Run<Result<SurfaceView, ErrorEmitted>>,
)
    requires
        types == declare_types_run(
            world,
            ctx,
            decl.interface_surface@,
            SurfaceView { items: Seq::empty(), stand_ins: Seq::empty(), names: Seq::empty() },
            0,
        ),
        types.value == Some(Err::<SurfaceView, _>(ErrorEmitted)),
    ensures
        trait_body_run(world, ctx, decl, type_parameters) == done(
            types.world,
            Err::<TraitView, _>(ErrorEmitted),
        ),
{
}

/// Behind the associated types their stand-ins are made known for the self type, all of them
/// in one query, with the type parameters of the trait as its type arguments. If that fails
/// the check of the trait ends with an error.
pub proof fn law_clashing_types(
    world: World,
    ctx: ContextView,
    decl: TraitDeclaration,
    type_parameters: Seq<TypeParameter>,
    types: Run<Result<SurfaceView, ErrorEmitted>>,
    declared: SurfaceView,
)
    requires
        types == declare_types_run(
            world,
            ctx,
            decl.interface_surface@,
            SurfaceView { items: Seq::empty(), stand_ins: Seq::empty(), names: Seq::empty() },
            0,
        ),
        types.value == Some(Ok::<SurfaceView, ErrorEmitted>(declared)),
        answered(types.world, seq![Answer::Failed]),
    ensures
        trait_body_run(world, ctx, decl, type_parameters) == done(
            types.world.hear(
                QueryView::InsertTraitImplementation {
                    ctx,
                    trait_name: CallPath {
                        prefixes: None,
                        suffix: decl.name,
                        is_absolute: false,
                        span: decl.name.span,
                    },
                    type_arguments: type_parameters.map_values(
                        |parameter: TypeParameter|
                            TypeArgument {
                                type_id: parameter.type_id,
                                span: parameter.span,
                                key: parameter.key,
                            },
                    ),
                    type_id: ctx.self_type,
                    items: declared.stand_ins,
                    impl_span: decl.span,
                    trait_decl_span: None,
                    is_extending_existing_impl: false,
                },
            ),
            Err::<TraitView, _>(ErrorEmitted),
        ),
{
    assert(as_arguments(type_parameters) =~= type_parameters.map_values(
        |parameter: TypeParameter|
            TypeArgument {
                type_id: parameter.type_id,
                span: parameter.span,
                key: parameter.key,
            },
    ));
}

/// The signatures and the constants of a trait come once its associated types are known. An
/// error about one of them ends the check of the trait.
pub proof fn law_refused_members(
    world: World,
    ctx: ContextView,
    decl: TraitDeclaration,
    type_parameters: Seq<TypeParameter>,
    types: Run<Result<SurfaceView, ErrorEmitted>>,
    declared: SurfaceView,
    members: Run<Result<SurfaceView, ErrorEmitted>>,
)
    requires
        types == declare_types_run(
            world,
            ctx,
            decl.interface_surface@,
            SurfaceView { items: Seq::empty(), stand_ins: Seq::empty(), names: Seq::empty() },
            0,
        ),
        types.value == Some(Ok::<SurfaceView, ErrorEmitted>(declared)),
        answered(types.world, seq![Answer::Done]),
        members == declare_members_run(
            types.world.hear(
                QueryView::InsertTraitImplementation {
                    ctx,
                    trait_name: CallPath {
                        prefixes: None,
                        suffix: decl.name,
                        is_absolute: false,
                        span: decl.name.span,
                    },
                    type_arguments: type_parameters.map_values(
                        |parameter: TypeParameter|
                            TypeArgument {
                                type_id: parameter.type_id,
                                span: parameter.span,
                                key: parameter.key,
                            },
                    ),
                    type_id: ctx.self_type,
                    items: declared.stand_ins,
                    impl_span: decl.span,
                    trait_decl_span: None,
                    is_extending_existing_impl: false,
                },
            ),
            ctx,
            decl.interface_surface@,
            SurfaceView { stand_ins: Seq::empty(), ..declared },
            0,
        ),
        members.value == Some(Err::<SurfaceView, _>(ErrorEmitted)),
    ensures
        trait_body_run(world, ctx, decl, type_parameters) == done(
            members.world,
            Err::<TraitView, _>(ErrorEmitted),
        ),
{
    assert(as_arguments(type_parameters) =~= type_parameters.map_values(
        |parameter: TypeParameter|
            TypeArgument {
                type_id: parameter.type_id,
                span: parameter.span,
                key: parameter.key,
            },
    ));
}

/// Behind the signatures their stand-ins are made known for the self type, all of them in one
/// query, in addition to those of the types. If that fails the check of the trait ends with an
/// error.
pub proof fn law_clashing_members(
    world: World,
    ctx: ContextView,
    decl: TraitDeclaration,
    type_parameters: Seq<TypeParameter>,
    types: Run<Result<SurfaceView, ErrorEmitted>>,
    declared: SurfaceView,
    members: Run<Result<SurfaceView, ErrorEmitted>>,
    surface: SurfaceView,
)
    requires
        types == declare_types_run(
            world,
            ctx,
            decl.interface_surface@,
            SurfaceView { items: Seq::empty(), stand_ins: Seq::empty(), names: Seq::empty() },
            0,
        ),
        types.value == Some(Ok::<SurfaceView, ErrorEmitted>(declared)),
        answered(types.world, seq![Answer::Done]),
        members == declare_members_run(
            types.world.hear(
                QueryView::InsertTraitImplementation {
                    ctx,
                    trait_name: CallPath {
                        prefixes: None,
                        suffix: decl.name,
                        is_absolute: false,
                        span: decl.name.span,
                    },
                    type_arguments: type_parameters.map_values(
                        |parameter: TypeParameter|
                            TypeArgument {
                                type_id: parameter.type_id,
                                span: parameter.span,
                                key: parameter.key,
                            },
                    ),
                    type_id: ctx.self_type,
                    items: declared.stand_ins,
                    impl_span: decl.span,
                    trait_decl_span: None,
                    is_extending_existing_impl: false,
                },
            ),
            ctx,
            decl.interface_surface@,
            SurfaceView { stand_ins: Seq::empty(), ..declared },
            0,
        ),
        members.value == Some(Ok::<SurfaceView, ErrorEmitted>(surface)),
        answered(members.world, seq![Answer::Failed]),
    ensures
        trait_body_run(world, ctx, decl, type_parameters) == done(
            members.world.hear(
                QueryView::InsertTraitImplementation {
                    ctx,
                    trait_name: CallPath {
                        prefixes: None,
                        suffix: decl.name,
                        is_absolute: false,
                        span: decl.name.span,
                    },
                    type_arguments: type_parameters.map_values(
                        |parameter: TypeParameter|
                            TypeArgument {
                                type_id: parameter.type_id,
                                span: parameter.span,
                                key: parameter.key,
                            },
                    ),
                    type_id: ctx.self_type,
                    items: surface.stand_ins,
                    impl_span: decl.span,
                    trait_decl_span: None,
                    is_extending_existing_impl: true,
                },
            ),
            Err::<TraitView, _>(ErrorEmitted),
        ),
{
    assert(as_arguments(type_parameters) =~= type_parameters.map_values(
        |parameter: TypeParameter|
            TypeArgument {
                type_id: parameter.type_id,
                span: parameter.span,
                key: parameter.key,
            },
    ));
}

/// The methods that the trait provides come last, once all stand-ins are known. The trait has
/// the interface items of its types and its members, the items of its methods, and the name,
/// the supertraits and the span of its declaration.
pub proof fn law_trait_body(
    world: World,
    ctx: ContextView,
    decl: TraitDeclaration,
    type_parameters: Seq<TypeParameter>,
    types: Run<Result<SurfaceView, ErrorEmitted>>,
    declared: SurfaceView,
    members: Run<Result<SurfaceView, ErrorEmitted>>,
    surface: SurfaceView,
    methods: Run<Seq<TyTraitItem>>,
)
    requires
        types == declare_types_run(
            world,
            ctx,
            decl.interface_surface@,
            SurfaceView { items: Seq::empty(), stand_ins: Seq::empty(), names: Seq::empty() },
            0,
        ),
        types.value == Some(Ok::<SurfaceView, ErrorEmitted>(declared)),
        answered(types.world, seq![Answer::Done]),
        members == declare_members_run(
            types.world.hear(
                QueryView::InsertTraitImplementation {
                    ctx,
                    trait_name: CallPath {
                        prefixes: None,
                        suffix: decl.name,
                        is_absolute: false,
                        span: decl.name.span,
                    },
                    type_arguments: type_parameters.map_values(
                        |parameter: TypeParameter|
                            TypeArgument {
                                type_id: parameter.type_id,
                                span: parameter.span,
                                key: parameter.key,
                            },
                    ),
                    type_id: ctx.self_type,
                    items: declared.stand_ins,
                    impl_span: decl.span,
                    trait_decl_span: None,
                    is_extending_existing_impl: false,
                },
            ),
            ctx,
            decl.interface_surface@,
            SurfaceView { stand_ins: Seq::empty(), ..declared },
            0,
        ),
        members.value == Some(Ok::<SurfaceView, ErrorEmitted>(surface)),
        answered(members.world, seq![Answer::Done]),
        methods == methods_run(
            members.world.hear(
                QueryView::InsertTraitImplementation {
                    ctx,
                    trait_name: CallPath {
                        prefixes: None,
                        suffix: decl.name,
                        is_absolute: false,
                        span: decl.name.span,
                    },
                    type_arguments: type_parameters.map_values(
                        |parameter: TypeParameter|
                            TypeArgument {
                                type_id: parameter.type_id,
                                span: parameter.span,
                                key: parameter.key,
                            },
                    ),
                    type_id: ctx.self_type,
                    items: surface.stand_ins,
                    impl_span: decl.span,
                    trait_decl_span: None,
                    is_extending_existing_impl: true,
                },
            ),
            ctx,
            decl.methods@,
            Seq::empty(),
            0,
        ),
        methods.value is Some,
    ensures
        trait_body_run(world, ctx, decl, type_parameters) == done(
            methods.world,
            Ok::<TraitView, ErrorEmitted>(
                TraitView {
                    name: decl.name,
                    type_parameters,
                    interface_surface: surface.items,
                    items: methods.value->0,
                    supertraits: decl.supertraits@,
                    span: decl.span,
                    key: decl.key,
                },
            ),
        ),
{
    assert(as_arguments(type_parameters) =~= type_parameters.map_values(
        |parameter: TypeParameter|
            TypeArgument {
                type_id: parameter.type_id,
                span: parameter.span,
                key: parameter.key,
            },
    ));
}

/// A trait whose type parameters the compiler refuses is refused, and nothing more is asked.
pub proof fn law_refused_type_parameters(
    world: World,
    ctx: ContextView,
    decl: TraitDeclaration,
)
    requires
        answered(world, seq![Answer::Failed]),
    ensures
        trait_head_run(world, ctx, decl) == done(
            world.hear(
                QueryView::TypeCheckTypeParameters { ctx, parameters: decl.type_parameters },
            ),
            Err::<TraitView, _>(ErrorEmitted),
        ),
{
}

/// The type parameters are made known once they are checked. One that cannot be refuses the
/// trait.
pub proof fn law_clashing_type_parameters(
    world: World,
    ctx: ContextView,
    decl: TraitDeclaration,
    type_parameters: Vec<TypeParameter>,
    inserted: Run<Result<(), ErrorEmitted>>,
)
    requires
        answered(world, seq![Answer::TypeParameters(type_parameters)]),
        inserted == insert_parameters_run(
            world.hear(
                QueryView::TypeCheckTypeParameters { ctx, parameters: decl.type_parameters },
            ),
            ctx,
            type_parameters@,
            0,
        ),
        inserted.value == Some(Err::<(), _>(ErrorEmitted)),
    ensures
        trait_head_run(world, ctx, decl) == done(inserted.world, Err::<TraitView, _>(ErrorEmitted)),
{
}

/// The supertraits come behind the type parameters. If they cannot be made known the trait is
/// refused.
pub proof fn law_refused_trait_supertraits(
    world: World,
    ctx: ContextView,
    decl: TraitDeclaration,
    type_parameters: Vec<TypeParameter>,
    inserted: Run<Result<(), ErrorEmitted>>,
)
    requires
        answered(world, seq![Answer::TypeParameters(type_parameters)]),
        inserted == insert_parameters_run(
            world.hear(
                QueryView::TypeCheckTypeParameters { ctx, parameters: decl.type_parameters },
            ),
            ctx,
            type_parameters@,
            0,
        ),
        inserted.value == Some(Ok::<(), ErrorEmitted>(())),
        answered(inserted.world, seq![Answer::Failed]),
    ensures
        trait_head_run(world, ctx, decl) == done(
            inserted.world.hear(
                QueryView::InsertSupertraits {
                    ctx,
                    self_type: ctx.self_type,
                    supertraits: decl.supertraits@,
                },
            ),
            Err::<TraitView, _>(ErrorEmitted),
        ),
{
}

/// Once the type parameters and the supertraits are known, what is inside the trait is gone
/// through, with the type parameters as the compiler checked them.
pub proof fn law_trait_head(
    world: World,
    ctx: ContextView,
    decl: TraitDeclaration,
    type_parameters: Vec<TypeParameter>,
    inserted: Run<Result<(), ErrorEmitted>>,
)
    requires
        answered(world, seq![Answer::TypeParameters(type_parameters)]),
        inserted == insert_parameters_run(
            world.hear(
                QueryView::TypeCheckTypeParameters { ctx, parameters: decl.type_parameters },
            ),
            ctx,
            type_parameters@,
            0,
        ),
        inserted.value == Some(Ok::<(), ErrorEmitted>(())),
        answered(inserted.world, seq![Answer::Done]),
    ensures
        trait_head_run(world, ctx, decl) == trait_body_run(
            inserted.world.hear(
                QueryView::InsertSupertraits {
                    ctx,
                    self_type: ctx.self_type,
                    supertraits: decl.supertraits@,
                },
            ),
            ctx,
            decl,
            type_parameters@,
        ),
{
}

/// A trait is checked in a namespace of its own, with a self type of its own. A name that is
/// not in UpperCamelCase gets one warning, before anything is asked.
pub proof fn law_trait_scope(
    world: World,
    ctx: ContextView,
    decl: TraitDeclaration,
    self_type: TypeId,
    namespace: u64,
)
    requires
        answered(world, seq![Answer::Type(self_type), Answer::Namespace(namespace)]),
    ensures
        upper_camel_case(decl.name.name@) ==> trait_run(world, ctx, decl) == trait_head_run(
            world.hear(
                QueryView::InsertType { info: TypeInfo::SelfType },
            ).hear(
                QueryView::CloneNamespace { namespace: ctx.namespace },
            ),
            ContextView { namespace, self_type, ..ctx },
            decl,
        ),
        !upper_camel_case(decl.name.name@) ==> trait_run(world, ctx, decl) == trait_head_run(
            world.warn(
                CompileWarning::NonClassCaseTraitName { name: decl.name, span: decl.name.span },
            ).hear(
                QueryView::InsertType { info: TypeInfo::SelfType },
            ).hear(
                QueryView::CloneNamespace { namespace: ctx.namespace },
            ),
            ContextView { namespace, self_type, ..ctx },
            decl,
        ),
{
}

/// Each item is finished once, in their order, and the outcome takes its place. One item more
/// changes nothing for those before it.
pub proof fn law_finalized_one_more(
    world: World,
    ctx: ContextView,
    items: Seq<TyTraitItem>,
    last: TyTraitItem,
    finished: Seq<TyTraitItem>,
)
    ensures
        finalize_run(world, ctx, Seq::empty(), finished, 0) == done(world, finished),
        finalize_run(world, ctx, items.push(last), finished, 0) == chain(
            finalize_run(world, ctx, items, finished, 0),
            |world: World, finished: Seq<TyTraitItem>|
                chain(
                    to_item(ask(world, QueryView::FinalizeItem { ctx, item: last })),
                    |world: World, item: TyTraitItem| done(world, finished.push(item)),
                ),
        ),
{
    lemma_finalized_one_more(world, ctx, items, last, finished, 0);
}

/// The same from the `i`-th on.
proof fn lemma_finalized_one_more(
    world: World,
    ctx: ContextView,
    items: Seq<TyTraitItem>,
    last: TyTraitItem,
    finished: Seq<TyTraitItem>,
    i: int,
)
    requires
        0 <= i <= items.len(),
    ensures
        finalize_run(world, ctx, items.push(last), finished, i) == chain(
            finalize_run(world, ctx, items, finished, i),
            |world: World, finished: Seq<TyTraitItem>|
                chain(
                    to_item(ask(world, QueryView::FinalizeItem { ctx, item: last })),
                    |world: World, item: TyTraitItem| done(world, finished.push(item)),
                ),
        ),
    decreases items.len() - i,
{
    if i < items.len() {
        assert(items.push(last)[i] == items[i]);
        let first = chain(
            to_item(ask(world, QueryView::FinalizeItem { ctx, item: items[i] })),
            |world: World, item: TyTraitItem| done(world, finished.push(item)),
        );
        if first.value is Some {
            lemma_finalized_one_more(first.world, ctx, items, last, first.value->0, i + 1);
        }
    } else {
        reveal_with_fuel(finalize_run, 2);
    }
}

/// All items are finished, from the first on. An error on the way makes it an error, and the
/// items are those that were finished either way.
pub proof fn law_finalized_outcome(
    world: World,
    ctx: ContextView,
    items: Seq<TyTraitItem>,
    finished: Run<Seq<TyTraitItem>>,
)
    requires
        finished == finalize_run(world, ctx, items, Seq::empty(), 0),
        finished.value is Some,
    ensures
        finalized(world, ctx, items) == done(
            finished.world,
            (
                finished.value->0,
                if finished.world.errors.len() > world.errors.len() {
                    Err::<(), _>(ErrorEmitted)
                } else {
                    Ok(())
                },
            ),
        ),
{
}

} // verus!
