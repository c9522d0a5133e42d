//! The items of an impl block, each held against the interface it implements.
use crate::decl::{
    CallPath, ConstantDeclaration, Decl, DeclView, FunctionDeclaration, FunctionView, ItemMap,
    Purity, TraitFnView, TraitTypeDeclaration, TyConstantDecl, TyFunctionDecl,
    TyFunctionParameter, TyTraitFn, TyTraitItem, TyTraitType,
};
use crate::diagnostics::{CompileError, DeclType, ErrorEmitted, ErrorView, InterfaceName};
use crate::duplicate::Duplicate;
use crate::ident::{Ident, Span};
use crate::ordered::{lookup, Key, SortedMap};
use crate::session::{
    ask, chain, done, run, scoped, to_checked_constant, to_checked_function,
    to_checked_trait_type, to_constant, to_flag, to_text, to_trait_fn, to_trait_type, to_type,
    Context, ContextView, Query, QueryView, Run, Session, World,
};
use crate::types::{item_rank, ItemKey, TypeId, TypeInfo, TypeParameter};
use vstd::prelude::*;

verus! {

/// What errors call the interface that an impl block implements.
pub open spec fn interface_name_of(trait_name: CallPath, is_contract: bool) -> InterfaceName {
    if is_contract {
        InterfaceName::Abi(trait_name.suffix)
    } else {
        InterfaceName::Trait(trait_name.suffix)
    }
}

fn interface_name(trait_name: &CallPath, is_contract: bool) -> (name: InterfaceName)
    ensures
        name == interface_name_of(*trait_name, is_contract),
{
    if is_contract {
        InterfaceName::Abi(trait_name.suffix.duplicate())
    } else {
        InterfaceName::Trait(trait_name.suffix.duplicate())
    }
}

/// The two texts of an error about types that differ.
pub struct TypeMismatch {
    pub given: String,
    pub expected: String,
}

/// Compares two types after the context's substitution was applied to both. Types that
/// differ are written out.
pub open spec fn compare_run(
    world: World,
    ctx: ContextView,
    given: TypeId,
    expected: TypeId,
) -> Run<Option<TypeMismatch>> {
    chain(
        to_type(ask(world, QueryView::SubstType { type_id: given, type_subst: ctx.type_subst })),
        |world: World, given: TypeId|
            chain(
                to_type(
                    ask(
                        world,
                        QueryView::SubstType { type_id: expected, type_subst: ctx.type_subst },
                    ),
                ),
                |world: World, expected: TypeId|
                    chain(
                        to_flag(
                            ask(world, QueryView::TypesEqual { left: given, right: expected }),
                        ),
                        |world: World, equal: bool|
                            if equal {
                                done(world, None)
                            } else {
                                describe_run(world, given, expected)
                            },
                    ),
            ),
    )
}

/// Writes out two types that differ.
pub open spec fn describe_run(world: World, given: TypeId, expected: TypeId) -> Run<
    Option<TypeMismatch>,
> {
    chain(
        to_text(ask(world, QueryView::DescribeType { type_id: given })),
        |world: World, given: String|
            chain(
                to_text(ask(world, QueryView::DescribeType { type_id: expected })),
                |world: World, expected: String|
                    done(world, Some(TypeMismatch { given, expected })),
            ),
    )
}

/// Compares the type that an impl block gives with the one its interface expects.
fn compare_types(cx: &mut Session, ctx: &Context, given: TypeId, expected: TypeId) -> (mismatch:
    Option<Option<TypeMismatch>>)
    ensures
        run(final(cx)@, mismatch) == compare_run(old(cx)@, ctx@, given, expected),
{
    let given = cx.ask_type(
        Query::SubstType { type_id: given, type_subst: ctx.type_subst.duplicate() },
    )?;
    let expected = cx.ask_type(
        Query::SubstType { type_id: expected, type_subst: ctx.type_subst.duplicate() },
    )?;
    if cx.ask_flag(Query::TypesEqual { left: given, right: expected })? {
        return Some(None);
    }
    let given = cx.ask_text(Query::DescribeType { type_id: given })?;
    let expected = cx.ask_text(Query::DescribeType { type_id: expected })?;
    Some(Some(TypeMismatch { given, expected }))
}

/// What checking an associated type of an impl block comes to.
pub open spec fn type_decl_run(
    world: World,
    ctx: ContextView,
    type_decl: TraitTypeDeclaration,
    trait_name: CallPath,
    is_contract: bool,
    impld_items: Seq<(ItemKey, TyTraitItem)>,
    type_checklist: Seq<(Ident, TyTraitType)>,
) -> Run<Result<TyTraitType, ErrorEmitted>> {
    chain(
        to_type(ask(world, QueryView::InsertType { info: TypeInfo::Unknown })),
        |world: World, annotation: TypeId|
            chain(
                to_checked_trait_type(
                    ask(
                        world,
                        QueryView::TypeCheckTraitType {
                            ctx: ctx.expecting(annotation),
                            parsed: type_decl,
                        },
                    ),
                ),
                |world: World, checked: Result<TyTraitType, ErrorEmitted>|
                    match checked {
                        Err(error) => done(world, Err(error)),
                        Ok(decl) => admit_type_run(
                            world,
                            ctx,
                            decl,
                            trait_name,
                            is_contract,
                            impld_items,
                            type_checklist,
                        ),
                    },
            ),
    )
}

/// An associated type is let in if it is not defined yet and its interface asks for it.
pub open spec fn admit_type_run(
    world: World,
    ctx: ContextView,
    decl: TyTraitType,
    trait_name: CallPath,
    is_contract: bool,
    impld_items: Seq<(ItemKey, TyTraitItem)>,
    type_checklist: Seq<(Ident, TyTraitType)>,
) -> Run<Result<TyTraitType, ErrorEmitted>> {
    if lookup(impld_items, item_rank(decl.name.name@, ctx.self_type)) is Some {
        done(
            world.emit_plain(
                CompileError::MultipleDefinitionsOfType { name: decl.name, span: decl.name.span },
            ),
            Err(ErrorEmitted),
        )
    } else {
        match lookup(type_checklist, decl.name.rank()) {
            None => done(
                world.emit_plain(
                    CompileError::TypeNotAPartOfInterfaceSurface {
                        name: decl.name,
                        interface_name: interface_name_of(trait_name, is_contract),
                        span: decl.name.span,
                    },
                ),
                Err(ErrorEmitted),
            ),
            Some(signature) => chain(
                to_trait_type(
                    ask(
                        world,
                        QueryView::ReplaceSelfType {
                            decl: DeclView::TraitType(signature),
                            type_id: ctx.self_type,
                        },
                    ),
                ),
                |world: World, _signature: TyTraitType| done(world, Ok(decl)),
            ),
        }
    }
}

/// Checks an associated type of an impl block. It must not be defined there yet, and the
/// interface must ask for it.
pub fn type_check_type_decl(
    cx: &mut Session,
    ctx: &Context,
    type_decl: TraitTypeDeclaration,
    trait_name: &CallPath,
    is_contract: bool,
    impld_type_ids: &ItemMap,
    type_checklist: &SortedMap<Ident, TyTraitType>,
) -> (result: Option<Result<TyTraitType, ErrorEmitted>>)
    ensures
        run(final(cx)@, result) == type_decl_run(
            old(cx)@,
            ctx@,
            type_decl,
            *trait_name,
            is_contract,
            impld_type_ids@,
            type_checklist@,
        ),
{
    let annotation = cx.ask_type(Query::InsertType { info: TypeInfo::Unknown })?;
    let checked = cx.ask_checked_trait_type(
        Query::TypeCheckTraitType { ctx: ctx.expecting(annotation), parsed: type_decl },
    )?;
    let type_decl = match checked {
        Ok(decl) => decl,
        Err(error) => return Some(Err(error)),
    };
    let name = type_decl.name.duplicate();
    let span = name.span;

    // There must not be another definition of this type.
    if impld_type_ids.contains_key(
        &ItemKey { name: name.duplicate(), type_id: ctx.self_type },
    ) {
        return Some(Err(cx.emit_err(CompileError::MultipleDefinitionsOfType { name, span })));
    }

    // The checklist must hold this type.
    match type_checklist.get(&name) {
        Some(signature) => {
            cx.ask_trait_type(
                Query::ReplaceSelfType {
                    decl: Decl::TraitType(signature.duplicate()),
                    type_id: ctx.self_type,
                },
            )?;
            Some(Ok(type_decl))
        },
        None => {
            let interface_name = interface_name(trait_name, is_contract);
            Some(
                Err(
                    cx.emit_err(
                        CompileError::TypeNotAPartOfInterfaceSurface {
                            name,
                            interface_name,
                            span,
                        },
                    ),
                ),
            )
        },
    }
}

/// What checking a constant of an impl block comes to.
pub open spec fn const_decl_run(
    world: World,
    ctx: ContextView,
    const_decl: ConstantDeclaration,
    trait_name: CallPath,
    is_contract: bool,
    impld_items: Seq<(ItemKey, TyTraitItem)>,
    constant_checklist: Seq<(Ident, TyConstantDecl)>,
) -> Run<Result<TyConstantDecl, ErrorEmitted>> {
    chain(
        to_type(ask(world, QueryView::InsertType { info: TypeInfo::Unknown })),
        |world: World, annotation: TypeId|
            chain(
                to_checked_constant(
                    ask(
                        world,
                        QueryView::TypeCheckConstant {
                            ctx: ctx.expecting(annotation),
                            parsed: const_decl,
                        },
                    ),
                ),
                |world: World, checked: Result<TyConstantDecl, ErrorEmitted>|
                    match checked {
                        Err(error) => done(world, Err(error)),
                        Ok(decl) => admit_const_run(
                            world,
                            ctx.expecting(annotation),
                            decl,
                            trait_name,
                            is_contract,
                            impld_items,
                            constant_checklist,
                        ),
                    },
            ),
    )
}

/// Holds the type of a constant against the one asked for.
pub open spec fn constant_type_run(
    world: World,
    ctx: ContextView,
    decl: TyConstantDecl,
    signature: TyConstantDecl,
    interface_name: InterfaceName,
) -> Run<Result<TyConstantDecl, ErrorEmitted>> {
    chain(
        compare_run(
            world,
            ctx,
            decl.type_ascription.type_id,
            signature.type_ascription.type_id,
        ),
        |world: World, mismatch: Option<TypeMismatch>|
            match mismatch {
                None => done(world, Ok(decl)),
                Some(texts) => done(
                    world.emit_plain(
                        CompileError::MismatchedTypeInInterfaceSurface {
                            interface_name,
                            span: decl.span,
                            decl_type: DeclType::Constant,
                            given: texts.given,
                            expected: texts.expected,
                        },
                    ),
                    Err(ErrorEmitted),
                ),
            },
    )
}

/// A constant is let in if it is not defined yet, its interface asks for it, and its type
/// is the one asked for.
pub open spec fn admit_const_run(
    world: World,
    ctx: ContextView,
    decl: TyConstantDecl,
    trait_name: CallPath,
    is_contract: bool,
    impld_items: Seq<(ItemKey, TyTraitItem)>,
    constant_checklist: Seq<(Ident, TyConstantDecl)>,
) -> Run<Result<TyConstantDecl, ErrorEmitted>> {
    let name = decl.name;
    if lookup(impld_items, item_rank(name.name@, ctx.self_type)) is Some {
        done(
            world.emit_plain(
                CompileError::MultipleDefinitionsOfConstant { name, span: name.span },
            ),
            Err(ErrorEmitted),
        )
    } else {
        match lookup(constant_checklist, name.rank()) {
            None => done(
                world.emit_plain(
                    CompileError::ConstantNotAPartOfInterfaceSurface {
                        name,
                        interface_name: interface_name_of(trait_name, is_contract),
                        span: name.span,
                    },
                ),
                Err(ErrorEmitted),
            ),
            Some(signature) => chain(
                to_constant(
                    ask(
                        world,
                        QueryView::ReplaceSelfType {
                            decl: DeclView::Constant(signature),
                            type_id: ctx.self_type,
                        },
                    ),
                ),
                |world: World, signature: TyConstantDecl|
                    constant_type_run(
                        world,
                        ctx,
                        decl,
                        signature,
                        interface_name_of(trait_name, is_contract),
                    ),
            ),
        }
    }
}

/// Checks a constant of an impl block. It must not be defined there yet, the interface must
/// ask for it, and its type must be the one that the interface gives.
pub fn type_check_const_decl(
    cx: &mut Session,
    ctx: &Context,
    const_decl: ConstantDeclaration,
    trait_name: &CallPath,
    is_contract: bool,
    impld_constant_ids: &ItemMap,
    constant_checklist: &SortedMap<Ident, TyConstantDecl>,
) -> (result: Option<Result<TyConstantDecl, ErrorEmitted>>)
    ensures
        run(final(cx)@, result) == const_decl_run(
            old(cx)@,
            ctx@,
            const_decl,
            *trait_name,
            is_contract,
            impld_constant_ids@,
            constant_checklist@,
        ),
{
    let annotation = cx.ask_type(Query::InsertType { info: TypeInfo::Unknown })?;
    let ctx = ctx.expecting(annotation);
    let checked = cx.ask_checked_constant(
        Query::TypeCheckConstant { ctx: ctx.duplicate(), parsed: const_decl },
    )?;
    let const_decl = match checked {
        Ok(decl) => decl,
        Err(error) => return Some(Err(error)),
    };
    let name = const_decl.name.duplicate();
    let span = name.span;

    // There must not be another definition of this constant.
    if impld_constant_ids.contains_key(
        &ItemKey { name: name.duplicate(), type_id: ctx.self_type },
    ) {
        return Some(Err(cx.emit_err(CompileError::MultipleDefinitionsOfConstant { name, span })));
    }

    // The checklist must hold this constant.
    let signature = match constant_checklist.get(&name) {
        Some(signature) => signature.duplicate(),
        None => {
            let interface_name = interface_name(trait_name, is_contract);
            return Some(
                Err(
                    cx.emit_err(
                        CompileError::ConstantNotAPartOfInterfaceSurface {
                            name,
                            interface_name,
                            span,
                        },
                    ),
                ),
            );
        },
    };
    let signature = cx.ask_constant(
        Query::ReplaceSelfType { decl: Decl::Constant(signature), type_id: ctx.self_type },
    )?;

    // The two types must be equal.
    match compare_types(
        cx,
        &ctx,
        const_decl.type_ascription.type_id,
        signature.type_ascription.type_id,
    )? {
        None => Some(Ok(const_decl)),
        Some(texts) => Some(
            Err(
                cx.emit_err(
                    CompileError::MismatchedTypeInInterfaceSurface {
                        interface_name: interface_name(trait_name, is_contract),
                        span: const_decl.span,
                        decl_type: DeclType::Constant,
                        given: texts.given,
                        expected: texts.expected,
                    },
                ),
            ),
        ),
    }
}

/// What checking a method of an impl block comes to.
pub open spec fn method_run(
    world: World,
    ctx: ContextView,
    impl_type_parameters: Seq<TypeParameter>,
    impl_method: FunctionDeclaration,
    trait_name: CallPath,
    is_contract: bool,
    impld_items: Seq<(ItemKey, TyTraitItem)>,
    method_checklist: Seq<(Ident, TyTraitFn)>,
) -> Run<Result<FunctionView, ErrorEmitted>> {
    chain(
        to_type(ask(world, QueryView::InsertType { info: TypeInfo::Unknown })),
        |world: World, annotation: TypeId|
            chain(
                to_checked_function(
                    ask(
                        world,
                        QueryView::TypeCheckFunction {
                            ctx: ctx.expecting(annotation),
                            parsed: impl_method,
                        },
                    ),
                ),
                |world: World, checked: Result<TyFunctionDecl, ErrorEmitted>|
                    match checked {
                        Err(error) => done(world, Err(error)),
                        Ok(decl) => admit_method_run(
                            world,
                            ctx.expecting(annotation),
                            impl_type_parameters,
                            decl@,
                            trait_name,
                            is_contract,
                            impld_items,
                            method_checklist,
                        ),
                    },
            ),
    )
}

/// A method is let in if it is not defined yet, its interface asks for it, it has as many
/// parameters as the signature there, and it agrees with that signature.
pub open spec fn admit_method_run(
    world: World,
    ctx: ContextView,
    impl_type_parameters: Seq<TypeParameter>,
    decl: FunctionView,
    trait_name: CallPath,
    is_contract: bool,
    impld_items: Seq<(ItemKey, TyTraitItem)>,
    method_checklist: Seq<(Ident, TyTraitFn)>,
) -> Run<Result<FunctionView, ErrorEmitted>> {
    let name = decl.name;
    let interface_name = interface_name_of(trait_name, is_contract);
    if lookup(impld_items, item_rank(name.name@, ctx.self_type)) is Some {
        done(
            world.emit_plain(
                CompileError::MultipleDefinitionsOfFunction { name, span: name.span },
            ),
            Err(ErrorEmitted),
        )
    } else {
        match lookup(method_checklist, name.rank()) {
            None => done(
                world.emit_plain(
                    CompileError::FunctionNotAPartOfInterfaceSurface {
                        name,
                        interface_name,
                        span: name.span,
                    },
                ),
                Err(ErrorEmitted),
            ),
            Some(signature) => chain(
                to_trait_fn(
                    ask(
                        world,
                        QueryView::ReplaceSelfType {
                            decl: DeclView::TraitFn(signature@),
                            type_id: ctx.self_type,
                        },
                    ),
                ),
                |world: World, signature: TyTraitFn|
                    hold_method_run(
                        world,
                        ctx,
                        impl_type_parameters,
                        decl,
                        signature@,
                        interface_name,
                    ),
            ),
        }
    }
}

/// Holds a method against its signature. Another number of parameters ends it with an error.
pub open spec fn hold_method_run(
    world: World,
    ctx: ContextView,
    impl_type_parameters: Seq<TypeParameter>,
    decl: FunctionView,
    signature: TraitFnView,
    interface_name: InterfaceName,
) -> Run<Result<FunctionView, ErrorEmitted>> {
    if decl.parameters.len() != signature.parameters.len() {
        done(
            world.emit_plain(
                CompileError::IncorrectNumberOfInterfaceSurfaceFunctionParameters {
                    fn_name: decl.name,
                    interface_name,
                    num_parameters: signature.parameters.len() as usize,
                    provided_parameters: decl.parameters.len() as usize,
                    span: decl.parameters_span,
                },
            ),
            Err(ErrorEmitted),
        )
    } else {
        scoped(
            world,
            agree_run(world, ctx, impl_type_parameters, decl, signature, interface_name),
        )
    }
}

/// The errors about how one parameter is passed: a parameter of the signature that is
/// mutable must be a reference, and the method must pass it the same way.
pub open spec fn passing_errors(
    signature_name: Ident,
    expected: TyFunctionParameter,
    given: TyFunctionParameter,
) -> Seq<ErrorView> {
    (if expected.is_mutable && !expected.is_reference {
        seq![
            ErrorView::Plain(
                CompileError::MutableParameterNotSupported {
                    param_name: signature_name,
                    span: signature_name.span,
                },
            ),
        ]
    } else {
        Seq::empty()
    }) + (if given.is_mutable != expected.is_mutable || given.is_reference
        != expected.is_reference {
        seq![
            ErrorView::Plain(
                CompileError::ParameterRefMutabilityMismatch { span: given.mutability_span },
            ),
        ]
    } else {
        Seq::empty()
    })
}

/// The error about a type of a method that differs from the signature's.
pub open spec fn method_mismatch(
    interface_name: InterfaceName,
    span: Span,
    texts: TypeMismatch,
) -> CompileError {
    CompileError::MismatchedTypeInInterfaceSurface {
        interface_name,
        span,
        decl_type: DeclType::Function,
        given: texts.given,
        expected: texts.expected,
    }
}

/// Emits what is wrong with one parameter: how it is passed, and its type.
pub open spec fn parameter_run(
    world: World,
    ctx: ContextView,
    signature_name: Ident,
    expected: TyFunctionParameter,
    given: TyFunctionParameter,
    interface_name: InterfaceName,
) -> Run<()> {
    chain(
        compare_run(
            world.emit_all(passing_errors(signature_name, expected, given)),
            ctx,
            given.type_argument.type_id,
            expected.type_argument.type_id,
        ),
        |world: World, mismatch: Option<TypeMismatch>|
            done(
                match mismatch {
                    None => world,
                    Some(texts) => world.emit_plain(
                        method_mismatch(interface_name, given.type_argument.span, texts),
                    ),
                },
                (),
            ),
    )
}

/// Goes through the parameters from the `i`-th on.
pub open spec fn parameters_run(
    world: World,
    ctx: ContextView,
    decl: FunctionView,
    signature: TraitFnView,
    interface_name: InterfaceName,
    i: int,
) -> Run<()>
    decreases signature.parameters.len() - i,
{
    if i >= signature.parameters.len() {
        done(world, ())
    } else {
        chain(
            parameter_run(
                world,
                ctx,
                signature.name,
                signature.parameters[i],
                decl.parameters[i],
                interface_name,
            ),
            |world: World, _checked: ()|
                parameters_run(world, ctx, decl, signature, interface_name, i + 1),
        )
    }
}

/// The error about a method whose purity differs from the signature's.
pub open spec fn purity_errors(
    decl: FunctionView,
    signature: TraitFnView,
    interface_name: InterfaceName,
) -> Seq<ErrorView> {
    if decl.purity == signature.purity {
        Seq::empty()
    } else if signature.purity == Purity::Pure {
        seq![
            ErrorView::Plain(
                CompileError::TraitDeclPureImplImpure {
                    fn_name: decl.name,
                    interface_name,
                    attrs: decl.purity,
                    span: decl.span,
                },
            ),
        ]
    } else {
        seq![
            ErrorView::Plain(
                CompileError::TraitImplPurityMismatch {
                    fn_name: decl.name,
                    interface_name,
                    attrs: signature.purity,
                    span: decl.span,
                },
            ),
        ]
    }
}

/// The error about a method that is payable while its signature is not, or the other way
/// round.
pub open spec fn payability_errors(
    decl: FunctionView,
    signature: TraitFnView,
    interface_name: InterfaceName,
) -> Seq<ErrorView> {
    if decl.payable == signature.payable {
        Seq::empty()
    } else {
        seq![
            ErrorView::Plain(
                CompileError::TraitImplPayabilityMismatch {
                    fn_name: decl.name,
                    interface_name,
                    missing_impl_attribute: signature.payable,
                    span: decl.span,
                },
            ),
        ]
    }
}

/// Type parameters as those of a method have them from its impl block.
pub open spec fn inherited(type_parameters: Seq<TypeParameter>) -> Seq<TypeParameter> {
    Seq::new(
        type_parameters.len(),
        |i: int| TypeParameter { is_from_parent: true, ..type_parameters[i] },
    )
}

/// A method with the type parameters of its impl block added to its own.
pub open spec fn with_inherited(
    decl: FunctionView,
    impl_type_parameters: Seq<TypeParameter>,
) -> FunctionView {
    FunctionView {
        type_parameters: decl.type_parameters + inherited(impl_type_parameters),
        ..decl
    }
}

/// Holds the return type of a method against its signature's. A wrong one ends the check of
/// the method with an error.
pub open spec fn returns_run(
    world: World,
    ctx: ContextView,
    impl_type_parameters: Seq<TypeParameter>,
    decl: FunctionView,
    signature: TraitFnView,
    interface_name: InterfaceName,
) -> Run<Result<FunctionView, ErrorEmitted>> {
    chain(
        compare_run(world, ctx, decl.return_type.type_id, signature.return_type.type_id),
        |world: World, mismatch: Option<TypeMismatch>|
            match mismatch {
                None => done(world, Ok(with_inherited(decl, impl_type_parameters))),
                Some(texts) => done(
                    world.emit_plain(
                        method_mismatch(interface_name, decl.return_type.span, texts),
                    ),
                    Err(ErrorEmitted),
                ),
            },
    )
}

/// Holds a method against the signature of as many parameters: the parameters, purity and
/// payability, and the return type.
pub open spec fn agree_run(
    world: World,
    ctx: ContextView,
    impl_type_parameters: Seq<TypeParameter>,
    decl: FunctionView,
    signature: TraitFnView,
    interface_name: InterfaceName,
) -> Run<Result<FunctionView, ErrorEmitted>> {
    chain(
        parameters_run(world, ctx, decl, signature, interface_name, 0),
        |world: World, _checked: ()|
            returns_run(
                world.emit_all(
                    purity_errors(decl, signature, interface_name) + payability_errors(
                        decl,
                        signature,
                        interface_name,
                    ),
                ),
                ctx,
                impl_type_parameters,
                decl,
                signature,
                interface_name,
            ),
    )
}

/// A function that may be missing, as a mathematical value.
pub open spec fn function_result(value: Option<Result<TyFunctionDecl, ErrorEmitted>>) -> Option<
    Result<FunctionView, ErrorEmitted>,
> {
    match value {
        Some(Ok(decl)) => Some(Ok(decl@)),
        Some(Err(error)) => Some(Err(error)),
        None => None,
    }
}

/// Emits what is wrong with how a parameter is passed.
fn check_passing(
    cx: &mut Session,
    signature_name: &Ident,
    expected: TyFunctionParameter,
    given: TyFunctionParameter,
)
    ensures
        final(cx)@ == old(cx)@.emit_all(passing_errors(*signature_name, expected, given)),
{
    // A mutable argument that is no reference is not allowed.
    if expected.is_mutable && !expected.is_reference {
        cx.emit_err(
            CompileError::MutableParameterNotSupported {
                param_name: signature_name.duplicate(),
                span: signature_name.span,
            },
        );
    }

    // Both must pass the parameter alike.
    if given.is_mutable != expected.is_mutable || given.is_reference != expected.is_reference {
        cx.emit_err(
            CompileError::ParameterRefMutabilityMismatch { span: given.mutability_span },
        );
    }
    assert(cx@.errors =~= old(cx)@.errors + passing_errors(*signature_name, expected, given));
}

/// Emits what is wrong with one parameter of a method.
fn check_parameter(
    cx: &mut Session,
    ctx: &Context,
    signature_name: &Ident,
    expected: TyFunctionParameter,
    given: TyFunctionParameter,
    trait_name: &CallPath,
    is_contract: bool,
) -> (result: Option<()>)
    ensures
        run(final(cx)@, result) == parameter_run(
            old(cx)@,
            ctx@,
            *signature_name,
            expected,
            given,
            interface_name_of(*trait_name, is_contract),
        ),
{
    check_passing(cx, signature_name, expected, given);
    if let Some(texts) = compare_types(
        cx,
        ctx,
        given.type_argument.type_id,
        expected.type_argument.type_id,
    )? {
        cx.emit_err(
            CompileError::MismatchedTypeInInterfaceSurface {
                interface_name: interface_name(trait_name, is_contract),
                span: given.type_argument.span,
                decl_type: DeclType::Function,
                given: texts.given,
                expected: texts.expected,
            },
        );
    }
    Some(())
}

/// Emits what is wrong with the parameters of a method.
fn check_parameters(
    cx: &mut Session,
    ctx: &Context,
    decl: &TyFunctionDecl,
    signature: &TyTraitFn,
    trait_name: &CallPath,
    is_contract: bool,
) -> (result: Option<()>)
    requires
        decl.parameters@.len() == signature.parameters@.len(),
    ensures
        run(final(cx)@, result) == parameters_run(
            old(cx)@,
            ctx@,
            decl@,
            signature@,
            interface_name_of(*trait_name, is_contract),
            0,
        ),
{
    let ghost interface = interface_name_of(*trait_name, is_contract);
    let mut i: usize = 0;
    while i < signature.parameters.len()
        invariant
            i <= signature.parameters@.len(),
            decl.parameters@.len() == signature.parameters@.len(),
            interface == interface_name_of(*trait_name, is_contract),
            parameters_run(old(cx)@, ctx@, decl@, signature@, interface, 0) == parameters_run(
                cx@,
                ctx@,
                decl@,
                signature@,
                interface,
                i as int,
            ),
        decreases signature.parameters@.len() - i,
    {
        check_parameter(
            cx,
            ctx,
            &signature.name,
            signature.parameters[i],
            decl.parameters[i],
            trait_name,
            is_contract,
        )?;
        i = i + 1;
    }
    Some(())
}

/// Emits an error if a method has another purity than its signature.
fn check_purity(
    cx: &mut Session,
    decl: &TyFunctionDecl,
    signature: &TyTraitFn,
    trait_name: &CallPath,
    is_contract: bool,
)
    ensures
        final(cx)@ == old(cx)@.emit_all(
            purity_errors(decl@, signature@, interface_name_of(*trait_name, is_contract)),
        ),
{
    if decl.purity != signature.purity {
        let fn_name = decl.name.duplicate();
        let interface_name = interface_name(trait_name, is_contract);
        let span = decl.span;
        if signature.purity == Purity::Pure {
            cx.emit_err(
                CompileError::TraitDeclPureImplImpure {
                    fn_name,
                    interface_name,
                    attrs: decl.purity,
                    span,
                },
            );
        } else {
            cx.emit_err(
                CompileError::TraitImplPurityMismatch {
                    fn_name,
                    interface_name,
                    attrs: signature.purity,
                    span,
                },
            );
        }
    }
    assert(cx@.errors =~= old(cx)@.errors + purity_errors(
        decl@,
        signature@,
        interface_name_of(*trait_name, is_contract),
    ));
}

/// Emits an error if one of a method and its signature is payable and the other is not.
fn check_payability(
    cx: &mut Session,
    decl: &TyFunctionDecl,
    signature: &TyTraitFn,
    trait_name: &CallPath,
    is_contract: bool,
)
    ensures
        final(cx)@ == old(cx)@.emit_all(
            payability_errors(decl@, signature@, interface_name_of(*trait_name, is_contract)),
        ),
{
    if decl.payable != signature.payable {
        cx.emit_err(
            CompileError::TraitImplPayabilityMismatch {
                fn_name: decl.name.duplicate(),
                interface_name: interface_name(trait_name, is_contract),
                missing_impl_attribute: signature.payable,
                span: decl.span,
            },
        );
    }
    assert(cx@.errors =~= old(cx)@.errors + payability_errors(
        decl@,
        signature@,
        interface_name_of(*trait_name, is_contract),
    ));
}

/// Adds the type parameters of an impl block to those of a method.
///
/// A generic type of the impl block can only be replaced where the method is applied if the
/// method has it among its own type parameters.
fn inherit_type_parameters(decl: TyFunctionDecl, impl_type_parameters: &Vec<TypeParameter>) -> (new:
    TyFunctionDecl)
    ensures
        new@ == with_inherited(decl@, impl_type_parameters@),
{
    let mut decl = decl;
    let ghost before = decl@;
    let mut i: usize = 0;
    assert(decl.type_parameters@ =~= before.type_parameters + inherited(
        impl_type_parameters@,
    ).take(0));
    while i < impl_type_parameters.len()
        invariant
            i <= impl_type_parameters@.len(),
            decl@ == (FunctionView {
                type_parameters: before.type_parameters + inherited(impl_type_parameters@).take(
                    i as int,
                ),
                ..before
            }),
        decreases impl_type_parameters@.len() - i,
    {
        let mut parameter = impl_type_parameters[i];
        parameter.is_from_parent = true;
        decl.type_parameters.push(parameter);
        i = i + 1;
        assert(decl.type_parameters@ =~= before.type_parameters + inherited(
            impl_type_parameters@,
        ).take(i as int));
    }
    assert(decl.type_parameters@ =~= before.type_parameters + inherited(impl_type_parameters@));
    decl
}

/// Holds a method against its signature.
fn check_agreement(
    cx: &mut Session,
    ctx: &Context,
    impl_type_parameters: &Vec<TypeParameter>,
    decl: TyFunctionDecl,
    signature: &TyTraitFn,
    trait_name: &CallPath,
    is_contract: bool,
) -> (result: Option<Result<TyFunctionDecl, ErrorEmitted>>)
    requires
        decl.parameters@.len() == signature.parameters@.len(),
    ensures
        run(final(cx)@, function_result(result)) == scoped(
            old(cx)@,
            agree_run(
                old(cx)@,
                ctx@,
                impl_type_parameters@,
                decl@,
                signature@,
                interface_name_of(*trait_name, is_contract),
            ),
        ),
{
    let before: usize = cx.error_count();
    check_parameters(cx, ctx, &decl, signature, trait_name, is_contract)?;
    let ghost checked = cx@;
    check_purity(cx, &decl, signature, trait_name, is_contract);
    check_payability(cx, &decl, signature, trait_name, is_contract);
    proof {
        let interface_name = interface_name_of(*trait_name, is_contract);
        assert(cx@ =~= checked.emit_all(
            purity_errors(decl@, signature@, interface_name) + payability_errors(
                decl@,
                signature@,
                interface_name,
            ),
        ));
    }
    let result = match compare_types(
        cx,
        ctx,
        decl.return_type.type_id,
        signature.return_type.type_id,
    )? {
        None => Ok(inherit_type_parameters(decl, impl_type_parameters)),
        Some(texts) => Err(
            cx.emit_err(
                CompileError::MismatchedTypeInInterfaceSurface {
                    interface_name: interface_name(trait_name, is_contract),
                    span: decl.return_type.span,
                    decl_type: DeclType::Function,
                    given: texts.given,
                    expected: texts.expected,
                },
            ),
        ),
    };
    Some(cx.close_scope(before, result))
}

/// Checks a method of an impl block. It must not be defined there yet, the interface must
/// ask for it, and it must agree with the signature there: in the number of parameters, in
/// how each is passed and its type, in purity, in payability and in the return type.
pub fn type_check_impl_method(
    cx: &mut Session,
    ctx: &Context,
    impl_type_parameters: &Vec<TypeParameter>,
    impl_method: FunctionDeclaration,
    trait_name: &CallPath,
    is_contract: bool,
    impld_item_refs: &ItemMap,
    method_checklist: &SortedMap<Ident, TyTraitFn>,
) -> (result: Option<Result<TyFunctionDecl, ErrorEmitted>>)
    ensures
        run(final(cx)@, function_result(result)) == method_run(
            old(cx)@,
            ctx@,
            impl_type_parameters@,
            impl_method,
            *trait_name,
            is_contract,
            impld_item_refs@,
            method_checklist@,
        ),
{
    let annotation = cx.ask_type(Query::InsertType { info: TypeInfo::Unknown })?;
    let ctx = ctx.expecting(annotation);
    let checked = cx.ask_checked_function(
        Query::TypeCheckFunction { ctx: ctx.duplicate(), parsed: impl_method },
    )?;
    let decl = match checked {
        Ok(decl) => decl,
        Err(error) => return Some(Err(error)),
    };
    let name = decl.name.duplicate();
    let span = name.span;

    // There must not be another definition of this method.
    if impld_item_refs.contains_key(
        &ItemKey { name: name.duplicate(), type_id: ctx.self_type },
    ) {
        return Some(Err(cx.emit_err(CompileError::MultipleDefinitionsOfFunction { name, span })));
    }

    // The checklist must hold this method.
    let signature = match method_checklist.get(&name) {
        Some(signature) => signature.duplicate(),
        None => {
            let interface_name = interface_name(trait_name, is_contract);
            return Some(
                Err(
                    cx.emit_err(
                        CompileError::FunctionNotAPartOfInterfaceSurface {
                            name,
                            interface_name,
                            span,
                        },
                    ),
                ),
            );
        },
    };
    let signature = cx.ask_trait_fn(
        Query::ReplaceSelfType { decl: Decl::TraitFn(signature), type_id: ctx.self_type },
    )?;
    if decl.parameters.len() != signature.parameters.len() {
        return Some(
            Err(
                cx.emit_err(
                    CompileError::IncorrectNumberOfInterfaceSurfaceFunctionParameters {
                        fn_name: name,
                        interface_name: interface_name(trait_name, is_contract),
                        num_parameters: signature.parameters.len(),
                        provided_parameters: decl.parameters.len(),
                        span: decl.parameters_span,
                    },
                ),
            ),
        );
    }
    check_agreement(cx, &ctx, impl_type_parameters, decl, &signature, trait_name, is_contract)
}

} // verus!
