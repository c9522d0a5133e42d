//! How an item of an impl block is held against what its interface asks for.
use crate::decl::{
    CallPath, ConstantDeclaration, Decl, DeclView, FunctionDeclaration, FunctionView, Purity,
    TraitFnView, TraitTypeDeclaration, TyConstantDecl, TyFunctionDecl, TyFunctionParameter,
    TyTraitFn, TyTraitItem, TyTraitType,
};
use crate::diagnostics::{CompileError, DeclType, ErrorEmitted, ErrorView, InterfaceName};
use crate::ident::Ident;
use crate::impl_items::{
    const_decl_run, hold_method_run, method_run, parameter_run, parameters_run, passing_errors,
    payability_errors, purity_errors, type_decl_run, with_inherited,
};
use crate::laws::dialogue::answered;
use crate::ordered::{lookup, Key};
use crate::session::{chain, done, Answer, ContextView, QueryView, Run, World};
use crate::types::{item_rank, ItemKey, TypeId, TypeInfo, TypeParameter};
use vstd::prelude::*;

verus! {

/// An associated type of an impl block is checked by the compiler first, with an unknown type
/// to expect. If what the compiler makes of it goes by a name that is implemented for the self
/// type already, that is the one error; if not, and the interface does not ask for that name,
/// that is the one error.
pub proof fn law_checked_type(
    world: World,
    ctx: ContextView,
    parsed: TraitTypeDeclaration,
    trait_name: CallPath,
    is_contract: bool,
    impld_items: Seq<(ItemKey, TyTraitItem)>,
    checklist: Seq<(Ident, TyTraitType)>,
    annotation: TypeId,
    decl: TyTraitType,
)
    requires
        answered(world, seq![Answer::Type(annotation), Answer::Decl(Decl::TraitType(decl))]),
    ensures
        lookup(
            impld_items,
            item_rank(decl.name.name@, ctx.self_type),
        ) is Some ==> type_decl_run(
            world,
            ctx,
            parsed,
            trait_name,
            is_contract,
            impld_items,
            checklist,
        ) == done(
            world.hear(
                QueryView::InsertType { info: TypeInfo::Unknown },
            ).hear(
                QueryView::TypeCheckTraitType { ctx: ctx.expecting(annotation), parsed },
            ).emit_plain(
                CompileError::MultipleDefinitionsOfType { name: decl.name, span: decl.name.span },
            ),
            Err::<TyTraitType, _>(ErrorEmitted),
        ),
        lookup(
            impld_items,
            item_rank(decl.name.name@, ctx.self_type),
        ) is None && lookup(
            checklist,
            decl.name.rank(),
        ) is None ==> type_decl_run(
            world,
            ctx,
            parsed,
            trait_name,
            is_contract,
            impld_items,
            checklist,
        ) == done(
            world.hear(
                QueryView::InsertType { info: TypeInfo::Unknown },
            ).hear(
                QueryView::TypeCheckTraitType { ctx: ctx.expecting(annotation), parsed },
            ).emit_plain(
                CompileError::TypeNotAPartOfInterfaceSurface {
                    name: decl.name,
                    interface_name: called(trait_name, is_contract),
                    span: decl.name.span,
                },
            ),
            Err::<TyTraitType, _>(ErrorEmitted),
        ),
{
}

/// An associated type that the compiler refuses is refused, and nothing more is asked or
/// emitted about it.
pub proof fn law_refused_type(
    world: World,
    ctx: ContextView,
    parsed: TraitTypeDeclaration,
    trait_name: CallPath,
    is_contract: bool,
    impld_items: Seq<(ItemKey, TyTraitItem)>,
    checklist: Seq<(Ident, TyTraitType)>,
    annotation: TypeId,
)
    requires
        answered(world, seq![Answer::Type(annotation), Answer::Failed]),
    ensures
        type_decl_run(world, ctx, parsed, trait_name, is_contract, impld_items, checklist) == done(
            world.hear(
                QueryView::InsertType { info: TypeInfo::Unknown },
            ).hear(
                QueryView::TypeCheckTraitType { ctx: ctx.expecting(annotation), parsed },
            ),
            Err::<TyTraitType, _>(ErrorEmitted),
        ),
{
}

/// An associated type that is not implemented yet and that the interface asks for is accepted
/// as the compiler checked it, once `Self` was replaced in what the interface asks for.
pub proof fn law_accepted_type(
    world: World,
    ctx: ContextView,
    parsed: TraitTypeDeclaration,
    trait_name: CallPath,
    is_contract: bool,
    impld_items: Seq<(ItemKey, TyTraitItem)>,
    checklist: Seq<(Ident, TyTraitType)>,
    annotation: TypeId,
    decl: TyTraitType,
    asked_for: TyTraitType,
    replaced: TyTraitType,
)
    requires
        answered(
            world,
            seq![
                Answer::Type(annotation),
                Answer::Decl(Decl::TraitType(decl)),
                Answer::Decl(Decl::TraitType(replaced)),
            ],
        ),
        lookup(impld_items, item_rank(decl.name.name@, ctx.self_type)) is None,
        lookup(checklist, decl.name.rank()) == Some(asked_for),
    ensures
        type_decl_run(world, ctx, parsed, trait_name, is_contract, impld_items, checklist) == done(
            world.hear(
                QueryView::InsertType { info: TypeInfo::Unknown },
            ).hear(
                QueryView::TypeCheckTraitType { ctx: ctx.expecting(annotation), parsed },
            ).hear(
                QueryView::ReplaceSelfType {
                    decl: DeclView::TraitType(asked_for),
                    type_id: ctx.self_type,
                },
            ),
            Ok::<TyTraitType, ErrorEmitted>(decl),
        ),
{
}

/// A constant of an impl block is checked by the compiler first, with an unknown type to
/// expect. If what the compiler makes of it goes by a name that is implemented for the self
/// type already, that is the one error; if not, and the interface does not ask for that name,
/// that is the one error.
pub proof fn law_checked_const(
    world: World,
    ctx: ContextView,
    parsed: ConstantDeclaration,
    trait_name: CallPath,
    is_contract: bool,
    impld_items: Seq<(ItemKey, TyTraitItem)>,
    checklist: Seq<(Ident, TyConstantDecl)>,
    annotation: TypeId,
    decl: TyConstantDecl,
)
    requires
        answered(world, seq![Answer::Type(annotation), Answer::Decl(Decl::Constant(decl))]),
    ensures
        lookup(
            impld_items,
            item_rank(decl.name.name@, ctx.self_type),
        ) is Some ==> const_decl_run(
            world,
            ctx,
            parsed,
            trait_name,
            is_contract,
            impld_items,
            checklist,
        ) == done(
            world.hear(
                QueryView::InsertType { info: TypeInfo::Unknown },
            ).hear(
                QueryView::TypeCheckConstant { ctx: ctx.expecting(annotation), parsed },
            ).emit_plain(
                CompileError::MultipleDefinitionsOfConstant {
                    name: decl.name,
                    span: decl.name.span,
                },
            ),
            Err::<TyConstantDecl, _>(ErrorEmitted),
        ),
        lookup(
            impld_items,
            item_rank(decl.name.name@, ctx.self_type),
        ) is None && lookup(
            checklist,
            decl.name.rank(),
        ) is None ==> const_decl_run(
            world,
            ctx,
            parsed,
            trait_name,
            is_contract,
            impld_items,
            checklist,
        ) == done(
            world.hear(
                QueryView::InsertType { info: TypeInfo::Unknown },
            ).hear(
                QueryView::TypeCheckConstant { ctx: ctx.expecting(annotation), parsed },
            ).emit_plain(
                CompileError::ConstantNotAPartOfInterfaceSurface {
                    name: decl.name,
                    interface_name: called(trait_name, is_contract),
                    span: decl.name.span,
                },
            ),
            Err::<TyConstantDecl, _>(ErrorEmitted),
        ),
{
}

/// A constant that the compiler refuses is refused, and nothing more is asked or emitted about
/// it.
pub proof fn law_refused_const(
    world: World,
    ctx: ContextView,
    parsed: ConstantDeclaration,
    trait_name: CallPath,
    is_contract: bool,
    impld_items: Seq<(ItemKey, TyTraitItem)>,
    checklist: Seq<(Ident, TyConstantDecl)>,
    annotation: TypeId,
)
    requires
        answered(world, seq![Answer::Type(annotation), Answer::Failed]),
    ensures
        const_decl_run(world, ctx, parsed, trait_name, is_contract, impld_items, checklist) == done(
            world.hear(
                QueryView::InsertType { info: TypeInfo::Unknown },
            ).hear(
                QueryView::TypeCheckConstant { ctx: ctx.expecting(annotation), parsed },
            ),
            Err::<TyConstantDecl, _>(ErrorEmitted),
        ),
{
}

/// A constant that is not implemented yet and that the interface asks for is accepted as the
/// compiler checked it if the compiler finds its type equal to the type asked for, both after
/// the substitution.
pub proof fn law_accepted_const(
    world: World,
    ctx: ContextView,
    parsed: ConstantDeclaration,
    trait_name: CallPath,
    is_contract: bool,
    impld_items: Seq<(ItemKey, TyTraitItem)>,
    checklist: Seq<(Ident, TyConstantDecl)>,
    annotation: TypeId,
    decl: TyConstantDecl,
    asked_for: TyConstantDecl,
    replaced: TyConstantDecl,
    given: TypeId,
    expected: TypeId,
)
    requires
        answered(
            world,
            seq![
                Answer::Type(annotation),
                Answer::Decl(Decl::Constant(decl)),
                Answer::Decl(Decl::Constant(replaced)),
                Answer::Type(given),
                Answer::Type(expected),
                Answer::Flag(true),
            ],
        ),
        lookup(impld_items, item_rank(decl.name.name@, ctx.self_type)) is None,
        lookup(checklist, decl.name.rank()) == Some(asked_for),
    ensures
        const_decl_run(world, ctx, parsed, trait_name, is_contract, impld_items, checklist) == done(
            world.hear(
                QueryView::InsertType { info: TypeInfo::Unknown },
            ).hear(
                QueryView::TypeCheckConstant { ctx: ctx.expecting(annotation), parsed },
            ).hear(
                QueryView::ReplaceSelfType {
                    decl: DeclView::Constant(asked_for),
                    type_id: ctx.self_type,
                },
            ).hear(
                QueryView::SubstType {
                    type_id: decl.type_ascription.type_id,
                    type_subst: ctx.type_subst,
                },
            ).hear(
                QueryView::SubstType {
                    type_id: replaced.type_ascription.type_id,
                    type_subst: ctx.type_subst,
                },
            ).hear(
                QueryView::TypesEqual { left: given, right: expected },
            ),
            Ok::<TyConstantDecl, ErrorEmitted>(decl),
        ),
{
}

/// A constant of another type than the interface asks for is refused with one error, in which
/// both types are written out.
pub proof fn law_mismatched_const(
    world: World,
    ctx: ContextView,
    parsed: ConstantDeclaration,
    trait_name: CallPath,
    is_contract: bool,
    impld_items: Seq<(ItemKey, TyTraitItem)>,
    checklist: Seq<(Ident, TyConstantDecl)>,
    annotation: TypeId,
    decl: TyConstantDecl,
    asked_for: TyConstantDecl,
    replaced: TyConstantDecl,
    given: TypeId,
    expected: TypeId,
    given_text: String,
    expected_text: String,
)
    requires
        answered(
            world,
            seq![
                Answer::Type(annotation),
                Answer::Decl(Decl::Constant(decl)),
                Answer::Decl(Decl::Constant(replaced)),
                Answer::Type(given),
                Answer::Type(expected),
                Answer::Flag(false),
                Answer::Text(given_text),
                Answer::Text(expected_text),
            ],
        ),
        lookup(impld_items, item_rank(decl.name.name@, ctx.self_type)) is None,
        lookup(checklist, decl.name.rank()) == Some(asked_for),
    ensures
        const_decl_run(world, ctx, parsed, trait_name, is_contract, impld_items, checklist) == done(
            world.hear(
                QueryView::InsertType { info: TypeInfo::Unknown },
            ).hear(
                QueryView::TypeCheckConstant { ctx: ctx.expecting(annotation), parsed },
            ).hear(
                QueryView::ReplaceSelfType {
                    decl: DeclView::Constant(asked_for),
                    type_id: ctx.self_type,
                },
            ).hear(
                QueryView::SubstType {
                    type_id: decl.type_ascription.type_id,
                    type_subst: ctx.type_subst,
                },
            ).hear(
                QueryView::SubstType {
                    type_id: replaced.type_ascription.type_id,
                    type_subst: ctx.type_subst,
                },
            ).hear(
                QueryView::TypesEqual { left: given, right: expected },
            ).hear(
                QueryView::DescribeType { type_id: given },
            ).hear(
                QueryView::DescribeType { type_id: expected },
            ).emit_plain(
                CompileError::MismatchedTypeInInterfaceSurface {
                    interface_name: called(trait_name, is_contract),
                    span: decl.span,
                    decl_type: DeclType::Constant,
                    given: given_text,
                    expected: expected_text,
                },
            ),
            Err::<TyConstantDecl, _>(ErrorEmitted),
        ),
{
}

/// A method of an impl block is checked by the compiler first, with an unknown type to expect.
/// If what the compiler makes of it goes by a name that is implemented for the self type
/// already, that is the one error; if not, and the interface does not ask for that name, that
/// is the one error.
pub proof fn law_checked_method(
    world: World,
    ctx: ContextView,
    impl_type_parameters: Seq<TypeParameter>,
    parsed: FunctionDeclaration,
    trait_name: CallPath,
    is_contract: bool,
    impld_items: Seq<(ItemKey, TyTraitItem)>,
    checklist: Seq<(Ident, TyTraitFn)>,
    annotation: TypeId,
    decl: TyFunctionDecl,
)
    requires
        answered(world, seq![Answer::Type(annotation), Answer::Decl(Decl::Function(decl))]),
    ensures
        lookup(
            impld_items,
            item_rank(decl.name.name@, ctx.self_type),
        ) is Some ==> method_run(
            world,
            ctx,
            impl_type_parameters,
            parsed,
            trait_name,
            is_contract,
            impld_items,
            checklist,
        ) == done(
            world.hear(
                QueryView::InsertType { info: TypeInfo::Unknown },
            ).hear(
                QueryView::TypeCheckFunction { ctx: ctx.expecting(annotation), parsed },
            ).emit_plain(
                CompileError::MultipleDefinitionsOfFunction {
                    name: decl.name,
                    span: decl.name.span,
                },
            ),
            Err::<FunctionView, _>(ErrorEmitted),
        ),
        lookup(
            impld_items,
            item_rank(decl.name.name@, ctx.self_type),
        ) is None && lookup(
            checklist,
            decl.name.rank(),
        ) is None ==> method_run(
            world,
            ctx,
            impl_type_parameters,
            parsed,
            trait_name,
            is_contract,
            impld_items,
            checklist,
        ) == done(
            world.hear(
                QueryView::InsertType { info: TypeInfo::Unknown },
            ).hear(
                QueryView::TypeCheckFunction { ctx: ctx.expecting(annotation), parsed },
            ).emit_plain(
                CompileError::FunctionNotAPartOfInterfaceSurface {
                    name: decl.name,
                    interface_name: called(trait_name, is_contract),
                    span: decl.name.span,
                },
            ),
            Err::<FunctionView, _>(ErrorEmitted),
        ),
{
}

/// A method that the compiler refuses is refused, and nothing more is asked or emitted about
/// it.
pub proof fn law_refused_method(
    world: World,
    ctx: ContextView,
    impl_type_parameters: Seq<TypeParameter>,
    parsed: FunctionDeclaration,
    trait_name: CallPath,
    is_contract: bool,
    impld_items: Seq<(ItemKey, TyTraitItem)>,
    checklist: Seq<(Ident, TyTraitFn)>,
    annotation: TypeId,
)
    requires
        answered(world, seq![Answer::Type(annotation), Answer::Failed]),
    ensures
        method_run(
            world,
            ctx,
            impl_type_parameters,
            parsed,
            trait_name,
            is_contract,
            impld_items,
            checklist,
        ) == done(
            world.hear(
                QueryView::InsertType { info: TypeInfo::Unknown },
            ).hear(
                QueryView::TypeCheckFunction { ctx: ctx.expecting(annotation), parsed },
            ),
            Err::<FunctionView, _>(ErrorEmitted),
        ),
{
}

/// A method that is not implemented yet and that the interface asks for is held against the
/// signature that the interface has under its name, once `Self` was replaced there. What comes
/// of that is what comes of the method.
pub proof fn law_method_is_held(
    world: World,
    ctx: ContextView,
    impl_type_parameters: Seq<TypeParameter>,
    parsed: FunctionDeclaration,
    trait_name: CallPath,
    is_contract: bool,
    impld_items: Seq<(ItemKey, TyTraitItem)>,
    checklist: Seq<(Ident, TyTraitFn)>,
    annotation: TypeId,
    decl: TyFunctionDecl,
    asked_for: TyTraitFn,
    replaced: TyTraitFn,
)
    requires
        answered(
            world,
            seq![
                Answer::Type(annotation),
                Answer::Decl(Decl::Function(decl)),
                Answer::Decl(Decl::TraitFn(replaced)),
            ],
        ),
        lookup(impld_items, item_rank(decl.name.name@, ctx.self_type)) is None,
        lookup(checklist, decl.name.rank()) == Some(asked_for),
    ensures
        method_run(
            world,
            ctx,
            impl_type_parameters,
            parsed,
            trait_name,
            is_contract,
            impld_items,
            checklist,
        ) == hold_method_run(
            world.hear(
                QueryView::InsertType { info: TypeInfo::Unknown },
            ).hear(
                QueryView::TypeCheckFunction { ctx: ctx.expecting(annotation), parsed },
            ).hear(
                QueryView::ReplaceSelfType {
                    decl: DeclView::TraitFn(asked_for@),
                    type_id: ctx.self_type,
                },
            ),
            ctx.expecting(annotation),
            impl_type_parameters,
            decl@,
            replaced@,
            called(trait_name, is_contract),
        ),
{
}

/// A method of another number of parameters than its signature is refused with one error, and
/// nothing is asked about it.
pub proof fn law_number_of_parameters(
    world: World,
    ctx: ContextView,
    impl_type_parameters: Seq<TypeParameter>,
    decl: FunctionView,
    signature: TraitFnView,
    interface_name: InterfaceName,
)
    requires
        decl.parameters.len() != signature.parameters.len(),
    ensures
        hold_method_run(world, ctx, impl_type_parameters, decl, signature, interface_name) == done(
            world.emit_plain(
                CompileError::IncorrectNumberOfInterfaceSurfaceFunctionParameters {
                    fn_name: decl.name,
                    interface_name,
                    num_parameters: signature.parameters.len() as usize,
                    provided_parameters: decl.parameters.len() as usize,
                    span: decl.parameters_span,
                },
            ),
            Err::<FunctionView, _>(ErrorEmitted),
        ),
{
}

/// How errors call an interface: an ABI if a contract implements it, a trait otherwise.
pub open spec fn called(trait_name: CallPath, is_contract: bool) -> InterfaceName {
    if is_contract {
        InterfaceName::Abi(trait_name.suffix)
    } else {
        InterfaceName::Trait(trait_name.suffix)
    }
}

/// What is wrong with the way a parameter is passed. The signature cannot have a parameter
/// that is mutable and no reference, and the method must pass it as the signature does.
pub open spec fn wrongly_passed(
    signature_name: Ident,
    expected: TyFunctionParameter,
    given: TyFunctionParameter,
) -> Seq<ErrorView> {
    let unsupported = ErrorView::Plain(
        CompileError::MutableParameterNotSupported {
            param_name: signature_name,
            span: signature_name.span,
        },
    );
    let differently = ErrorView::Plain(
        CompileError::ParameterRefMutabilityMismatch { span: given.mutability_span },
    );
    let alike = (given.is_mutable, given.is_reference) == (
        expected.is_mutable,
        expected.is_reference,
    );
    if expected.is_reference || !expected.is_mutable {
        if alike {
            Seq::empty()
        } else {
            seq![differently]
        }
    } else if alike {
        seq![unsupported]
    } else {
        seq![unsupported, differently]
    }
}

/// What is wrong with the attributes of a method: its purity, and whether it is payable.
pub open spec fn wrong_attributes(
    decl: FunctionView,
    signature: TraitFnView,
    interface_name: InterfaceName,
) -> Seq<ErrorView> {
    let impure = ErrorView::Plain(
        CompileError::TraitDeclPureImplImpure {
            fn_name: decl.name,
            interface_name,
            attrs: decl.purity,
            span: decl.span,
        },
    );
    let otherwise = ErrorView::Plain(
        CompileError::TraitImplPurityMismatch {
            fn_name: decl.name,
            interface_name,
            attrs: signature.purity,
            span: decl.span,
        },
    );
    let payability = ErrorView::Plain(
        CompileError::TraitImplPayabilityMismatch {
            fn_name: decl.name,
            interface_name,
            missing_impl_attribute: signature.payable,
            span: decl.span,
        },
    );
    let purity = if signature.purity == Purity::Pure {
        impure
    } else {
        otherwise
    };
    match (decl.purity == signature.purity, decl.payable == signature.payable) {
        (true, true) => Seq::empty(),
        (true, false) => seq![payability],
        (false, true) => seq![purity],
        (false, false) => seq![purity, payability],
    }
}

/// A parameter is held against the one in its place in the signature: first how it is passed,
/// then its type, for which the two types are compared after the substitution, the given one
/// first. Equal types add no error.
pub proof fn law_parameter(
    world: World,
    ctx: ContextView,
    signature_name: Ident,
    expected: TyFunctionParameter,
    given: TyFunctionParameter,
    interface_name: InterfaceName,
    given_type: TypeId,
    expected_type: TypeId,
)
    requires
        answered(
            world,
            seq![Answer::Type(given_type), Answer::Type(expected_type), Answer::Flag(true)],
        ),
    ensures
        parameter_run(world, ctx, signature_name, expected, given, interface_name) == done(
            world.emit_all(wrongly_passed(signature_name, expected, given)).hear(
                QueryView::SubstType {
                    type_id: given.type_argument.type_id,
                    type_subst: ctx.type_subst,
                },
            ).hear(
                QueryView::SubstType {
                    type_id: expected.type_argument.type_id,
                    type_subst: ctx.type_subst,
                },
            ).hear(
                QueryView::TypesEqual { left: given_type, right: expected_type },
            ),
            (),
        ),
{
    let errors = passing_errors(signature_name, expected, given);
    assert(errors =~= wrongly_passed(signature_name, expected, given));
}

/// If the types of a parameter differ, that is one error more, in which both are written out.
/// The other parameters are still gone through.
pub proof fn law_mismatched_parameter(
    world: World,
    ctx: ContextView,
    signature_name: Ident,
    expected: TyFunctionParameter,
    given: TyFunctionParameter,
    interface_name: InterfaceName,
    given_type: TypeId,
    expected_type: TypeId,
    given_text: String,
    expected_text: String,
)
    requires
        answered(
            world,
            seq![
                Answer::Type(given_type),
                Answer::Type(expected_type),
                Answer::Flag(false),
                Answer::Text(given_text),
                Answer::Text(expected_text),
            ],
        ),
    ensures
        parameter_run(world, ctx, signature_name, expected, given, interface_name) == done(
            world.emit_all(wrongly_passed(signature_name, expected, given)).hear(
                QueryView::SubstType {
                    type_id: given.type_argument.type_id,
                    type_subst: ctx.type_subst,
                },
            ).hear(
                QueryView::SubstType {
                    type_id: expected.type_argument.type_id,
                    type_subst: ctx.type_subst,
                },
            ).hear(
                QueryView::TypesEqual { left: given_type, right: expected_type },
            ).hear(
                QueryView::DescribeType { type_id: given_type },
            ).hear(
                QueryView::DescribeType { type_id: expected_type },
            ).emit_plain(
                CompileError::MismatchedTypeInInterfaceSurface {
                    interface_name,
                    span: given.type_argument.span,
                    decl_type: DeclType::Function,
                    given: given_text,
                    expected: expected_text,
                },
            ),
            (),
        ),
{
    let errors = passing_errors(signature_name, expected, given);
    assert(errors =~= wrongly_passed(signature_name, expected, given));
}

/// Each parameter of a method is held against the one in its place in the signature, in their
/// order. One parameter more changes nothing for those before it.
pub proof fn law_parameters_one_more(
    world: World,
    ctx: ContextView,
    decl: FunctionView,
    signature: TraitFnView,
    interface_name: InterfaceName,
    given: TyFunctionParameter,
    expected: TyFunctionParameter,
)
    requires
        decl.parameters.len() == signature.parameters.len(),
    ensures
        signature.parameters.len() == 0 ==> parameters_run(
            world,
            ctx,
            decl,
            signature,
            interface_name,
            0,
        ) == done(world, ()),
        parameters_run(
            world,
            ctx,
            FunctionView { parameters: decl.parameters.push(given), ..decl },
            TraitFnView { parameters: signature.parameters.push(expected), ..signature },
            interface_name,
            0,
        ) == chain(
            parameters_run(world, ctx, decl, signature, interface_name, 0),
            |world: World, _before: ()|
                parameter_run(world, ctx, signature.name, expected, given, interface_name),
        ),
{
    lemma_parameters_one_more(world, ctx, decl, signature, interface_name, given, expected, 0);
}

/// The same from the `i`-th on.
proof fn lemma_parameters_one_more(
    world: World,
    ctx: ContextView,
    decl: FunctionView,
    signature: TraitFnView,
    interface_name: InterfaceName,
    given: TyFunctionParameter,
    expected: TyFunctionParameter,
    i: int,
)
    requires
        decl.parameters.len() == signature.parameters.len(),
        0 <= i <= signature.parameters.len(),
    ensures
        parameters_run(
            world,
            ctx,
            FunctionView { parameters: decl.parameters.push(given), ..decl },
            TraitFnView { parameters: signature.parameters.push(expected), ..signature },
            interface_name,
            i,
        ) == chain(
            parameters_run(world, ctx, decl, signature, interface_name, i),
            |world: World, _before: ()|
                parameter_run(world, ctx, signature.name, expected, given, interface_name),
        ),
    decreases signature.parameters.len() - i,
{
    if i < signature.parameters.len() {
        assert(decl.parameters.push(given)[i] == decl.parameters[i]);
        assert(signature.parameters.push(expected)[i] == signature.parameters[i]);
        let first = parameter_run(
            world,
            ctx,
            signature.name,
            signature.parameters[i],
            decl.parameters[i],
            interface_name,
        );
        if first.value is Some {
            lemma_parameters_one_more(
                first.world,
                ctx,
                decl,
                signature,
                interface_name,
                given,
                expected,
                i + 1,
            );
        }
    } else {
        reveal_with_fuel(parameters_run, 2);
    }
}

/// After the parameters come purity and payability, and the return type last, which is
/// compared as the type of a parameter is. If it is the one asked for, and no error was
/// emitted on the way, the method is accepted; the type parameters of the impl block are put
/// behind its own, and it is otherwise as it was. An error on the way refuses it.
pub proof fn law_held_method(
    world: World,
    ctx: ContextView,
    impl_type_parameters: Seq<TypeParameter>,
    decl: FunctionView,
    signature: TraitFnView,
    interface_name: InterfaceName,
    parameters: Run<()>,
    given_type: TypeId,
    expected_type: TypeId,
)
    requires
        decl.parameters.len() == signature.parameters.len(),
        parameters == parameters_run(world, ctx, decl, signature, interface_name, 0),
        parameters.value is Some,
        answered(
            parameters.world,
            seq![Answer::Type(given_type), Answer::Type(expected_type), Answer::Flag(true)],
        ),
    ensures
        ({
            let after = hold_method_run(
                world,
                ctx,
                impl_type_parameters,
                decl,
                signature,
                interface_name,
            );
            let end = parameters.world.emit_all(
                wrong_attributes(decl, signature, interface_name),
            ).hear(
                QueryView::SubstType {
                    type_id: decl.return_type.type_id,
                    type_subst: ctx.type_subst,
                },
            ).hear(
                QueryView::SubstType {
                    type_id: signature.return_type.type_id,
                    type_subst: ctx.type_subst,
                },
            ).hear(
                QueryView::TypesEqual { left: given_type, right: expected_type },
            );
            &&& after.world == end
            &&& after.value == Some(
                if end.errors.len() > world.errors.len() {
                    Err(ErrorEmitted)
                } else {
                    Ok(
                        FunctionView {
                            type_parameters: decl.type_parameters + impl_type_parameters.map_values(
                                |parameter: TypeParameter|
                                    TypeParameter { is_from_parent: true, ..parameter },
                            ),
                            ..decl
                        },
                    )
                },
            )
        }),
{
    let errors = purity_errors(decl, signature, interface_name) + payability_errors(
        decl,
        signature,
        interface_name,
    );
    assert(errors =~= wrong_attributes(decl, signature, interface_name));
    assert(decl.type_parameters + impl_type_parameters.map_values(
        |parameter: TypeParameter| TypeParameter { is_from_parent: true, ..parameter },
    ) =~= with_inherited(decl, impl_type_parameters).type_parameters);
}

/// A method of another return type is refused, with one error more, in which both types are
/// written out.
pub proof fn law_mismatched_return(
    world: World,
    ctx: ContextView,
    impl_type_parameters: Seq<TypeParameter>,
    decl: FunctionView,
    signature: TraitFnView,
    interface_name: InterfaceName,
    parameters: Run<()>,
    given_type: TypeId,
    expected_type: TypeId,
    given_text: String,
    expected_text: String,
)
    requires
        decl.parameters.len() == signature.parameters.len(),
        parameters == parameters_run(world, ctx, decl, signature, interface_name, 0),
        parameters.value is Some,
        answered(
            parameters.world,
            seq![
                Answer::Type(given_type),
                Answer::Type(expected_type),
                Answer::Flag(false),
                Answer::Text(given_text),
                Answer::Text(expected_text),
            ],
        ),
    ensures
        hold_method_run(world, ctx, impl_type_parameters, decl, signature, interface_name) == done(
            parameters.world.emit_all(wrong_attributes(decl, signature, interface_name)).hear(
                QueryView::SubstType {
                    type_id: decl.return_type.type_id,
                    type_subst: ctx.type_subst,
                },
            ).hear(
                QueryView::SubstType {
                    type_id: signature.return_type.type_id,
                    type_subst: ctx.type_subst,
                },
            ).hear(
                QueryView::TypesEqual { left: given_type, right: expected_type },
            ).hear(
                QueryView::DescribeType { type_id: given_type },
            ).hear(
                QueryView::DescribeType { type_id: expected_type },
            ).emit_plain(
                CompileError::MismatchedTypeInInterfaceSurface {
                    interface_name,
                    span: decl.return_type.span,
                    decl_type: DeclType::Function,
                    given: given_text,
                    expected: expected_text,
                },
            ),
            Err::<FunctionView, _>(ErrorEmitted),
        ),
{
    let errors = purity_errors(decl, signature, interface_name) + payability_errors(
        decl,
        signature,
        interface_name,
    );
    assert(errors =~= wrong_attributes(decl, signature, interface_name));
}

} // verus!
