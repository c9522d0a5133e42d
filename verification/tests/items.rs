use std::collections::VecDeque;
use sway_traits::decl::{
    CallPath, ConstantDeclaration, Decl, DeclRef, FunctionDeclaration, ItemMap, Purity, TraitFn,
    TraitTypeDeclaration, TyConstantDecl, TyFunctionDecl, TyFunctionParameter, TyTraitFn,
    TyTraitItem, TyTraitType,
};
use sway_traits::diagnostics::{CompileError, CompileWarning, DeclType, ErrorEmitted, InterfaceName};
use sway_traits::ident::{Ident, Span};
use sway_traits::impl_items::{type_check_const_decl, type_check_impl_method, type_check_type_decl};
use sway_traits::ordered::SortedMap;
use sway_traits::session::{
    AbiMode, Answer, ConstShadowingMode, Context, Query, Reply, Session, Stop,
};
use sway_traits::types::{ItemKey, TypeArgument, TypeId, TypeInfo, TypeParameter};

fn span(start: u64) -> Span {
    Span { source: 1, start, end: start + 1 }
}

fn ident(name: &str) -> Ident {
    Ident { name: name.to_string(), span: span(0) }
}

fn ident_at(name: &str, start: u64) -> Ident {
    Ident { name: name.to_string(), span: span(start) }
}

fn ty(index: u64) -> TypeId {
    TypeId { index }
}

fn argument(index: u64) -> TypeArgument {
    TypeArgument { type_id: ty(index), span: span(index), key: index }
}

fn parameter(index: u64) -> TypeParameter {
    TypeParameter { type_id: ty(index), span: span(index), is_from_parent: false, key: index }
}

fn path(name: &str) -> CallPath {
    CallPath { prefixes: None, suffix: ident(name), is_absolute: false, span: span(40) }
}

fn decl_ref(name: &str, id: u64) -> DeclRef {
    DeclRef { name: ident(name), id, span: span(id) }
}

fn value_parameter(index: u64) -> TyFunctionParameter {
    TyFunctionParameter {
        is_reference: false,
        is_mutable: false,
        mutability_span: span(60),
        type_argument: argument(index),
        key: 0,
    }
}

fn function(name: &str) -> TyFunctionDecl {
    TyFunctionDecl {
        name: ident(name),
        parameters: vec![],
        parameters_span: span(50),
        return_type: argument(51),
        purity: Purity::Pure,
        payable: false,
        type_parameters: vec![],
        span: span(52),
        key: 0,
    }
}

fn signature(name: &str) -> TyTraitFn {
    TyTraitFn {
        name: ident(name),
        parameters: vec![],
        return_type: argument(71),
        purity: Purity::Pure,
        payable: false,
        key: 0,
    }
}

fn constant(name: &str, index: u64) -> TyConstantDecl {
    TyConstantDecl {
        name: ident(name),
        type_ascription: argument(index),
        span: span(53),
        key: 0,
    }
}

fn associated(name: &str, index: u64) -> TyTraitType {
    TyTraitType { name: ident(name), ty: Some(argument(index)), key: 0 }
}

fn context() -> Context {
    Context {
        namespace: 1,
        self_type: ty(10),
        type_annotation: ty(11),
        help_text: Some(5),
        type_subst: SortedMap::new(),
        abi_mode: AbiMode::NonAbi,
        const_shadowing_mode: ConstShadowingMode::Sequential,
        disallow_functions: true,
        defer_monomorphization: false,
        key: 99,
    }
}

fn reply(answer: Answer) -> Reply {
    Reply { errors: vec![], warnings: vec![], answer }
}

fn failed(error: u64) -> Reply {
    Reply { errors: vec![error], warnings: vec![], answer: Answer::Failed }
}

fn a_type(index: u64) -> Reply {
    reply(Answer::Type(ty(index)))
}

fn a_flag(flag: bool) -> Reply {
    reply(Answer::Flag(flag))
}

fn a_text(text: &str) -> Reply {
    reply(Answer::Text(text.to_string()))
}

fn a_function(decl: TyFunctionDecl) -> Reply {
    reply(Answer::Decl(Decl::Function(decl)))
}

fn a_constant(decl: TyConstantDecl) -> Reply {
    reply(Answer::Decl(Decl::Constant(decl)))
}

fn an_associated(decl: TyTraitType) -> Reply {
    reply(Answer::Decl(Decl::TraitType(decl)))
}

fn a_signature(decl: TyTraitFn) -> Reply {
    reply(Answer::Decl(Decl::TraitFn(decl)))
}

fn queue(replies: Vec<Reply>) -> VecDeque<Reply> {
    let mut queue: VecDeque<Reply> = VecDeque::new();
    for reply in replies {
        queue.push_back(reply);
    }
    queue
}

fn drive<T>(
    script: Vec<(Query, Reply)>,
    check: impl Fn(&mut Session) -> Option<T>,
) -> (T, Vec<CompileError>, Vec<CompileWarning>) {
    let mut given: Vec<Reply> = vec![];
    for (query, reply) in script {
        let mut cx = Session::new(queue(given.clone()));
        assert!(check(&mut cx).is_none(), "{:?} was not asked", query);
        assert_eq!(cx.stop(), &Stop::Asking(query));
        given.push(reply);
    }
    let mut cx = Session::new(queue(given));
    let value = check(&mut cx);
    assert_eq!(cx.stop(), &Stop::Running);
    assert_eq!(cx.unread(), 0);
    (value.unwrap(), cx.errors().clone(), cx.warnings().clone())
}

fn replay<T>(
    replies: Vec<Reply>,
    check: impl Fn(&mut Session) -> Option<T>,
) -> (T, Vec<CompileError>, Vec<CompileWarning>) {
    let mut cx = Session::new(queue(replies));
    let value = check(&mut cx);
    assert_eq!(cx.stop(), &Stop::Running);
    assert_eq!(cx.unread(), 0);
    (value.unwrap(), cx.errors().clone(), cx.warnings().clone())
}

fn no_items() -> ItemMap {
    SortedMap::new()
}

fn one_item(name: &str) -> ItemMap {
    let mut map: ItemMap = SortedMap::new();
    map.insert(
        ItemKey { name: ident(name), type_id: ty(10) },
        TyTraitItem::Fn(decl_ref(name, 1)),
    );
    map
}

fn a_trait(name: &str) -> InterfaceName {
    InterfaceName::Trait(ident(name))
}

fn types_asked_for() -> SortedMap<Ident, TyTraitType> {
    let mut map: SortedMap<Ident, TyTraitType> = SortedMap::new();
    map.insert(ident("Item"), TyTraitType { name: ident("Item"), ty: None, key: 3 });
    map
}

fn constants_asked_for() -> SortedMap<Ident, TyConstantDecl> {
    let mut map: SortedMap<Ident, TyConstantDecl> = SortedMap::new();
    map.insert(ident("ID"), constant("ID", 20));
    map
}

fn methods_asked_for(method: TyTraitFn) -> SortedMap<Ident, TyTraitFn> {
    let mut map: SortedMap<Ident, TyTraitFn> = SortedMap::new();
    map.insert(ident(&method.name.name), method);
    map
}

fn check_method(
    cx: &mut Session,
    impld_items: &ItemMap,
    asked_for: TyTraitFn,
) -> Option<Result<TyFunctionDecl, ErrorEmitted>> {
    type_check_impl_method(
        cx,
        &context(),
        &vec![],
        FunctionDeclaration { key: 8 },
        &path("Test"),
        false,
        impld_items,
        &methods_asked_for(asked_for),
    )
}

fn same_types() -> Vec<Reply> {
    vec![a_type(1), a_type(1), a_flag(true)]
}

fn method_errors(decl: TyFunctionDecl, asked_for: TyTraitFn) -> Vec<CompileError> {
    let mut replies = vec![a_type(12), a_function(decl), a_signature(asked_for.clone())];
    for _ in 0..asked_for.parameters.len() + 1 {
        replies.append(&mut same_types());
    }
    let (result, errors, _) =
        replay(replies, |cx| check_method(cx, &no_items(), asked_for.clone()));
    assert_eq!(result.is_err(), errors.len() > 0);
    errors
}

#[test]
fn an_associated_type_that_is_asked_for_passes() {
    let (result, errors, _) = drive(
        vec![
            (Query::InsertType { info: TypeInfo::Unknown }, a_type(12)),
            (
                Query::TypeCheckTraitType {
                    ctx: context().expecting(ty(12)),
                    parsed: TraitTypeDeclaration { key: 8 },
                },
                an_associated(associated("Item", 30)),
            ),
            (
                Query::ReplaceSelfType {
                    decl: Decl::TraitType(TyTraitType { name: ident("Item"), ty: None, key: 3 }),
                    type_id: ty(10),
                },
                an_associated(associated("Item", 31)),
            ),
        ],
        |cx| {
            type_check_type_decl(
                cx,
                &context(),
                TraitTypeDeclaration { key: 8 },
                &path("Test"),
                false,
                &no_items(),
                &types_asked_for(),
            )
        },
    );
    assert_eq!(result, Ok(associated("Item", 30)));
    assert_eq!(errors, vec![]);
}

#[test]
fn an_associated_type_is_not_defined_twice() {
    let mut decl = associated("Item", 30);
    decl.name = ident_at("Item", 77);
    let (result, errors, _) = replay(vec![a_type(12), an_associated(decl)], |cx| {
        type_check_type_decl(
            cx,
            &context(),
            TraitTypeDeclaration { key: 8 },
            &path("Test"),
            false,
            &one_item("Item"),
            &types_asked_for(),
        )
    });
    assert_eq!(result, Err(ErrorEmitted));
    assert_eq!(
        errors,
        vec![CompileError::MultipleDefinitionsOfType { name: ident("Item"), span: span(77) }]
    );
}

#[test]
fn an_associated_type_that_is_not_asked_for_is_refused() {
    let (result, errors, _) =
        replay(vec![a_type(12), an_associated(associated("Other", 30))], |cx| {
            type_check_type_decl(
                cx,
                &context(),
                TraitTypeDeclaration { key: 8 },
                &path("Test"),
                true,
                &no_items(),
                &types_asked_for(),
            )
        });
    assert_eq!(result, Err(ErrorEmitted));
    assert_eq!(
        errors,
        vec![CompileError::TypeNotAPartOfInterfaceSurface {
            name: ident("Other"),
            interface_name: InterfaceName::Abi(ident("Test")),
            span: span(0),
        }]
    );
}

#[test]
fn an_associated_type_with_errors_is_refused() {
    let (result, errors, _) = replay(vec![a_type(12), failed(6)], |cx| {
        type_check_type_decl(
            cx,
            &context(),
            TraitTypeDeclaration { key: 8 },
            &path("Test"),
            false,
            &no_items(),
            &types_asked_for(),
        )
    });
    assert_eq!(result, Err(ErrorEmitted));
    assert_eq!(errors, vec![CompileError::Reported(6)]);
}

#[test]
fn a_constant_of_the_right_type_passes() {
    let mut ctx = context();
    ctx.type_subst.insert(ty(1), ty(2));
    let ctx = ctx;
    let subst = || ctx.type_subst.duplicate();
    let (result, errors, _) = drive(
        vec![
            (Query::InsertType { info: TypeInfo::Unknown }, a_type(12)),
            (
                Query::TypeCheckConstant {
                    ctx: ctx.expecting(ty(12)),
                    parsed: ConstantDeclaration { key: 8 },
                },
                a_constant(constant("ID", 30)),
            ),
            (
                Query::ReplaceSelfType {
                    decl: Decl::Constant(constant("ID", 20)),
                    type_id: ty(10),
                },
                a_constant(constant("ID", 21)),
            ),
            (Query::SubstType { type_id: ty(30), type_subst: subst() }, a_type(300)),
            (Query::SubstType { type_id: ty(21), type_subst: subst() }, a_type(210)),
            (Query::TypesEqual { left: ty(300), right: ty(210) }, a_flag(true)),
        ],
        |cx| {
            type_check_const_decl(
                cx,
                &ctx,
                ConstantDeclaration { key: 8 },
                &path("Test"),
                false,
                &no_items(),
                &constants_asked_for(),
            )
        },
    );
    assert_eq!(result, Ok(constant("ID", 30)));
    assert_eq!(errors, vec![]);
}

#[test]
fn a_constant_of_another_type_is_refused() {
    let (result, errors, _) = drive(
        vec![
            (Query::InsertType { info: TypeInfo::Unknown }, a_type(12)),
            (
                Query::TypeCheckConstant {
                    ctx: context().expecting(ty(12)),
                    parsed: ConstantDeclaration { key: 8 },
                },
                a_constant(constant("ID", 30)),
            ),
            (
                Query::ReplaceSelfType {
                    decl: Decl::Constant(constant("ID", 20)),
                    type_id: ty(10),
                },
                a_constant(constant("ID", 21)),
            ),
            (Query::SubstType { type_id: ty(30), type_subst: SortedMap::new() }, a_type(300)),
            (Query::SubstType { type_id: ty(21), type_subst: SortedMap::new() }, a_type(210)),
            (Query::TypesEqual { left: ty(300), right: ty(210) }, a_flag(false)),
            (Query::DescribeType { type_id: ty(300) }, a_text("u8")),
            (Query::DescribeType { type_id: ty(210) }, a_text("u64")),
        ],
        |cx| {
            type_check_const_decl(
                cx,
                &context(),
                ConstantDeclaration { key: 8 },
                &path("Test"),
                false,
                &no_items(),
                &constants_asked_for(),
            )
        },
    );
    assert_eq!(result, Err(ErrorEmitted));
    assert_eq!(
        errors,
        vec![CompileError::MismatchedTypeInInterfaceSurface {
            interface_name: a_trait("Test"),
            span: span(53),
            decl_type: DeclType::Constant,
            given: "u8".to_string(),
            expected: "u64".to_string(),
        }]
    );
}

#[test]
fn a_constant_is_not_defined_twice() {
    let (result, errors, _) = replay(vec![a_type(12), a_constant(constant("ID", 30))], |cx| {
        type_check_const_decl(
            cx,
            &context(),
            ConstantDeclaration { key: 8 },
            &path("Test"),
            false,
            &one_item("ID"),
            &constants_asked_for(),
        )
    });
    assert_eq!(result, Err(ErrorEmitted));
    assert_eq!(
        errors,
        vec![CompileError::MultipleDefinitionsOfConstant { name: ident("ID"), span: span(0) }]
    );
}

#[test]
fn a_constant_that_is_not_asked_for_is_refused() {
    let (result, errors, _) = replay(vec![a_type(12), a_constant(constant("NO", 30))], |cx| {
        type_check_const_decl(
            cx,
            &context(),
            ConstantDeclaration { key: 8 },
            &path("Test"),
            false,
            &no_items(),
            &constants_asked_for(),
        )
    });
    assert_eq!(result, Err(ErrorEmitted));
    assert_eq!(
        errors,
        vec![CompileError::ConstantNotAPartOfInterfaceSurface {
            name: ident("NO"),
            interface_name: a_trait("Test"),
            span: span(0),
        }]
    );
}

#[test]
fn a_method_that_agrees_passes_and_inherits_type_parameters() {
    let mut decl = function("run");
    decl.parameters = vec![value_parameter(31)];
    decl.type_parameters = vec![parameter(90)];
    let mut asked_for = signature("run");
    asked_for.parameters = vec![value_parameter(32)];
    let mut replaced = asked_for.clone();
    replaced.parameters = vec![value_parameter(33)];
    let mut expected = decl.clone();
    expected.type_parameters = vec![
        parameter(90),
        TypeParameter { is_from_parent: true, ..parameter(91) },
        TypeParameter { is_from_parent: true, ..parameter(92) },
    ];
    let (result, errors, _) = drive(
        vec![
            (Query::InsertType { info: TypeInfo::Unknown }, a_type(12)),
            (
                Query::TypeCheckFunction {
                    ctx: context().expecting(ty(12)),
                    parsed: FunctionDeclaration { key: 8 },
                },
                a_function(decl.clone()),
            ),
            (
                Query::ReplaceSelfType {
                    decl: Decl::TraitFn(asked_for.clone()),
                    type_id: ty(10),
                },
                a_signature(replaced),
            ),
            (Query::SubstType { type_id: ty(31), type_subst: SortedMap::new() }, a_type(310)),
            (Query::SubstType { type_id: ty(33), type_subst: SortedMap::new() }, a_type(330)),
            (Query::TypesEqual { left: ty(310), right: ty(330) }, a_flag(true)),
            (Query::SubstType { type_id: ty(51), type_subst: SortedMap::new() }, a_type(510)),
            (Query::SubstType { type_id: ty(71), type_subst: SortedMap::new() }, a_type(710)),
            (Query::TypesEqual { left: ty(510), right: ty(710) }, a_flag(true)),
        ],
        |cx| {
            type_check_impl_method(
                cx,
                &context(),
                &vec![parameter(91), parameter(92)],
                FunctionDeclaration { key: 8 },
                &path("Test"),
                false,
                &no_items(),
                &methods_asked_for(asked_for.clone()),
            )
        },
    );
    assert_eq!(result, Ok(expected));
    assert_eq!(errors, vec![]);
}

#[test]
fn a_method_is_not_defined_twice() {
    let (result, errors, _) = replay(vec![a_type(12), a_function(function("run"))], |cx| {
        check_method(cx, &one_item("run"), signature("run"))
    });
    assert_eq!(result, Err(ErrorEmitted));
    assert_eq!(
        errors,
        vec![CompileError::MultipleDefinitionsOfFunction { name: ident("run"), span: span(0) }]
    );
}

#[test]
fn a_method_that_is_not_asked_for_is_refused() {
    let (result, errors, _) = replay(vec![a_type(12), a_function(function("walk"))], |cx| {
        check_method(cx, &no_items(), signature("run"))
    });
    assert_eq!(result, Err(ErrorEmitted));
    assert_eq!(
        errors,
        vec![CompileError::FunctionNotAPartOfInterfaceSurface {
            name: ident("walk"),
            interface_name: a_trait("Test"),
            span: span(0),
        }]
    );
}

#[test]
fn a_method_has_as_many_parameters_as_its_signature() {
    let mut decl = function("run");
    decl.parameters = vec![value_parameter(31), value_parameter(32)];
    let (result, errors, _) =
        replay(vec![a_type(12), a_function(decl), a_signature(signature("run"))], |cx| {
            check_method(cx, &no_items(), signature("run"))
        });
    assert_eq!(result, Err(ErrorEmitted));
    assert_eq!(
        errors,
        vec![CompileError::IncorrectNumberOfInterfaceSurfaceFunctionParameters {
            fn_name: ident("run"),
            interface_name: a_trait("Test"),
            num_parameters: 0,
            provided_parameters: 2,
            span: span(50),
        }]
    );
}

#[test]
fn a_method_passes_its_parameters_as_its_signature_does() {
    let mut decl = function("run");
    decl.parameters = vec![value_parameter(31)];
    let mut asked_for = signature("run");
    asked_for.parameters = vec![value_parameter(31)];
    assert_eq!(method_errors(decl.clone(), asked_for.clone()), vec![]);
    decl.parameters[0].is_reference = true;
    decl.parameters[0].is_mutable = true;
    assert_eq!(
        method_errors(decl.clone(), asked_for.clone()),
        vec![CompileError::ParameterRefMutabilityMismatch { span: span(60) }]
    );
    asked_for.parameters[0].is_mutable = true;
    assert_eq!(
        method_errors(decl.clone(), asked_for.clone()),
        vec![
            CompileError::MutableParameterNotSupported { param_name: ident("run"), span: span(0) },
            CompileError::ParameterRefMutabilityMismatch { span: span(60) },
        ]
    );
    asked_for.parameters[0].is_reference = true;
    assert_eq!(method_errors(decl, asked_for), vec![]);
}

#[test]
fn a_method_has_the_purity_of_its_signature() {
    let mut decl = function("run");
    let mut asked_for = signature("run");
    decl.purity = Purity::Writes;
    assert_eq!(
        method_errors(decl.clone(), asked_for.clone()),
        vec![CompileError::TraitDeclPureImplImpure {
            fn_name: ident("run"),
            interface_name: a_trait("Test"),
            attrs: Purity::Writes,
            span: span(52),
        }]
    );
    asked_for.purity = Purity::ReadsWrites;
    assert_eq!(
        method_errors(decl.clone(), asked_for.clone()),
        vec![CompileError::TraitImplPurityMismatch {
            fn_name: ident("run"),
            interface_name: a_trait("Test"),
            attrs: Purity::ReadsWrites,
            span: span(52),
        }]
    );
    decl.purity = Purity::ReadsWrites;
    assert_eq!(method_errors(decl, asked_for), vec![]);
}

#[test]
fn a_method_is_payable_as_its_signature_is() {
    let mut decl = function("run");
    let mut asked_for = signature("run");
    asked_for.payable = true;
    assert_eq!(
        method_errors(decl.clone(), asked_for.clone()),
        vec![CompileError::TraitImplPayabilityMismatch {
            fn_name: ident("run"),
            interface_name: a_trait("Test"),
            missing_impl_attribute: true,
            span: span(52),
        }]
    );
    decl.payable = true;
    assert_eq!(method_errors(decl.clone(), asked_for.clone()), vec![]);
    asked_for.payable = false;
    assert_eq!(
        method_errors(decl, asked_for),
        vec![CompileError::TraitImplPayabilityMismatch {
            fn_name: ident("run"),
            interface_name: a_trait("Test"),
            missing_impl_attribute: false,
            span: span(52),
        }]
    );
}

#[test]
fn each_type_of_a_method_that_differs_is_an_error() {
    let mut decl = function("run");
    decl.parameters = vec![value_parameter(31), value_parameter(32)];
    let mut asked_for = signature("run");
    asked_for.parameters = vec![value_parameter(33), value_parameter(34)];
    let mismatch = |start: u64, given: &str, expected: &str| {
        CompileError::MismatchedTypeInInterfaceSurface {
            interface_name: a_trait("Test"),
            span: span(start),
            decl_type: DeclType::Function,
            given: given.to_string(),
            expected: expected.to_string(),
        }
    };
    let (result, errors, _) = drive(
        vec![
            (Query::InsertType { info: TypeInfo::Unknown }, a_type(12)),
            (
                Query::TypeCheckFunction {
                    ctx: context().expecting(ty(12)),
                    parsed: FunctionDeclaration { key: 8 },
                },
                a_function(decl.clone()),
            ),
            (
                Query::ReplaceSelfType {
                    decl: Decl::TraitFn(asked_for.clone()),
                    type_id: ty(10),
                },
                a_signature(asked_for.clone()),
            ),
            (Query::SubstType { type_id: ty(31), type_subst: SortedMap::new() }, a_type(1)),
            (Query::SubstType { type_id: ty(33), type_subst: SortedMap::new() }, a_type(2)),
            (Query::TypesEqual { left: ty(1), right: ty(2) }, a_flag(false)),
            (Query::DescribeType { type_id: ty(1) }, a_text("u8")),
            (Query::DescribeType { type_id: ty(2) }, a_text("u16")),
            (Query::SubstType { type_id: ty(32), type_subst: SortedMap::new() }, a_type(3)),
            (Query::SubstType { type_id: ty(34), type_subst: SortedMap::new() }, a_type(3)),
            (Query::TypesEqual { left: ty(3), right: ty(3) }, a_flag(true)),
            (Query::SubstType { type_id: ty(51), type_subst: SortedMap::new() }, a_type(4)),
            (Query::SubstType { type_id: ty(71), type_subst: SortedMap::new() }, a_type(5)),
            (Query::TypesEqual { left: ty(4), right: ty(5) }, a_flag(false)),
            (Query::DescribeType { type_id: ty(4) }, a_text("bool")),
            (Query::DescribeType { type_id: ty(5) }, a_text("()")),
        ],
        |cx| check_method(cx, &no_items(), asked_for.clone()),
    );
    assert_eq!(result, Err(ErrorEmitted));
    assert_eq!(errors, vec![mismatch(31, "u8", "u16"), mismatch(51, "bool", "()")]);
}

#[test]
fn a_method_with_errors_is_refused() {
    let (result, errors, _) = replay(vec![a_type(12), failed(6)], |cx| {
        check_method(cx, &no_items(), signature("run"))
    });
    assert_eq!(result, Err(ErrorEmitted));
    assert_eq!(errors, vec![CompileError::Reported(6)]);
}
