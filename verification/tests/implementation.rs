use std::collections::VecDeque;
use sway_traits::decl::{
    CallPath, ConstantDeclaration, Decl, DeclKind, DeclRef, FunctionDeclaration, ImplItem,
    InterfaceItemMap, ItemMap, ParentId, Purity, Supertrait, TraitFn, TraitTypeDeclaration,
    TyConstantDecl, TyDecl, TyFunctionDecl, TyTraitDecl, TyTraitFn, TyTraitInterfaceItem,
    TyTraitItem, TyTraitType,
};
use sway_traits::diagnostics::{CompileError, CompileWarning, ErrorEmitted};
use sway_traits::ident::{Ident, Span};
use sway_traits::implementation::type_check_trait_implementation;
use sway_traits::ordered::SortedMap;
use sway_traits::session::{
    AbiMode, Answer, ConstShadowingMode, Context, DeclMapping, Query, Reply, Session, Stop,
};
use sway_traits::types::{ItemKey, TypeArgument, TypeId, TypeInfo, TypeParameter, TypeSubstMap};

fn span(start: u64) -> Span {
    Span { source: 1, start, end: start + 1 }
}

fn ident(name: &str) -> Ident {
    Ident { name: name.to_string(), span: span(0) }
}

fn ty(index: u64) -> TypeId {
    TypeId { index }
}

fn argument(index: u64) -> TypeArgument {
    TypeArgument { type_id: ty(index), span: span(index), key: index }
}

fn parameter(index: u64) -> TypeParameter {
    TypeParameter { type_id: ty(index), span: span(index), is_from_parent: false, key: index }
}

fn path(name: &str) -> CallPath {
    CallPath { prefixes: None, suffix: ident(name), is_absolute: false, span: span(40) }
}

fn supertrait(name: &str) -> Supertrait {
    Supertrait { name: path(name), span: span(41), key: 0 }
}

fn decl_ref(name: &str, id: u64) -> DeclRef {
    DeclRef { name: ident(name), id, span: span(id) }
}

fn function(name: &str) -> TyFunctionDecl {
    TyFunctionDecl {
        name: ident(name),
        parameters: vec![],
        parameters_span: span(50),
        return_type: argument(51),
        purity: Purity::Pure,
        payable: false,
        type_parameters: vec![],
        span: span(52),
        key: 0,
    }
}

fn signature(name: &str) -> TyTraitFn {
    TyTraitFn {
        name: ident(name),
        parameters: vec![],
        return_type: argument(71),
        purity: Purity::Pure,
        payable: false,
        key: 0,
    }
}

fn constant(name: &str, index: u64) -> TyConstantDecl {
    TyConstantDecl {
        name: ident(name),
        type_ascription: argument(index),
        span: span(53),
        key: 0,
    }
}

fn associated(name: &str, index: u64) -> TyTraitType {
    TyTraitType { name: ident(name), ty: Some(argument(index)), key: 0 }
}

fn context() -> Context {
    Context {
        namespace: 1,
        self_type: ty(10),
        type_annotation: ty(11),
        help_text: Some(5),
        type_subst: SortedMap::new(),
        abi_mode: AbiMode::NonAbi,
        const_shadowing_mode: ConstShadowingMode::Sequential,
        disallow_functions: true,
        defer_monomorphization: false,
        key: 99,
    }
}

fn reply(answer: Answer) -> Reply {
    Reply { errors: vec![], warnings: vec![], answer }
}

fn failed(error: u64) -> Reply {
    Reply { errors: vec![error], warnings: vec![], answer: Answer::Failed }
}

fn done() -> Reply {
    reply(Answer::Done)
}

fn a_type(index: u64) -> Reply {
    reply(Answer::Type(ty(index)))
}

fn a_flag(flag: bool) -> Reply {
    reply(Answer::Flag(flag))
}

fn a_function(decl: TyFunctionDecl) -> Reply {
    reply(Answer::Decl(Decl::Function(decl)))
}

fn a_constant(decl: TyConstantDecl) -> Reply {
    reply(Answer::Decl(Decl::Constant(decl)))
}

fn an_associated(decl: TyTraitType) -> Reply {
    reply(Answer::Decl(Decl::TraitType(decl)))
}

fn a_signature(decl: TyTraitFn) -> Reply {
    reply(Answer::Decl(Decl::TraitFn(decl)))
}

fn a_decl_ref(name: &str, id: u64) -> Reply {
    reply(Answer::DeclRef(decl_ref(name, id)))
}

fn queue(replies: Vec<Reply>) -> VecDeque<Reply> {
    let mut queue: VecDeque<Reply> = VecDeque::new();
    for reply in replies {
        queue.push_back(reply);
    }
    queue
}

fn drive<T>(
    script: Vec<(Query, Reply)>,
    check: impl Fn(&mut Session) -> Option<T>,
) -> (T, Vec<CompileError>, Vec<CompileWarning>) {
    let mut given: Vec<Reply> = vec![];
    for (query, reply) in script {
        let mut cx = Session::new(queue(given.clone()));
        assert!(check(&mut cx).is_none(), "{:?} was not asked", query);
        assert_eq!(cx.stop(), &Stop::Asking(query));
        given.push(reply);
    }
    let mut cx = Session::new(queue(given));
    let value = check(&mut cx);
    assert_eq!(cx.stop(), &Stop::Running);
    assert_eq!(cx.unread(), 0);
    (value.unwrap(), cx.errors().clone(), cx.warnings().clone())
}

fn replay<T>(
    replies: Vec<Reply>,
    check: impl Fn(&mut Session) -> Option<T>,
) -> (T, Vec<CompileError>, Vec<CompileWarning>) {
    let mut cx = Session::new(queue(replies));
    let value = check(&mut cx);
    assert_eq!(cx.stop(), &Stop::Running);
    assert_eq!(cx.unread(), 0);
    (value.unwrap(), cx.errors().clone(), cx.warnings().clone())
}

fn check(
    cx: &mut Session,
    supertraits: &Vec<Supertrait>,
    surface: &Vec<TyTraitInterfaceItem>,
    provided: &Vec<TyTraitItem>,
    impl_items: &Vec<ImplItem>,
) -> Option<Result<Vec<TyTraitItem>, ErrorEmitted>> {
    type_check_trait_implementation(
        cx,
        &context(),
        &vec![],
        &vec![parameter(5)],
        &vec![argument(6)],
        supertraits,
        surface,
        provided,
        impl_items,
        &path("Test"),
        span(80),
        span(81),
        false,
    )
}

fn substitution() -> TypeSubstMap {
    let mut map: TypeSubstMap = SortedMap::new();
    map.insert(ty(900), ty(30));
    map
}

fn key(name: &str) -> ItemKey {
    ItemKey { name: ident(name), type_id: ty(10) }
}

fn same_types() -> Vec<Reply> {
    vec![a_type(1), a_type(1), a_flag(true)]
}

fn method_replies(name: &str, id: u64) -> Vec<Reply> {
    let mut replies = vec![a_type(12), a_function(function(name)), a_signature(signature(name))];
    replies.append(&mut same_types());
    replies.push(a_function(function(name)));
    replies.push(a_decl_ref(name, id));
    replies
}

#[test]
fn an_implementation_has_its_own_items_in_order_and_the_provided_ones() {
    let surface = vec![
        TyTraitInterfaceItem::TraitFn(decl_ref("run", 100)),
        TyTraitInterfaceItem::Constant(decl_ref("ID", 101)),
        TyTraitInterfaceItem::Type(decl_ref("Item", 102)),
    ];
    let provided = vec![TyTraitItem::Fn(decl_ref("walk", 103))];
    let impl_items = vec![
        ImplItem::Fn(FunctionDeclaration { key: 1 }),
        ImplItem::Type(TraitTypeDeclaration { key: 2 }),
        ImplItem::Constant(ConstantDeclaration { key: 3 }),
    ];
    let with_subst = || context().with_type_subst(&substitution());
    let mut all_types: TypeSubstMap = SortedMap::new();
    all_types.insert(ty(5), ty(6));
    all_types.insert(ty(900), ty(30));
    let mut interface_items: InterfaceItemMap = SortedMap::new();
    interface_items.insert(key("run"), surface[0].clone());
    interface_items.insert(key("ID"), surface[1].clone());
    interface_items.insert(key("Item"), surface[2].clone());
    let mut impld_items: ItemMap = SortedMap::new();
    impld_items.insert(key("run"), TyTraitItem::Fn(decl_ref("run", 200)));
    impld_items.insert(key("ID"), TyTraitItem::Constant(decl_ref("ID", 201)));
    impld_items.insert(key("Item"), TyTraitItem::Type(decl_ref("Item", 202)));
    let (result, errors, _) = drive(
        vec![
            (
                Query::CheckTraitConstraints {
                    ctx: context(),
                    type_id: ty(10),
                    supertraits: vec![],
                    span: span(81),
                },
                done(),
            ),
            (
                Query::CheckTypeParameterBounds {
                    ctx: context(),
                    type_id: ty(6),
                    span: span(6),
                    constraints_of: Some(parameter(5)),
                },
                done(),
            ),
            (Query::GetDecl { kind: DeclKind::TraitFn, id: 100 }, a_signature(signature("run"))),
            (
                Query::GetDecl { kind: DeclKind::Constant, id: 101 },
                a_constant(constant("ID", 20)),
            ),
            (
                Query::GetDecl { kind: DeclKind::TraitType, id: 102 },
                an_associated(TyTraitType { name: ident("Item"), ty: None, key: 0 }),
            ),
            (Query::InsertType { info: TypeInfo::Unknown }, a_type(12)),
            (
                Query::TypeCheckTraitType {
                    ctx: context().expecting(ty(12)),
                    parsed: TraitTypeDeclaration { key: 2 },
                },
                an_associated(associated("Item", 29)),
            ),
            (
                Query::ReplaceSelfType {
                    decl: Decl::TraitType(TyTraitType { name: ident("Item"), ty: None, key: 0 }),
                    type_id: ty(10),
                },
                an_associated(associated("Item", 28)),
            ),
            (
                Query::SubstDecl {
                    decl: Decl::TraitType(associated("Item", 29)),
                    type_subst: SortedMap::new(),
                },
                an_associated(associated("Item", 30)),
            ),
            (
                Query::InsertDecl {
                    decl: Decl::TraitType(associated("Item", 30)),
                    parent: None,
                },
                a_decl_ref("Item", 202),
            ),
            (
                Query::InsertType {
                    info: TypeInfo::TraitType { name: ident("Item"), trait_type_id: ty(10) },
                },
                a_type(900),
            ),
            (Query::InsertType { info: TypeInfo::Unknown }, a_type(13)),
            (
                Query::TypeCheckFunction {
                    ctx: with_subst().expecting(ty(13)),
                    parsed: FunctionDeclaration { key: 1 },
                },
                a_function(function("run")),
            ),
            (
                Query::ReplaceSelfType {
                    decl: Decl::TraitFn(signature("run")),
                    type_id: ty(10),
                },
                a_signature(signature("run")),
            ),
            (Query::SubstType { type_id: ty(51), type_subst: substitution() }, a_type(1)),
            (Query::SubstType { type_id: ty(71), type_subst: substitution() }, a_type(2)),
            (Query::TypesEqual { left: ty(1), right: ty(2) }, a_flag(true)),
            (
                Query::SubstDecl {
                    decl: Decl::Function(function("run")),
                    type_subst: substitution(),
                },
                a_function(function("run")),
            ),
            (
                Query::InsertDecl { decl: Decl::Function(function("run")), parent: None },
                a_decl_ref("run", 200),
            ),
            (Query::InsertType { info: TypeInfo::Unknown }, a_type(14)),
            (
                Query::TypeCheckConstant {
                    ctx: with_subst().expecting(ty(14)),
                    parsed: ConstantDeclaration { key: 3 },
                },
                a_constant(constant("ID", 21)),
            ),
            (
                Query::ReplaceSelfType {
                    decl: Decl::Constant(constant("ID", 20)),
                    type_id: ty(10),
                },
                a_constant(constant("ID", 22)),
            ),
            (Query::SubstType { type_id: ty(21), type_subst: substitution() }, a_type(3)),
            (Query::SubstType { type_id: ty(22), type_subst: substitution() }, a_type(4)),
            (Query::TypesEqual { left: ty(3), right: ty(4) }, a_flag(true)),
            (
                Query::SubstDecl {
                    decl: Decl::Constant(constant("ID", 21)),
                    type_subst: substitution(),
                },
                a_constant(constant("ID", 23)),
            ),
            (
                Query::InsertDecl { decl: Decl::Constant(constant("ID", 23)), parent: None },
                a_decl_ref("ID", 201),
            ),
            (
                Query::GetDecl { kind: DeclKind::Function, id: 103 },
                a_function(function("walk")),
            ),
            (
                Query::ReplaceDecls {
                    ctx: context(),
                    decl: Decl::Function(function("walk")),
                    mapping: DeclMapping { interface_items, items: SortedMap::new(), impld_items },
                },
                a_function(function("replaced")),
            ),
            (
                Query::ReplaceSelfType {
                    decl: Decl::Function(function("replaced")),
                    type_id: ty(10),
                },
                a_function(function("for_self")),
            ),
            (
                Query::SubstDecl {
                    decl: Decl::Function(function("for_self")),
                    type_subst: all_types,
                },
                a_function(function("walk")),
            ),
            (
                Query::InsertDecl {
                    decl: Decl::Function(function("walk")),
                    parent: Some(ParentId::Function(103)),
                },
                a_decl_ref("walk", 203),
            ),
        ],
        |cx| check(cx, &vec![], &surface, &provided, &impl_items),
    );
    assert_eq!(
        result,
        Ok(vec![
            TyTraitItem::Constant(decl_ref("ID", 201)),
            TyTraitItem::Type(decl_ref("Item", 202)),
            TyTraitItem::Fn(decl_ref("run", 200)),
            TyTraitItem::Fn(decl_ref("walk", 203)),
        ])
    );
    assert_eq!(errors, vec![]);
}

#[test]
fn what_is_missing_is_emitted_in_order() {
    let surface = vec![
        TyTraitInterfaceItem::TraitFn(decl_ref("z", 100)),
        TyTraitInterfaceItem::TraitFn(decl_ref("a", 101)),
        TyTraitInterfaceItem::Constant(decl_ref("ID", 102)),
        TyTraitInterfaceItem::Type(decl_ref("Item", 103)),
    ];
    let (result, errors, _) = replay(
        vec![
            done(),
            done(),
            a_signature(signature("z")),
            a_signature(signature("a")),
            a_constant(constant("ID", 1)),
            an_associated(associated("Item", 1)),
        ],
        |cx| check(cx, &vec![], &surface, &vec![], &vec![]),
    );
    assert_eq!(result, Err(ErrorEmitted));
    assert_eq!(
        errors,
        vec![
            CompileError::MissingInterfaceSurfaceMethods {
                missing_functions: vec![ident("a"), ident("z")],
                span: span(81),
            },
            CompileError::MissingInterfaceSurfaceConstants {
                missing_constants: vec![ident("ID")],
                span: span(81),
            },
            CompileError::MissingInterfaceSurfaceTypes {
                missing_types: vec![ident("Item")],
                span: span(81),
            },
        ]
    );
}

#[test]
fn a_second_definition_is_refused_and_an_error_item_takes_its_place() {
    let surface = vec![TyTraitInterfaceItem::TraitFn(decl_ref("run", 100))];
    let impl_items = vec![
        ImplItem::Fn(FunctionDeclaration { key: 1 }),
        ImplItem::Fn(FunctionDeclaration { key: 2 }),
    ];
    let mut replies = vec![done(), done(), a_signature(signature("run"))];
    replies.append(&mut method_replies("run", 200));
    replies.append(&mut vec![
        a_type(12),
        a_function(function("run")),
        a_function(function("run")),
        a_function(function("run")),
        a_decl_ref("run", 201),
    ]);
    let (result, errors, _) =
        replay(replies, |cx| check(cx, &vec![], &surface, &vec![], &impl_items));
    assert_eq!(result, Ok(vec![TyTraitItem::Fn(decl_ref("run", 201))]));
    assert_eq!(
        errors,
        vec![CompileError::MultipleDefinitionsOfFunction { name: ident("run"), span: span(0) }]
    );
}

#[test]
fn items_with_errors_are_replaced_by_error_items() {
    let surface = vec![
        TyTraitInterfaceItem::TraitFn(decl_ref("run", 100)),
        TyTraitInterfaceItem::Constant(decl_ref("ID", 101)),
        TyTraitInterfaceItem::Type(decl_ref("Item", 102)),
    ];
    let impl_items = vec![
        ImplItem::Type(TraitTypeDeclaration { key: 1 }),
        ImplItem::Fn(FunctionDeclaration { key: 2 }),
        ImplItem::Constant(ConstantDeclaration { key: 3 }),
    ];
    let (result, errors, _) = replay(
        vec![
            done(),
            done(),
            a_signature(signature("run")),
            a_constant(constant("ID", 1)),
            an_associated(associated("Item", 1)),
            a_type(12),
            failed(1),
            an_associated(associated("Item", 2)),
            an_associated(associated("Item", 2)),
            a_decl_ref("Item", 200),
            a_type(900),
            a_type(12),
            failed(2),
            a_function(function("run")),
            a_function(function("run")),
            a_decl_ref("run", 201),
            a_type(12),
            failed(3),
            a_constant(constant("ID", 2)),
            a_constant(constant("ID", 2)),
            a_decl_ref("ID", 202),
        ],
        |cx| check(cx, &vec![], &surface, &vec![], &impl_items),
    );
    assert_eq!(
        result,
        Ok(vec![
            TyTraitItem::Constant(decl_ref("ID", 202)),
            TyTraitItem::Type(decl_ref("Item", 200)),
            TyTraitItem::Fn(decl_ref("run", 201)),
        ])
    );
    assert_eq!(
        errors,
        vec![CompileError::Reported(1), CompileError::Reported(2), CompileError::Reported(3)]
    );
}

#[test]
fn an_associated_type_of_an_impl_block_stands_for_a_type() {
    let surface = vec![TyTraitInterfaceItem::Type(decl_ref("Item", 102))];
    let impl_items = vec![ImplItem::Type(TraitTypeDeclaration { key: 1 })];
    let open = || TyTraitType { name: ident("Item"), ty: None, key: 0 };
    let mut cx = Session::new(queue(vec![
        done(),
        done(),
        an_associated(open()),
        a_type(12),
        an_associated(open()),
        an_associated(open()),
        an_associated(open()),
        a_decl_ref("Item", 200),
        a_type(900),
    ]));
    assert_eq!(check(&mut cx, &vec![], &surface, &vec![], &impl_items), None);
    assert_eq!(cx.stop(), &Stop::Contradiction);
}

#[test]
fn provided_constants_and_types_are_fitted() {
    let provided = vec![
        TyTraitItem::Constant(decl_ref("ID", 101)),
        TyTraitItem::Type(decl_ref("Item", 102)),
    ];
    let mapping = || DeclMapping {
        interface_items: SortedMap::new(),
        items: SortedMap::new(),
        impld_items: SortedMap::new(),
    };
    let types = || {
        let mut map: TypeSubstMap = SortedMap::new();
        map.insert(ty(5), ty(6));
        map
    };
    let (result, _, _) = drive(
        vec![
            (
                Query::CheckTraitConstraints {
                    ctx: context(),
                    type_id: ty(10),
                    supertraits: vec![],
                    span: span(81),
                },
                done(),
            ),
            (
                Query::CheckTypeParameterBounds {
                    ctx: context(),
                    type_id: ty(6),
                    span: span(6),
                    constraints_of: Some(parameter(5)),
                },
                done(),
            ),
            (
                Query::GetDecl { kind: DeclKind::Constant, id: 101 },
                a_constant(constant("ID", 1)),
            ),
            (
                Query::ReplaceDecls {
                    ctx: context(),
                    decl: Decl::Constant(constant("ID", 1)),
                    mapping: mapping(),
                },
                a_constant(constant("ID", 2)),
            ),
            (
                Query::ReplaceSelfType {
                    decl: Decl::Constant(constant("ID", 2)),
                    type_id: ty(10),
                },
                a_constant(constant("ID", 3)),
            ),
            (
                Query::SubstDecl {
                    decl: Decl::Constant(constant("ID", 3)),
                    type_subst: types(),
                },
                a_constant(constant("ID", 4)),
            ),
            (
                Query::InsertDecl { decl: Decl::Constant(constant("ID", 4)), parent: None },
                a_decl_ref("ID", 201),
            ),
            (
                Query::GetDecl { kind: DeclKind::TraitType, id: 102 },
                an_associated(associated("Item", 1)),
            ),
            (
                Query::ReplaceSelfType {
                    decl: Decl::TraitType(associated("Item", 1)),
                    type_id: ty(10),
                },
                an_associated(associated("Item", 2)),
            ),
            (
                Query::SubstDecl {
                    decl: Decl::TraitType(associated("Item", 2)),
                    type_subst: types(),
                },
                an_associated(associated("Item", 3)),
            ),
            (
                Query::InsertDecl {
                    decl: Decl::TraitType(associated("Item", 3)),
                    parent: None,
                },
                a_decl_ref("Item", 202),
            ),
        ],
        |cx| check(cx, &vec![], &vec![], &provided, &vec![]),
    );
    assert_eq!(
        result,
        Ok(vec![
            TyTraitItem::Constant(decl_ref("ID", 201)),
            TyTraitItem::Type(decl_ref("Item", 202)),
        ])
    );
}

#[test]
fn the_items_of_supertraits_are_made_known_quietly() {
    let super_decl = TyTraitDecl {
        name: ident("Super"),
        type_parameters: vec![],
        interface_surface: vec![TyTraitInterfaceItem::TraitFn(decl_ref("base", 300))],
        items: vec![],
        supertraits: vec![],
        span: span(9),
        key: 0,
    };
    let provided = vec![TyTraitItem::Fn(decl_ref("walk", 103))];
    let base = TyTraitItem::Fn(decl_ref("base", 301));
    let mut interface_items: InterfaceItemMap = SortedMap::new();
    interface_items
        .insert(key("base"), TyTraitInterfaceItem::TraitFn(decl_ref("base", 300)));
    let mut impld_items: ItemMap = SortedMap::new();
    impld_items.insert(key("base"), base.clone());
    let (result, errors, warnings) = drive(
        vec![
            (
                Query::CheckTraitConstraints {
                    ctx: context(),
                    type_id: ty(10),
                    supertraits: vec![supertrait("Super")],
                    span: span(81),
                },
                done(),
            ),
            (
                Query::CheckTypeParameterBounds {
                    ctx: context(),
                    type_id: ty(6),
                    span: span(6),
                    constraints_of: Some(parameter(5)),
                },
                done(),
            ),
            (
                Query::ResolveCallPath { ctx: context(), path: path("Super") },
                reply(Answer::Symbol(TyDecl::TraitDecl { decl_id: 7 })),
            ),
            (Query::GetTrait { id: 7 }, reply(Answer::Trait(super_decl))),
            (
                Query::ItemsForTypeAndTrait {
                    ctx: context(),
                    type_id: ty(10),
                    trait_name: path("Super"),
                },
                reply(Answer::Items(vec![base.clone()])),
            ),
            (
                Query::InsertTraitImplementation {
                    ctx: context(),
                    trait_name: path("Test"),
                    type_arguments: vec![argument(6)],
                    type_id: ty(10),
                    items: vec![base],
                    impl_span: span(40),
                    trait_decl_span: Some(span(80)),
                    is_extending_existing_impl: false,
                },
                Reply { errors: vec![1], warnings: vec![2], answer: Answer::Failed },
            ),
            (
                Query::GetDecl { kind: DeclKind::Function, id: 103 },
                a_function(function("walk")),
            ),
            (
                Query::ReplaceDecls {
                    ctx: context(),
                    decl: Decl::Function(function("walk")),
                    mapping: DeclMapping { interface_items, items: SortedMap::new(), impld_items },
                },
                failed(9),
            ),
        ],
        |cx| check(cx, &vec![supertrait("Super")], &vec![], &provided, &vec![]),
    );
    assert_eq!(result, Err(ErrorEmitted));
    assert_eq!(errors, vec![CompileError::Reported(9)]);
    assert_eq!(warnings, vec![]);
}

#[test]
fn an_implementation_is_refused_where_its_head_does_not_hold() {
    let (result, errors, _) =
        replay(vec![failed(1)], |cx| check(cx, &vec![], &vec![], &vec![], &vec![]));
    assert_eq!(result, Err(ErrorEmitted));
    assert_eq!(errors, vec![CompileError::Reported(1)]);
    let (result, errors, _) =
        replay(vec![done(), failed(2)], |cx| check(cx, &vec![], &vec![], &vec![], &vec![]));
    assert_eq!(result, Err(ErrorEmitted));
    assert_eq!(errors, vec![CompileError::Reported(2)]);
    let (result, errors, _) = replay(vec![done(), done(), failed(3)], |cx| {
        check(cx, &vec![supertrait("Gone")], &vec![], &vec![], &vec![])
    });
    assert_eq!(result, Err(ErrorEmitted));
    assert_eq!(
        errors,
        vec![
            CompileError::Reported(3),
            CompileError::TraitNotFound { name: "Gone".to_string(), span: span(40) },
        ]
    );
}
