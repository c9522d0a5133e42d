use std::collections::VecDeque;
use sway_traits::decl::{
    CallPath, Decl, DeclKind, DeclRef, ParentId, Purity, TraitFn, TyConstantDecl, TyDecl,
    TyFunctionDecl, TyTraitDecl, TyTraitFn, TyTraitInterfaceItem, TyTraitItem, TyTraitType,
};
use sway_traits::diagnostics::{CompileError, CompileWarning};
use sway_traits::ident::{Ident, Span};
use sway_traits::ordered::SortedMap;
use sway_traits::session::{
    AbiMode, Answer, ConstShadowingMode, Context, Query, Reply, Session, Stop,
};
use sway_traits::types::{ItemKey, TypeArgument, TypeId, TypeParameter, TypeSubstMap};

fn span(start: u64) -> Span {
    Span { source: 1, start, end: start + 1 }
}

fn ident(name: &str) -> Ident {
    Ident { name: name.to_string(), span: span(0) }
}

fn ty(index: u64) -> TypeId {
    TypeId { index }
}

fn argument(index: u64) -> TypeArgument {
    TypeArgument { type_id: ty(index), span: span(index), key: index }
}

fn parameter(index: u64) -> TypeParameter {
    TypeParameter { type_id: ty(index), span: span(index), is_from_parent: false, key: index }
}

fn path(name: &str) -> CallPath {
    CallPath { prefixes: None, suffix: ident(name), is_absolute: false, span: span(40) }
}

fn decl_ref(name: &str, id: u64) -> DeclRef {
    DeclRef { name: ident(name), id, span: span(id) }
}

fn function(name: &str) -> TyFunctionDecl {
    TyFunctionDecl {
        name: ident(name),
        parameters: vec![],
        parameters_span: span(50),
        return_type: argument(51),
        purity: Purity::Pure,
        payable: false,
        type_parameters: vec![],
        span: span(52),
        key: 0,
    }
}

fn signature(name: &str) -> TyTraitFn {
    TyTraitFn {
        name: ident(name),
        parameters: vec![],
        return_type: argument(71),
        purity: Purity::Pure,
        payable: false,
        key: 0,
    }
}

fn constant(name: &str, index: u64) -> TyConstantDecl {
    TyConstantDecl {
        name: ident(name),
        type_ascription: argument(index),
        span: span(53),
        key: 0,
    }
}

fn associated(name: &str, index: u64) -> TyTraitType {
    TyTraitType { name: ident(name), ty: Some(argument(index)), key: 0 }
}

fn context() -> Context {
    Context {
        namespace: 1,
        self_type: ty(10),
        type_annotation: ty(11),
        help_text: Some(5),
        type_subst: SortedMap::new(),
        abi_mode: AbiMode::NonAbi,
        const_shadowing_mode: ConstShadowingMode::Sequential,
        disallow_functions: true,
        defer_monomorphization: false,
        key: 99,
    }
}

fn reply(answer: Answer) -> Reply {
    Reply { errors: vec![], warnings: vec![], answer }
}

fn failed(error: u64) -> Reply {
    Reply { errors: vec![error], warnings: vec![], answer: Answer::Failed }
}

fn a_function(decl: TyFunctionDecl) -> Reply {
    reply(Answer::Decl(Decl::Function(decl)))
}

fn a_constant(decl: TyConstantDecl) -> Reply {
    reply(Answer::Decl(Decl::Constant(decl)))
}

fn an_associated(decl: TyTraitType) -> Reply {
    reply(Answer::Decl(Decl::TraitType(decl)))
}

fn a_signature(decl: TyTraitFn) -> Reply {
    reply(Answer::Decl(Decl::TraitFn(decl)))
}

fn a_decl_ref(name: &str, id: u64) -> Reply {
    reply(Answer::DeclRef(decl_ref(name, id)))
}

fn queue(replies: Vec<Reply>) -> VecDeque<Reply> {
    let mut queue: VecDeque<Reply> = VecDeque::new();
    for reply in replies {
        queue.push_back(reply);
    }
    queue
}

fn drive<T>(
    script: Vec<(Query, Reply)>,
    check: impl Fn(&mut Session) -> Option<T>,
) -> (T, Vec<CompileError>, Vec<CompileWarning>) {
    let mut given: Vec<Reply> = vec![];
    for (query, reply) in script {
        let mut cx = Session::new(queue(given.clone()));
        assert!(check(&mut cx).is_none(), "{:?} was not asked", query);
        assert_eq!(cx.stop(), &Stop::Asking(query));
        given.push(reply);
    }
    let mut cx = Session::new(queue(given));
    let value = check(&mut cx);
    assert_eq!(cx.stop(), &Stop::Running);
    assert_eq!(cx.unread(), 0);
    (value.unwrap(), cx.errors().clone(), cx.warnings().clone())
}

fn a_trait() -> TyTraitDecl {
    TyTraitDecl {
        name: ident("Test"),
        type_parameters: vec![parameter(5)],
        interface_surface: vec![
            TyTraitInterfaceItem::TraitFn(decl_ref("run", 100)),
            TyTraitInterfaceItem::Constant(decl_ref("ID", 101)),
            TyTraitInterfaceItem::Type(decl_ref("Item", 102)),
            TyTraitInterfaceItem::TraitFn(decl_ref("run", 103)),
        ],
        items: vec![TyTraitItem::Fn(decl_ref("walk", 104)), TyTraitItem::Type(decl_ref("T", 105))],
        supertraits: vec![],
        span: span(9),
        key: 77,
    }
}

fn key(name: &str) -> ItemKey {
    ItemKey { name: ident(name), type_id: ty(10) }
}

fn substitution() -> TypeSubstMap {
    let mut map: TypeSubstMap = SortedMap::new();
    map.insert(ty(5), ty(6));
    map
}

#[test]
fn the_last_interface_item_of_a_name_counts() {
    let ((surface, items), errors, _) = drive(
        vec![(
            Query::ItemsForTypeAndTrait {
                ctx: context(),
                type_id: ty(10),
                trait_name: path("Test"),
            },
            reply(Answer::Items(vec![
                TyTraitItem::Fn(decl_ref("run", 200)),
                TyTraitItem::Constant(decl_ref("ID", 201)),
                TyTraitItem::Fn(decl_ref("ID", 202)),
            ])),
        )],
        |cx| {
            a_trait().retrieve_interface_surface_and_implemented_items_for_type(
                cx,
                &context(),
                ty(10),
                &path("Test"),
            )
        },
    );
    assert_eq!(surface.keys(), vec![key("ID"), key("Item"), key("run")]);
    assert_eq!(
        surface.values(),
        vec![
            TyTraitInterfaceItem::Constant(decl_ref("ID", 101)),
            TyTraitInterfaceItem::Type(decl_ref("Item", 102)),
            TyTraitInterfaceItem::TraitFn(decl_ref("run", 103)),
        ]
    );
    assert_eq!(
        items.values(),
        vec![TyTraitItem::Fn(decl_ref("ID", 202)), TyTraitItem::Fn(decl_ref("run", 200))]
    );
    assert!(surface.get(&ItemKey { name: ident("run"), type_id: ty(11) }).is_none());
    assert_eq!(errors, vec![]);
}

#[test]
fn implemented_items_are_copied_for_the_type_arguments() {
    let mut renamed = function("run");
    renamed.name = ident("renamed");
    let ((surface, items, copies), _, _) = drive(
        vec![
            (
                Query::ItemsForTypeAndTrait {
                    ctx: context(),
                    type_id: ty(10),
                    trait_name: path("Test"),
                },
                reply(Answer::Items(vec![
                    TyTraitItem::Fn(decl_ref("run", 200)),
                    TyTraitItem::Constant(decl_ref("ID", 201)),
                    TyTraitItem::Type(decl_ref("Item", 202)),
                ])),
            ),
            (
                Query::GetDecl { kind: DeclKind::Function, id: 200 },
                a_function(function("run")),
            ),
            (
                Query::SubstDecl {
                    decl: Decl::Function(function("run")),
                    type_subst: substitution(),
                },
                a_function(renamed.clone()),
            ),
            (
                Query::InsertDecl {
                    decl: Decl::Function(renamed),
                    parent: Some(ParentId::Function(200)),
                },
                a_decl_ref("renamed", 300),
            ),
            (
                Query::GetDecl { kind: DeclKind::Constant, id: 201 },
                a_constant(constant("ID", 1)),
            ),
            (
                Query::SubstDecl {
                    decl: Decl::Constant(constant("ID", 1)),
                    type_subst: substitution(),
                },
                a_constant(constant("ID", 2)),
            ),
            (
                Query::InsertDecl { decl: Decl::Constant(constant("ID", 2)), parent: None },
                a_decl_ref("ID", 301),
            ),
            (
                Query::GetDecl { kind: DeclKind::TraitType, id: 202 },
                an_associated(associated("Item", 1)),
            ),
            (
                Query::SubstDecl {
                    decl: Decl::TraitType(associated("Item", 1)),
                    type_subst: substitution(),
                },
                an_associated(associated("Item", 2)),
            ),
            (
                Query::InsertDecl {
                    decl: Decl::TraitType(associated("Item", 2)),
                    parent: None,
                },
                a_decl_ref("Item", 302),
            ),
        ],
        |cx| {
            a_trait().retrieve_interface_surface_and_items_and_implemented_items_for_type(
                cx,
                &context(),
                ty(10),
                &path("Test"),
                &vec![argument(6), argument(7)],
            )
        },
    );
    assert_eq!(surface.len(), 3);
    assert_eq!(
        items.values(),
        vec![TyTraitItem::Type(decl_ref("T", 105)), TyTraitItem::Fn(decl_ref("walk", 104))]
    );
    assert_eq!(copies.keys(), vec![key("ID"), key("Item"), key("renamed")]);
    assert_eq!(
        copies.values(),
        vec![
            TyTraitItem::Constant(decl_ref("ID", 301)),
            TyTraitItem::Type(decl_ref("Item", 302)),
            TyTraitItem::Fn(decl_ref("renamed", 300)),
        ]
    );
}

#[test]
fn a_trait_is_made_known_by_stand_ins_and_copies() {
    let mut decl = a_trait();
    decl.interface_surface.pop();
    let (_, errors, warnings) = drive(
        vec![
            (Query::GetDecl { kind: DeclKind::TraitFn, id: 100 }, a_signature(signature("run"))),
            (
                Query::ReplaceSelfType {
                    decl: Decl::TraitFn(signature("run")),
                    type_id: ty(10),
                },
                a_signature(signature("for_self")),
            ),
            (
                Query::SubstDecl {
                    decl: Decl::TraitFn(signature("for_self")),
                    type_subst: substitution(),
                },
                a_signature(signature("substituted")),
            ),
            (
                Query::InsertDummyFunction {
                    trait_fn: signature("substituted"),
                    parent: ParentId::TraitFn(100),
                },
                a_decl_ref("run", 300),
            ),
            (
                Query::GetDecl { kind: DeclKind::Constant, id: 101 },
                a_constant(constant("ID", 1)),
            ),
            (
                Query::InsertSymbol {
                    ctx: context(),
                    name: ident("ID"),
                    decl: TyDecl::ConstantDecl {
                        name: ident("ID"),
                        decl_id: 101,
                        decl_span: span(53),
                    },
                },
                failed(4),
            ),
            (
                Query::GetDecl { kind: DeclKind::Function, id: 104 },
                a_function(function("walk")),
            ),
            (
                Query::ReplaceSelfType {
                    decl: Decl::Function(function("walk")),
                    type_id: ty(10),
                },
                a_function(function("for_self")),
            ),
            (
                Query::SubstDecl {
                    decl: Decl::Function(function("for_self")),
                    type_subst: substitution(),
                },
                a_function(function("substituted")),
            ),
            (
                Query::InsertDecl {
                    decl: Decl::Function(function("substituted")),
                    parent: Some(ParentId::Function(104)),
                },
                a_decl_ref("walk", 301),
            ),
            (
                Query::GetDecl { kind: DeclKind::TraitType, id: 105 },
                an_associated(associated("T", 1)),
            ),
            (
                Query::ReplaceSelfType {
                    decl: Decl::TraitType(associated("T", 1)),
                    type_id: ty(10),
                },
                an_associated(associated("T", 2)),
            ),
            (
                Query::SubstDecl {
                    decl: Decl::TraitType(associated("T", 2)),
                    type_subst: substitution(),
                },
                an_associated(associated("T", 3)),
            ),
            (
                Query::InsertDecl { decl: Decl::TraitType(associated("T", 3)), parent: None },
                a_decl_ref("T", 302),
            ),
            (
                Query::InsertTraitImplementation {
                    ctx: context(),
                    trait_name: path("Test"),
                    type_arguments: vec![argument(6)],
                    type_id: ty(10),
                    items: vec![
                        TyTraitItem::Fn(decl_ref("run", 300)),
                        TyTraitItem::Constant(decl_ref("ID", 101)),
                        TyTraitItem::Type(decl_ref("Item", 102)),
                        TyTraitItem::Fn(decl_ref("walk", 301)),
                        TyTraitItem::Type(decl_ref("T", 302)),
                    ],
                    impl_span: span(40),
                    trait_decl_span: Some(span(9)),
                    is_extending_existing_impl: false,
                },
                Reply { errors: vec![5], warnings: vec![6], answer: Answer::Failed },
            ),
        ],
        |cx| {
            decl.insert_interface_surface_and_items_into_namespace(
                cx,
                &context(),
                &path("Test"),
                &vec![argument(6)],
                ty(10),
            )
        },
    );
    assert_eq!(errors, vec![CompileError::Reported(4)]);
    assert_eq!(warnings, vec![]);
}
