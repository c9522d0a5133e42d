use std::collections::VecDeque;
use sway_traits::decl::{
    CallPath, ConstantDeclaration, Decl, DeclRef, FunctionDeclaration, ParentId, Purity, Supertrait,
    TraitDeclaration, TraitFn, TraitItem, TraitTypeDeclaration, TyConstantDecl, TyDecl,
    TyFunctionDecl, TyTraitDecl, TyTraitFn, TyTraitInterfaceItem, TyTraitItem, TyTraitType,
    TypeParameterList,
};
use sway_traits::diagnostics::{CompileError, CompileWarning, ErrorEmitted};
use sway_traits::ident::{Ident, Span};
use sway_traits::ordered::SortedMap;
use sway_traits::session::{
    AbiMode, Answer, ConstShadowingMode, Context, Query, Reply, Session, Stop,
};
use sway_traits::types::{TypeArgument, TypeId, TypeInfo, TypeParameter};

fn span(start: u64) -> Span {
    Span { source: 1, start, end: start + 1 }
}

fn ident(name: &str) -> Ident {
    Ident { name: name.to_string(), span: span(0) }
}

fn ident_at(name: &str, start: u64) -> Ident {
    Ident { name: name.to_string(), span: span(start) }
}

fn ty(index: u64) -> TypeId {
    TypeId { index }
}

fn argument(index: u64) -> TypeArgument {
    TypeArgument { type_id: ty(index), span: span(index), key: index }
}

fn parameter(index: u64) -> TypeParameter {
    TypeParameter { type_id: ty(index), span: span(index), is_from_parent: false, key: index }
}

fn path(name: &str) -> CallPath {
    CallPath { prefixes: None, suffix: ident(name), is_absolute: false, span: span(40) }
}

fn supertrait(name: &str) -> Supertrait {
    Supertrait { name: path(name), span: span(41), key: 0 }
}

fn decl_ref(name: &str, id: u64) -> DeclRef {
    DeclRef { name: ident(name), id, span: span(id) }
}

fn function(name: &str) -> TyFunctionDecl {
    TyFunctionDecl {
        name: ident(name),
        parameters: vec![],
        parameters_span: span(50),
        return_type: argument(51),
        purity: Purity::Pure,
        payable: false,
        type_parameters: vec![],
        span: span(52),
        key: 0,
    }
}

fn signature(name: &str) -> TyTraitFn {
    TyTraitFn {
        name: ident(name),
        parameters: vec![],
        return_type: argument(71),
        purity: Purity::Pure,
        payable: false,
        key: 0,
    }
}

fn constant(name: &str, index: u64) -> TyConstantDecl {
    TyConstantDecl {
        name: ident(name),
        type_ascription: argument(index),
        span: span(53),
        key: 0,
    }
}

fn associated(name: &str, index: u64) -> TyTraitType {
    TyTraitType { name: ident(name), ty: Some(argument(index)), key: 0 }
}

fn context() -> Context {
    Context {
        namespace: 1,
        self_type: ty(10),
        type_annotation: ty(11),
        help_text: Some(5),
        type_subst: SortedMap::new(),
        abi_mode: AbiMode::NonAbi,
        const_shadowing_mode: ConstShadowingMode::Sequential,
        disallow_functions: true,
        defer_monomorphization: false,
        key: 99,
    }
}

fn reply(answer: Answer) -> Reply {
    Reply { errors: vec![], warnings: vec![], answer }
}

fn failed(error: u64) -> Reply {
    Reply { errors: vec![error], warnings: vec![], answer: Answer::Failed }
}

fn done() -> Reply {
    reply(Answer::Done)
}

fn a_type(index: u64) -> Reply {
    reply(Answer::Type(ty(index)))
}

fn a_function(decl: TyFunctionDecl) -> Reply {
    reply(Answer::Decl(Decl::Function(decl)))
}

fn a_constant(decl: TyConstantDecl) -> Reply {
    reply(Answer::Decl(Decl::Constant(decl)))
}

fn an_associated(decl: TyTraitType) -> Reply {
    reply(Answer::Decl(Decl::TraitType(decl)))
}

fn a_signature(decl: TyTraitFn) -> Reply {
    reply(Answer::Decl(Decl::TraitFn(decl)))
}

fn a_decl_ref(name: &str, id: u64) -> Reply {
    reply(Answer::DeclRef(decl_ref(name, id)))
}

fn queue(replies: Vec<Reply>) -> VecDeque<Reply> {
    let mut queue: VecDeque<Reply> = VecDeque::new();
    for reply in replies {
        queue.push_back(reply);
    }
    queue
}

fn drive<T>(
    script: Vec<(Query, Reply)>,
    check: impl Fn(&mut Session) -> Option<T>,
) -> (T, Vec<CompileError>, Vec<CompileWarning>) {
    let mut given: Vec<Reply> = vec![];
    for (query, reply) in script {
        let mut cx = Session::new(queue(given.clone()));
        assert!(check(&mut cx).is_none(), "{:?} was not asked", query);
        assert_eq!(cx.stop(), &Stop::Asking(query));
        given.push(reply);
    }
    let mut cx = Session::new(queue(given));
    let value = check(&mut cx);
    assert_eq!(cx.stop(), &Stop::Running);
    assert_eq!(cx.unread(), 0);
    (value.unwrap(), cx.errors().clone(), cx.warnings().clone())
}

fn replay<T>(
    replies: Vec<Reply>,
    check: impl Fn(&mut Session) -> Option<T>,
) -> (T, Vec<CompileError>, Vec<CompileWarning>) {
    let mut cx = Session::new(queue(replies));
    let value = check(&mut cx);
    assert_eq!(cx.stop(), &Stop::Running);
    assert_eq!(cx.unread(), 0);
    (value.unwrap(), cx.errors().clone(), cx.warnings().clone())
}

fn declaration(name: &str) -> TraitDeclaration {
    TraitDeclaration {
        name: ident_at(name, 3),
        type_parameters: TypeParameterList { key: 4 },
        interface_surface: vec![],
        methods: vec![],
        supertraits: vec![],
        span: span(9),
        key: 77,
    }
}

fn inside() -> Context {
    context().scoped(2).with_self_type(ty(20))
}

fn stand_ins(name: &str, items: Vec<TyTraitItem>, is_extending_existing_impl: bool) -> Query {
    Query::InsertTraitImplementation {
        ctx: inside(),
        trait_name: CallPath {
            prefixes: None,
            suffix: ident(name),
            is_absolute: false,
            span: span(3),
        },
        type_arguments: vec![argument(5)],
        type_id: ty(20),
        items,
        impl_span: span(9),
        trait_decl_span: None,
        is_extending_existing_impl,
    }
}

fn head(parameters: Vec<TypeParameter>) -> Vec<Reply> {
    let mut replies = vec![
        a_type(20),
        reply(Answer::Namespace(2)),
        reply(Answer::TypeParameters(parameters.clone())),
    ];
    for _ in parameters {
        replies.push(done());
    }
    replies.push(done());
    replies
}

fn warned(name: &str) -> bool {
    let mut replies = head(vec![]);
    replies.append(&mut vec![done(), done()]);
    let decl = declaration(name);
    let (result, _, warnings) =
        replay(replies, |cx| TyTraitDecl::type_check(cx, &context(), &decl));
    assert!(result.is_ok());
    if warnings.is_empty() {
        return false;
    }
    assert_eq!(
        warnings,
        vec![CompileWarning::NonClassCaseTraitName { name: ident(name), span: span(3) }]
    );
    true
}

#[test]
fn a_trait_is_checked_in_order() {
    let mut decl = declaration("Test");
    decl.interface_surface = vec![
        TraitItem::TraitFn(TraitFn { key: 1 }),
        TraitItem::Error,
        TraitItem::Type(TraitTypeDeclaration { key: 2 }),
        TraitItem::Constant(ConstantDeclaration { key: 3 }),
    ];
    decl.methods = vec![FunctionDeclaration { key: 4 }, FunctionDeclaration { key: 5 }];
    decl.supertraits = vec![supertrait("Super")];
    let (result, errors, warnings) = drive(
        vec![
            (Query::InsertType { info: TypeInfo::SelfType }, a_type(20)),
            (Query::CloneNamespace { namespace: 1 }, reply(Answer::Namespace(2))),
            (
                Query::TypeCheckTypeParameters {
                    ctx: inside(),
                    parameters: TypeParameterList { key: 4 },
                },
                reply(Answer::TypeParameters(vec![parameter(5)])),
            ),
            (Query::InsertTypeParameter { ctx: inside(), parameter: parameter(5) }, done()),
            (
                Query::InsertSupertraits {
                    ctx: inside(),
                    self_type: ty(20),
                    supertraits: vec![supertrait("Super")],
                },
                done(),
            ),
            (
                Query::TypeCheckTraitType {
                    ctx: inside(),
                    parsed: TraitTypeDeclaration { key: 2 },
                },
                an_associated(associated("Item", 30)),
            ),
            (
                Query::InsertDecl {
                    decl: Decl::TraitType(associated("Item", 30)),
                    parent: None,
                },
                a_decl_ref("Item", 100),
            ),
            (stand_ins("Test", vec![TyTraitItem::Type(decl_ref("Item", 100))], false), done()),
            (
                Query::TypeCheckTraitFn { ctx: inside(), parsed: TraitFn { key: 1 } },
                a_signature(signature("run")),
            ),
            (
                Query::InsertDecl { decl: Decl::TraitFn(signature("run")), parent: None },
                a_decl_ref("run", 101),
            ),
            (
                Query::InsertDummyFunction {
                    trait_fn: signature("run"),
                    parent: ParentId::TraitFn(101),
                },
                a_decl_ref("run", 102),
            ),
            (
                Query::TypeCheckConstant { ctx: inside(), parsed: ConstantDeclaration { key: 3 } },
                a_constant(constant("ID", 31)),
            ),
            (
                Query::InsertDecl { decl: Decl::Constant(constant("ID", 31)), parent: None },
                a_decl_ref("ID", 103),
            ),
            (
                Query::InsertSymbol {
                    ctx: inside(),
                    name: ident("ID"),
                    decl: TyDecl::ConstantDecl {
                        name: ident("ID"),
                        decl_id: 103,
                        decl_span: span(53),
                    },
                },
                done(),
            ),
            (stand_ins("Test", vec![TyTraitItem::Fn(decl_ref("run", 102))], true), done()),
            (
                Query::TypeCheckFunction { ctx: inside(), parsed: FunctionDeclaration { key: 4 } },
                a_function(function("good")),
            ),
            (
                Query::InsertDecl { decl: Decl::Function(function("good")), parent: None },
                a_decl_ref("good", 104),
            ),
            (
                Query::TypeCheckFunction { ctx: inside(), parsed: FunctionDeclaration { key: 5 } },
                failed(8),
            ),
            (
                Query::ErrorFunction { parsed: FunctionDeclaration { key: 5 } },
                a_function(function("bad")),
            ),
            (
                Query::InsertDecl { decl: Decl::Function(function("bad")), parent: None },
                a_decl_ref("bad", 105),
            ),
        ],
        |cx| TyTraitDecl::type_check(cx, &context(), &decl),
    );
    assert_eq!(
        result,
        Ok(TyTraitDecl {
            name: ident("Test"),
            type_parameters: vec![parameter(5)],
            interface_surface: vec![
                TyTraitInterfaceItem::Type(decl_ref("Item", 100)),
                TyTraitInterfaceItem::TraitFn(decl_ref("run", 101)),
                TyTraitInterfaceItem::Constant(decl_ref("ID", 103)),
            ],
            items: vec![
                TyTraitItem::Fn(decl_ref("good", 104)),
                TyTraitItem::Fn(decl_ref("bad", 105)),
            ],
            supertraits: vec![supertrait("Super")],
            span: span(9),
            key: 77,
        })
    );
    assert_eq!(errors, vec![CompileError::Reported(8)]);
    assert_eq!(warnings, vec![]);
}

#[test]
fn a_trait_name_is_written_in_upper_camel_case() {
    assert!(!warned("Test"));
    assert!(!warned("TestCase"));
    assert!(!warned("_Test"));
    assert!(!warned("__T"));
    assert!(!warned("T1"));
    assert!(!warned("Äpfel"));
    assert!(!warned("_"));
    assert!(!warned("1abc"));
    assert!(warned("test"));
    assert!(warned("_test"));
    assert!(warned("Test_Case"));
    assert!(warned("_Test_"));
    assert!(warned("äpfel"));
}

#[test]
fn a_name_that_is_declared_again_is_an_error_and_no_end() {
    let mut decl = declaration("Test");
    decl.interface_surface = vec![
        TraitItem::TraitFn(TraitFn { key: 1 }),
        TraitItem::Type(TraitTypeDeclaration { key: 2 }),
        TraitItem::Constant(ConstantDeclaration { key: 3 }),
        TraitItem::Type(TraitTypeDeclaration { key: 4 }),
    ];
    let mut again = associated("Same", 31);
    again.name = ident_at("Same", 61);
    let mut method = signature("Same");
    method.name = ident_at("Same", 62);
    let mut replies = head(vec![]);
    replies.append(&mut vec![
        an_associated(associated("Same", 30)),
        a_decl_ref("Same", 100),
        an_associated(again),
        a_decl_ref("Same", 101),
        done(),
        a_signature(method),
        a_decl_ref("Same", 102),
        a_decl_ref("Same", 103),
        a_constant(constant("OTHER", 32)),
        a_decl_ref("OTHER", 104),
        done(),
        done(),
    ]);
    let (result, errors, _) =
        replay(replies, |cx| TyTraitDecl::type_check(cx, &context(), &decl));
    assert_eq!(result.unwrap().interface_surface.len(), 4);
    assert_eq!(
        errors,
        vec![
            CompileError::MultipleDefinitionsOfName { name: ident("Same"), span: span(61) },
            CompileError::MultipleDefinitionsOfName { name: ident("Same"), span: span(62) },
        ]
    );
}

#[test]
fn a_trait_is_refused_where_the_compiler_refuses_a_part() {
    let refused = |decl: TraitDeclaration, replies: Vec<Reply>| {
        let (result, errors, _) =
            replay(replies, |cx| TyTraitDecl::type_check(cx, &context(), &decl));
        assert_eq!(result, Err(ErrorEmitted));
        assert_eq!(errors, vec![CompileError::Reported(8)]);
    };
    let namespace = || reply(Answer::Namespace(2));
    refused(declaration("Test"), vec![a_type(20), namespace(), failed(8)]);
    let parameters = reply(Answer::TypeParameters(vec![parameter(5), parameter(6)]));
    refused(
        declaration("Test"),
        vec![a_type(20), namespace(), parameters, done(), failed(8)],
    );
    let mut replies = head(vec![]);
    replies.pop();
    replies.push(failed(8));
    refused(declaration("Test"), replies);
    let mut replies = head(vec![]);
    replies.push(failed(8));
    refused(declaration("Test"), replies);
    let mut replies = head(vec![]);
    replies.append(&mut vec![done(), failed(8)]);
    refused(declaration("Test"), replies);
    let mut decl = declaration("Test");
    decl.interface_surface = vec![TraitItem::Type(TraitTypeDeclaration { key: 2 })];
    let mut replies = head(vec![]);
    replies.push(failed(8));
    refused(decl.clone(), replies);
    decl.interface_surface = vec![TraitItem::TraitFn(TraitFn { key: 2 })];
    let mut replies = head(vec![]);
    replies.append(&mut vec![done(), failed(8)]);
    refused(decl.clone(), replies);
    decl.interface_surface = vec![TraitItem::Constant(ConstantDeclaration { key: 2 })];
    let mut replies = head(vec![]);
    replies.append(&mut vec![
        done(),
        a_constant(constant("ID", 1)),
        a_decl_ref("ID", 2),
        failed(8),
    ]);
    refused(decl, replies);
}

#[test]
fn the_items_of_a_trait_are_finished_in_place() {
    let decl = || TyTraitDecl {
        name: ident("Test"),
        type_parameters: vec![],
        interface_surface: vec![],
        items: vec![TyTraitItem::Fn(decl_ref("a", 1)), TyTraitItem::Fn(decl_ref("b", 2))],
        supertraits: vec![],
        span: span(9),
        key: 77,
    };
    let finish = |replies: Vec<Reply>| {
        let mut decl = decl();
        let mut cx = Session::new(queue(replies));
        let result = decl.type_check_finalize(&mut cx, &context());
        (result, decl.items, cx)
    };
    let (result, items, cx) = finish(vec![]);
    assert_eq!(result, None);
    assert_eq!(items, decl().items);
    assert_eq!(
        cx.stop(),
        &Stop::Asking(Query::FinalizeItem {
            ctx: context(),
            item: TyTraitItem::Fn(decl_ref("a", 1)),
        })
    );
    let new = |id: u64| Answer::Item(TyTraitItem::Fn(decl_ref("n", id)));
    let (result, items, _) = finish(vec![reply(new(5)), reply(new(6))]);
    assert_eq!(result, Some(Ok(())));
    assert_eq!(
        items,
        vec![TyTraitItem::Fn(decl_ref("n", 5)), TyTraitItem::Fn(decl_ref("n", 6))]
    );
    let (result, items, _) = finish(vec![
        Reply { errors: vec![3], warnings: vec![], answer: new(5) },
        reply(new(6)),
    ]);
    assert_eq!(result, Some(Err(ErrorEmitted)));
    assert_eq!(items.len(), 2);
}
