use std::collections::VecDeque;
use sway_traits::decl::{
    CallPath, ConstantDeclaration, Decl, DeclKind, DeclRef, FunctionDeclaration, ImplItem, ImplSelf,
    ImplTrait, InterfaceDeclId, InterfaceDeclRef, Purity, TraitTypeDeclaration, TyAbiDecl,
    TyConstantDecl, TyDecl, TyFunctionDecl, TyImplTrait, TyTraitDecl, TyTraitItem, TyTraitType,
    TypeParameterList,
};
use sway_traits::diagnostics::{CompileError, CompileWarning, ErrorEmitted};
use sway_traits::ident::{Ident, Span};
use sway_traits::ordered::SortedMap;
use sway_traits::session::{
    AbiMode, Answer, ConstShadowingMode, Context, Generic, Query, Reply, Session, Stop,
};
use sway_traits::types::{TypeArgument, TypeId, TypeInfo, TypeParameter};

fn span(start: u64) -> Span {
    Span { source: 1, start, end: start + 1 }
}

fn ident(name: &str) -> Ident {
    Ident { name: name.to_string(), span: span(0) }
}

fn ident_at(name: &str, start: u64) -> Ident {
    Ident { name: name.to_string(), span: span(start) }
}

fn ty(index: u64) -> TypeId {
    TypeId { index }
}

fn argument(index: u64) -> TypeArgument {
    TypeArgument { type_id: ty(index), span: span(index), key: index }
}

fn parameter(index: u64) -> TypeParameter {
    TypeParameter { type_id: ty(index), span: span(index), is_from_parent: false, key: index }
}

fn path(name: &str) -> CallPath {
    CallPath { prefixes: None, suffix: ident(name), is_absolute: false, span: span(40) }
}

fn decl_ref(name: &str, id: u64) -> DeclRef {
    DeclRef { name: ident(name), id, span: span(id) }
}

fn function(name: &str) -> TyFunctionDecl {
    TyFunctionDecl {
        name: ident(name),
        parameters: vec![],
        parameters_span: span(50),
        return_type: argument(51),
        purity: Purity::Pure,
        payable: false,
        type_parameters: vec![],
        span: span(52),
        key: 0,
    }
}

fn constant(name: &str, index: u64) -> TyConstantDecl {
    TyConstantDecl {
        name: ident(name),
        type_ascription: argument(index),
        span: span(53),
        key: 0,
    }
}

fn associated(name: &str, index: u64) -> TyTraitType {
    TyTraitType { name: ident(name), ty: Some(argument(index)), key: 0 }
}

fn context() -> Context {
    Context {
        namespace: 1,
        self_type: ty(10),
        type_annotation: ty(11),
        help_text: Some(5),
        type_subst: SortedMap::new(),
        abi_mode: AbiMode::NonAbi,
        const_shadowing_mode: ConstShadowingMode::Sequential,
        disallow_functions: true,
        defer_monomorphization: false,
        key: 99,
    }
}

fn reply(answer: Answer) -> Reply {
    Reply { errors: vec![], warnings: vec![], answer }
}

fn failed(error: u64) -> Reply {
    Reply { errors: vec![error], warnings: vec![], answer: Answer::Failed }
}

fn done() -> Reply {
    reply(Answer::Done)
}

fn a_type(index: u64) -> Reply {
    reply(Answer::Type(ty(index)))
}

fn a_flag(flag: bool) -> Reply {
    reply(Answer::Flag(flag))
}

fn a_text(text: &str) -> Reply {
    reply(Answer::Text(text.to_string()))
}

fn a_function(decl: TyFunctionDecl) -> Reply {
    reply(Answer::Decl(Decl::Function(decl)))
}

fn a_constant(decl: TyConstantDecl) -> Reply {
    reply(Answer::Decl(Decl::Constant(decl)))
}

fn an_associated(decl: TyTraitType) -> Reply {
    reply(Answer::Decl(Decl::TraitType(decl)))
}

fn a_decl_ref(name: &str, id: u64) -> Reply {
    reply(Answer::DeclRef(decl_ref(name, id)))
}

fn queue(replies: Vec<Reply>) -> VecDeque<Reply> {
    let mut queue: VecDeque<Reply> = VecDeque::new();
    for reply in replies {
        queue.push_back(reply);
    }
    queue
}

fn drive<T>(
    script: Vec<(Query, Reply)>,
    check: impl Fn(&mut Session) -> Option<T>,
) -> (T, Vec<CompileError>, Vec<CompileWarning>) {
    let mut given: Vec<Reply> = vec![];
    for (query, reply) in script {
        let mut cx = Session::new(queue(given.clone()));
        assert!(check(&mut cx).is_none(), "{:?} was not asked", query);
        assert_eq!(cx.stop(), &Stop::Asking(query));
        given.push(reply);
    }
    let mut cx = Session::new(queue(given));
    let value = check(&mut cx);
    assert_eq!(cx.stop(), &Stop::Running);
    assert_eq!(cx.unread(), 0);
    (value.unwrap(), cx.errors().clone(), cx.warnings().clone())
}

fn replay<T>(
    replies: Vec<Reply>,
    check: impl Fn(&mut Session) -> Option<T>,
) -> (T, Vec<CompileError>, Vec<CompileWarning>) {
    let mut cx = Session::new(queue(replies));
    let value = check(&mut cx);
    assert_eq!(cx.stop(), &Stop::Running);
    assert_eq!(cx.unread(), 0);
    (value.unwrap(), cx.errors().clone(), cx.warnings().clone())
}

fn block(items: Vec<ImplItem>) -> ImplTrait {
    ImplTrait {
        impl_type_parameters: TypeParameterList { key: 4 },
        trait_name: path("Test"),
        trait_type_arguments: vec![argument(6)],
        implementing_for: argument(30),
        items,
        block_span: span(81),
    }
}

fn self_block(items: Vec<ImplItem>) -> ImplSelf {
    ImplSelf {
        impl_type_parameters: TypeParameterList { key: 4 },
        implementing_for: argument(30),
        items,
        block_span: span(81),
    }
}

fn a_trait() -> TyTraitDecl {
    TyTraitDecl {
        name: ident("Test"),
        type_parameters: vec![parameter(5)],
        interface_surface: vec![],
        items: vec![],
        supertraits: vec![],
        span: span(9),
        key: 0,
    }
}

fn an_abi() -> TyAbiDecl {
    TyAbiDecl {
        name: ident("MyAbi"),
        interface_surface: vec![],
        items: vec![],
        supertraits: vec![],
        span: span(9),
        key: 0,
    }
}

fn generic(key: u64) -> Reply {
    reply(Answer::Generic(Generic { key, text: "T".to_string() }))
}

fn in_block() -> Context {
    context().scoped(2).in_impl_block()
}

fn in_body() -> Context {
    in_block().with_self_type(ty(31)).expecting(ty(12))
}

fn head() -> Vec<(Query, Reply)> {
    vec![
        (Query::CloneNamespace { namespace: 1 }, reply(Answer::Namespace(2))),
        (
            Query::TypeCheckTypeParameters {
                ctx: in_block(),
                parameters: TypeParameterList { key: 4 },
            },
            reply(Answer::TypeParameters(vec![parameter(7)])),
        ),
        (Query::InsertTypeParameter { ctx: in_block(), parameter: parameter(7) }, done()),
        (Query::ResolveType { ctx: in_block(), type_id: ty(6), span: span(6) }, a_type(60)),
        (Query::ResolveType { ctx: in_block(), type_id: ty(30), span: span(30) }, a_type(31)),
        (Query::CheckSupportedInImplBlocks { type_id: ty(31), span: span(30) }, done()),
        (Query::DescribeGeneric { type_id: ty(7) }, generic(70)),
        (Query::NestedGenerics { type_id: ty(60) }, reply(Answer::Generics(vec![70]))),
        (Query::NestedGenerics { type_id: ty(31) }, reply(Answer::Generics(vec![]))),
        (Query::InsertType { info: TypeInfo::Unknown }, a_type(12)),
    ]
}

fn resolved() -> TypeArgument {
    TypeArgument { type_id: ty(31), ..argument(30) }
}

fn self_head(name: Option<&str>, self_decl: Option<TyDecl>) -> Vec<Reply> {
    let has_decl = self_decl.is_some();
    let mut replies = vec![
        reply(Answer::Namespace(2)),
        reply(Answer::Name(name.map(|name| ident_at(name, 33)))),
        reply(Answer::TypeParameters(vec![])),
        a_type(31),
        done(),
        reply(Answer::Generics(vec![])),
        done(),
        a_type(12),
        reply(Answer::MaybeSymbol(self_decl)),
    ];
    if has_decl {
        replies.push(failed(1));
    }
    replies
}

#[test]
fn an_impl_block_of_a_trait_is_checked_in_order() {
    let mut script = head();
    script.append(&mut vec![
        (
            Query::ResolveCallPath { ctx: in_body(), path: path("Test") },
            reply(Answer::Symbol(TyDecl::TraitDecl { decl_id: 3 })),
        ),
        (Query::GetTrait { id: 3 }, reply(Answer::Trait(a_trait()))),
        (
            Query::Monomorphize {
                ctx: in_body(),
                trait_decl: a_trait(),
                type_arguments: vec![TypeArgument { type_id: ty(60), ..argument(6) }],
                span: span(40),
            },
            reply(Answer::Monomorphized(a_trait(), vec![argument(61)])),
        ),
        (
            Query::InsertTraitImplementation {
                ctx: in_body(),
                trait_name: path("Test"),
                type_arguments: vec![argument(61)],
                type_id: ty(31),
                items: vec![],
                impl_span: span(40),
                trait_decl_span: Some(span(9)),
                is_extending_existing_impl: false,
            },
            done(),
        ),
        (
            Query::CheckTraitConstraints {
                ctx: in_body(),
                type_id: ty(31),
                supertraits: vec![],
                span: span(81),
            },
            done(),
        ),
        (
            Query::CheckTypeParameterBounds {
                ctx: in_body(),
                type_id: ty(61),
                span: span(61),
                constraints_of: Some(parameter(5)),
            },
            done(),
        ),
    ]);
    let (result, errors, _) = drive(script, |cx| {
        TyImplTrait::type_check_impl_trait(cx, &context(), &block(vec![]))
    });
    assert_eq!(
        result,
        Ok(TyImplTrait {
            impl_type_parameters: vec![parameter(7)],
            trait_name: path("Test"),
            trait_type_arguments: vec![argument(61)],
            items: vec![],
            trait_decl_ref: Some(InterfaceDeclRef {
                name: ident("Test"),
                id: InterfaceDeclId::Trait(3),
                span: span(9),
            }),
            implementing_for: resolved(),
            span: span(81),
        })
    );
    assert_eq!(errors, vec![]);
}

#[test]
fn an_impl_block_of_an_abi_has_no_generics() {
    let with_abi = || in_body().with_abi(&ident("MyAbi"));
    let mut script = head();
    script.append(&mut vec![
        (
            Query::ResolveCallPath { ctx: in_body(), path: path("Test") },
            reply(Answer::Symbol(TyDecl::AbiDecl { decl_id: 3 })),
        ),
        (Query::GetAbi { id: 3 }, reply(Answer::Abi(an_abi()))),
        (Query::IsContract { type_id: ty(31) }, a_flag(true)),
        (Query::InsertAbiSurface { ctx: with_abi(), abi_id: 3, type_id: ty(31) }, failed(5)),
        (
            Query::CheckTraitConstraints {
                ctx: with_abi(),
                type_id: ty(31),
                supertraits: vec![],
                span: span(81),
            },
            done(),
        ),
    ]);
    let (result, errors, _) = drive(script, |cx| {
        TyImplTrait::type_check_impl_trait(cx, &context(), &block(vec![]))
    });
    assert_eq!(
        result,
        Ok(TyImplTrait {
            impl_type_parameters: vec![],
            trait_name: path("Test"),
            trait_type_arguments: vec![],
            items: vec![],
            trait_decl_ref: Some(InterfaceDeclRef {
                name: ident("MyAbi"),
                id: InterfaceDeclId::Abi(3),
                span: span(9),
            }),
            implementing_for: resolved(),
            span: span(81),
        })
    );
    assert_eq!(errors, vec![CompileError::Reported(5)]);
}

#[test]
fn only_the_contract_type_implements_an_abi() {
    let mut replies: Vec<Reply> = head().into_iter().map(|step| step.1).collect();
    replies.append(&mut vec![
        reply(Answer::Symbol(TyDecl::AbiDecl { decl_id: 3 })),
        reply(Answer::Abi(an_abi())),
        a_flag(false),
        a_text("MyStruct"),
        done(),
        done(),
    ]);
    let (result, errors, _) = replay(replies, |cx| {
        TyImplTrait::type_check_impl_trait(cx, &context(), &block(vec![]))
    });
    assert!(result.is_ok());
    assert_eq!(
        errors,
        vec![CompileError::ImplAbiForNonContract { span: span(30), ty: "MyStruct".to_string() }]
    );
}

#[test]
fn only_traits_and_abis_are_implemented() {
    let unknown = || CompileError::UnknownTrait { name: ident("Test"), span: span(40) };
    let mut replies: Vec<Reply> = head().into_iter().map(|step| step.1).collect();
    replies.push(reply(Answer::Symbol(TyDecl::Other { key: 1 })));
    let (result, errors, _) = replay(replies, |cx| {
        TyImplTrait::type_check_impl_trait(cx, &context(), &block(vec![]))
    });
    assert_eq!(result, Err(ErrorEmitted));
    assert_eq!(errors, vec![unknown()]);
    let mut replies: Vec<Reply> = head().into_iter().map(|step| step.1).collect();
    replies.push(failed(8));
    let (result, errors, _) = replay(replies, |cx| {
        TyImplTrait::type_check_impl_trait(cx, &context(), &block(vec![]))
    });
    assert_eq!(result, Err(ErrorEmitted));
    assert_eq!(errors, vec![CompileError::Reported(8), unknown()]);
}

#[test]
fn an_impl_block_is_refused_where_its_head_is() {
    for cut in [1, 2, 3, 4, 5] {
        let mut replies: Vec<Reply> =
            head().into_iter().take(cut).map(|step| step.1).collect();
        replies.push(failed(8));
        let (result, errors, _) = replay(replies, |cx| {
            TyImplTrait::type_check_impl_trait(cx, &context(), &block(vec![]))
        });
        assert_eq!(result, Err(ErrorEmitted));
        assert_eq!(errors, vec![CompileError::Reported(8)]);
    }
    let mut replies: Vec<Reply> = head().into_iter().take(7).map(|step| step.1).collect();
    replies.append(&mut vec![
        reply(Answer::Generics(vec![])),
        reply(Answer::Generics(vec![])),
    ]);
    let (result, errors, _) = replay(replies, |cx| {
        TyImplTrait::type_check_impl_trait(cx, &context(), &block(vec![]))
    });
    assert_eq!(result, Err(ErrorEmitted));
    assert_eq!(
        errors,
        vec![CompileError::UnconstrainedGenericParameter { ty: "T".to_string(), span: span(7) }]
    );
}

#[test]
fn an_impl_block_without_a_trait_is_checked_in_order() {
    let in_block = || context().scoped(2).in_impl_block().deferring();
    let in_body = || in_block().with_self_type(ty(31)).expecting(ty(12));
    let items = vec![
        ImplItem::Fn(FunctionDeclaration { key: 1 }),
        ImplItem::Constant(ConstantDeclaration { key: 2 }),
        ImplItem::Type(TraitTypeDeclaration { key: 3 }),
    ];
    let (result, errors, _) = drive(
        vec![
            (Query::CloneNamespace { namespace: 1 }, reply(Answer::Namespace(2))),
            (
                Query::CustomTypeName { type_id: ty(30) },
                reply(Answer::Name(Some(ident_at("Data", 33)))),
            ),
            (
                Query::TypeCheckTypeParameters {
                    ctx: in_block(),
                    parameters: TypeParameterList { key: 4 },
                },
                reply(Answer::TypeParameters(vec![])),
            ),
            (
                Query::ResolveType { ctx: in_block(), type_id: ty(30), span: span(30) },
                a_type(31),
            ),
            (Query::CheckSupportedInImplBlocks { type_id: ty(31), span: span(30) }, done()),
            (Query::NestedGenerics { type_id: ty(31) }, reply(Answer::Generics(vec![]))),
            (
                Query::CheckTypeParameterBounds {
                    ctx: in_block(),
                    type_id: ty(31),
                    span: span(30),
                    constraints_of: None,
                },
                done(),
            ),
            (Query::InsertType { info: TypeInfo::Unknown }, a_type(12)),
            (
                Query::TypeDeclaration { type_id: ty(31) },
                reply(Answer::MaybeSymbol(Some(TyDecl::Other { key: 6 }))),
            ),
            (
                Query::InsertSymbol {
                    ctx: in_body(),
                    name: Ident { name: "Self".to_string(), span: Span::dummy() },
                    decl: TyDecl::Other { key: 6 },
                },
                done(),
            ),
            (
                Query::TypeCheckFunctionSignature {
                    ctx: in_body(),
                    parsed: FunctionDeclaration { key: 1 },
                },
                a_function(function("run")),
            ),
            (
                Query::InsertDecl { decl: Decl::Function(function("run")), parent: None },
                a_decl_ref("run", 100),
            ),
            (
                Query::TypeCheckConstant {
                    ctx: in_body(),
                    parsed: ConstantDeclaration { key: 2 },
                },
                a_constant(constant("ID", 20)),
            ),
            (
                Query::InsertDecl { decl: Decl::Constant(constant("ID", 20)), parent: None },
                a_decl_ref("ID", 101),
            ),
            (
                Query::InsertSymbol {
                    ctx: in_body(),
                    name: ident("ID"),
                    decl: TyDecl::ConstantDecl {
                        name: ident("ID"),
                        decl_id: 101,
                        decl_span: span(101),
                    },
                },
                done(),
            ),
            (
                Query::TypeCheckTraitType {
                    ctx: in_body(),
                    parsed: TraitTypeDeclaration { key: 3 },
                },
                an_associated(associated("Item", 21)),
            ),
            (
                Query::InsertDecl {
                    decl: Decl::TraitType(associated("Item", 21)),
                    parent: None,
                },
                a_decl_ref("Item", 102),
            ),
            (
                Query::GetDecl { kind: DeclKind::Function, id: 100 },
                a_function(function("kept")),
            ),
            (
                Query::TypeCheckFunctionBody {
                    ctx: in_body(),
                    parsed: FunctionDeclaration { key: 1 },
                    decl: function("kept"),
                },
                a_function(function("with_body")),
            ),
            (
                Query::ReplaceDecl { id: 100, decl: Decl::Function(function("with_body")) },
                done(),
            ),
            (
                Query::GetDecl { kind: DeclKind::Function, id: 100 },
                a_function(function("with_body")),
            ),
            (
                Query::FinalizeDecl {
                    ctx: in_body(),
                    decl: Decl::Function(function("with_body")),
                },
                a_function(function("finished")),
            ),
            (
                Query::ReplaceDecl { id: 100, decl: Decl::Function(function("finished")) },
                done(),
            ),
            (
                Query::GetDecl { kind: DeclKind::Constant, id: 101 },
                a_constant(constant("ID", 22)),
            ),
            (
                Query::FinalizeDecl {
                    ctx: in_body(),
                    decl: Decl::Constant(constant("ID", 22)),
                },
                a_constant(constant("ID", 23)),
            ),
            (
                Query::ReplaceDecl { id: 101, decl: Decl::Constant(constant("ID", 23)) },
                done(),
            ),
        ],
        |cx| TyImplTrait::type_check_impl_self(cx, &context(), &self_block(items.clone())),
    );
    assert_eq!(
        result,
        Ok(TyImplTrait {
            impl_type_parameters: vec![],
            trait_name: CallPath {
                prefixes: None,
                suffix: ident("Data"),
                is_absolute: false,
                span: span(33),
            },
            trait_type_arguments: vec![],
            items: vec![
                TyTraitItem::Fn(decl_ref("run", 100)),
                TyTraitItem::Constant(decl_ref("ID", 101)),
                TyTraitItem::Type(decl_ref("Item", 102)),
            ],
            trait_decl_ref: None,
            implementing_for: resolved(),
            span: span(81),
        })
    );
    assert_eq!(errors, vec![]);
}

#[test]
fn a_type_without_a_name_goes_by_self() {
    let (result, errors, _) = replay(self_head(None, Some(TyDecl::Other { key: 1 })), |cx| {
        TyImplTrait::type_check_impl_self(cx, &context(), &self_block(vec![]))
    });
    assert_eq!(
        result.unwrap().trait_name,
        CallPath {
            prefixes: None,
            suffix: ident("r#Self"),
            is_absolute: false,
            span: span(30),
        }
    );
    assert_eq!(errors, vec![CompileError::Reported(1)]);
}

#[test]
fn an_error_about_an_item_refuses_the_block() {
    let items = vec![ImplItem::Fn(FunctionDeclaration { key: 1 })];
    let check =
        |cx: &mut Session| {
            TyImplTrait::type_check_impl_self(cx, &context(), &self_block(items.clone()))
        };
    let mut replies = self_head(Some("Data"), None);
    replies.push(failed(3));
    let (result, errors, _) = replay(replies, check);
    assert_eq!(result, Err(ErrorEmitted));
    assert_eq!(errors, vec![CompileError::Reported(3)]);
    let mut replies = self_head(Some("Data"), None);
    replies.append(&mut vec![
        a_function(function("run")),
        a_decl_ref("run", 100),
        a_function(function("run")),
        failed(4),
        a_function(function("run")),
        a_function(function("run")),
        done(),
    ]);
    let (result, errors, _) = replay(replies, check);
    assert_eq!(result, Err(ErrorEmitted));
    assert_eq!(errors, vec![CompileError::Reported(4)]);
}

#[test]
fn a_constant_that_cannot_be_made_known_ends_the_block() {
    let items = vec![
        ImplItem::Constant(ConstantDeclaration { key: 1 }),
        ImplItem::Fn(FunctionDeclaration { key: 2 }),
    ];
    let mut replies = self_head(Some("Data"), None);
    replies.append(&mut vec![
        a_constant(constant("ID", 1)),
        a_decl_ref("ID", 100),
        failed(4),
    ]);
    let (result, errors, _) = replay(replies, |cx| {
        TyImplTrait::type_check_impl_self(cx, &context(), &self_block(items.clone()))
    });
    assert_eq!(result, Err(ErrorEmitted));
    assert_eq!(errors, vec![CompileError::Reported(4)]);
}

#[test]
fn items_left_out_can_put_the_bodies_out_of_step() {
    let items = vec![
        ImplItem::Fn(FunctionDeclaration { key: 1 }),
        ImplItem::Type(TraitTypeDeclaration { key: 2 }),
    ];
    let mut replies = self_head(Some("Data"), None);
    replies.append(&mut vec![
        failed(3),
        an_associated(associated("Item", 1)),
        a_decl_ref("Item", 100),
    ]);
    let mut cx = Session::new(queue(replies));
    let result =
        TyImplTrait::type_check_impl_self(&mut cx, &context(), &self_block(items));
    assert_eq!(result, None);
    assert_eq!(cx.stop(), &Stop::Contradiction);
}

#[test]
fn the_items_of_an_impl_block_are_finished_in_place() {
    let mut checked = TyImplTrait {
        impl_type_parameters: vec![],
        trait_name: path("Test"),
        trait_type_arguments: vec![],
        items: vec![TyTraitItem::Fn(decl_ref("a", 1)), TyTraitItem::Type(decl_ref("b", 2))],
        trait_decl_ref: None,
        implementing_for: argument(30),
        span: span(81),
    };
    let new = |id: u64| Answer::Item(TyTraitItem::Fn(decl_ref("n", id)));
    let mut cx = Session::new(queue(vec![
        reply(new(5)),
        Reply { errors: vec![3], warnings: vec![4], answer: new(6) },
    ]));
    let result = checked.type_check_finalize(&mut cx, &context());
    assert_eq!(result, Some(Err(ErrorEmitted)));
    assert_eq!(
        checked.items,
        vec![TyTraitItem::Fn(decl_ref("n", 5)), TyTraitItem::Fn(decl_ref("n", 6))]
    );
    assert_eq!(cx.errors(), &vec![CompileError::Reported(3)]);
    assert_eq!(cx.warnings(), &vec![CompileWarning::Reported(4)]);
    let mut cx = Session::new(queue(vec![reply(new(7)), reply(new(8))]));
    assert_eq!(checked.type_check_finalize(&mut cx, &context()), Some(Ok(())));
    assert_eq!(checked.trait_name, path("Test"));
}
