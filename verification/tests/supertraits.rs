use std::collections::VecDeque;
use sway_traits::decl::{
    CallPath, DeclRef, Supertrait, TraitFn, TyDecl, TyTraitDecl, TyTraitInterfaceItem, TyTraitItem,
};
use sway_traits::diagnostics::{CompileError, CompileWarning};
use sway_traits::ident::{Ident, Span};
use sway_traits::ordered::SortedMap;
use sway_traits::session::{
    AbiMode, Answer, ConstShadowingMode, Context, Query, Reply, Session, Stop,
};
use sway_traits::supertraits::handle_supertraits;
use sway_traits::types::{TypeId, TypeParameter};

fn span(start: u64) -> Span {
    Span { source: 1, start, end: start + 1 }
}

fn ident(name: &str) -> Ident {
    Ident { name: name.to_string(), span: span(0) }
}

fn ty(index: u64) -> TypeId {
    TypeId { index }
}

fn parameter(index: u64) -> TypeParameter {
    TypeParameter { type_id: ty(index), span: span(index), is_from_parent: false, key: index }
}

fn path(name: &str) -> CallPath {
    CallPath { prefixes: None, suffix: ident(name), is_absolute: false, span: span(40) }
}

fn supertrait(name: &str) -> Supertrait {
    Supertrait { name: path(name), span: span(41), key: 0 }
}

fn decl_ref(name: &str, id: u64) -> DeclRef {
    DeclRef { name: ident(name), id, span: span(id) }
}

fn context() -> Context {
    Context {
        namespace: 1,
        self_type: ty(10),
        type_annotation: ty(11),
        help_text: Some(5),
        type_subst: SortedMap::new(),
        abi_mode: AbiMode::NonAbi,
        const_shadowing_mode: ConstShadowingMode::Sequential,
        disallow_functions: true,
        defer_monomorphization: false,
        key: 99,
    }
}

fn reply(answer: Answer) -> Reply {
    Reply { errors: vec![], warnings: vec![], answer }
}

fn failed(error: u64) -> Reply {
    Reply { errors: vec![error], warnings: vec![], answer: Answer::Failed }
}

fn queue(replies: Vec<Reply>) -> VecDeque<Reply> {
    let mut queue: VecDeque<Reply> = VecDeque::new();
    for reply in replies {
        queue.push_back(reply);
    }
    queue
}

fn drive<T>(
    script: Vec<(Query, Reply)>,
    check: impl Fn(&mut Session) -> Option<T>,
) -> (T, Vec<CompileError>, Vec<CompileWarning>) {
    let mut given: Vec<Reply> = vec![];
    for (query, reply) in script {
        let mut cx = Session::new(queue(given.clone()));
        assert!(check(&mut cx).is_none(), "{:?} was not asked", query);
        assert_eq!(cx.stop(), &Stop::Asking(query));
        given.push(reply);
    }
    let mut cx = Session::new(queue(given));
    let value = check(&mut cx);
    assert_eq!(cx.stop(), &Stop::Running);
    assert_eq!(cx.unread(), 0);
    (value.unwrap(), cx.errors().clone(), cx.warnings().clone())
}

fn replay<T>(
    replies: Vec<Reply>,
    check: impl Fn(&mut Session) -> Option<T>,
) -> (T, Vec<CompileError>, Vec<CompileWarning>) {
    let mut cx = Session::new(queue(replies));
    let value = check(&mut cx);
    assert_eq!(cx.stop(), &Stop::Running);
    assert_eq!(cx.unread(), 0);
    (value.unwrap(), cx.errors().clone(), cx.warnings().clone())
}

fn a_trait(supertraits: Vec<Supertrait>, item: &str, id: u64) -> TyTraitDecl {
    TyTraitDecl {
        name: ident("Super"),
        type_parameters: vec![],
        interface_surface: vec![TyTraitInterfaceItem::TraitFn(decl_ref(item, id))],
        items: vec![],
        supertraits,
        span: span(9),
        key: 77,
    }
}

fn found(decl: TyDecl) -> Reply {
    reply(Answer::Symbol(decl))
}

fn items(name: &str, id: u64) -> Reply {
    reply(Answer::Items(vec![TyTraitItem::Fn(decl_ref(name, id))]))
}

#[test]
fn no_supertraits_have_no_items() {
    let (result, errors, _) = drive(vec![], |cx| handle_supertraits(cx, &context(), &vec![]));
    let (interface_items, impld_items) = result.unwrap();
    assert!(interface_items.is_empty());
    assert!(impld_items.is_empty());
    assert_eq!(errors, vec![]);
}

#[test]
fn items_come_from_supertraits_and_from_theirs() {
    let resolve = |name: &str| Query::ResolveCallPath { ctx: context(), path: path(name) };
    let look_up = |name: &str| Query::ItemsForTypeAndTrait {
        ctx: context(),
        type_id: ty(10),
        trait_name: path(name),
    };
    let (result, errors, _) = drive(
        vec![
            (resolve("First"), found(TyDecl::TraitDecl { decl_id: 1 })),
            (
                Query::GetTrait { id: 1 },
                reply(Answer::Trait(a_trait(vec![supertrait("Third")], "a", 100))),
            ),
            (look_up("First"), items("a", 200)),
            (resolve("Third"), found(TyDecl::TraitDecl { decl_id: 3 })),
            (Query::GetTrait { id: 3 }, reply(Answer::Trait(a_trait(vec![], "a", 103)))),
            (look_up("Third"), items("c", 203)),
            (resolve("Second"), found(TyDecl::AbiDecl { decl_id: 2 })),
        ],
        |cx| handle_supertraits(cx, &context(), &vec![supertrait("First"), supertrait("Second")]),
    );
    let (interface_items, impld_items) = result.unwrap();
    assert_eq!(
        interface_items.values(),
        vec![TyTraitInterfaceItem::TraitFn(decl_ref("a", 103))]
    );
    assert_eq!(
        impld_items.values(),
        vec![TyTraitItem::Fn(decl_ref("a", 200)), TyTraitItem::Fn(decl_ref("c", 203))]
    );
    assert_eq!(errors, vec![]);
}

#[test]
fn a_supertrait_is_not_named_by_a_module_path() {
    let mut by_path = supertrait("Super");
    by_path.name.prefixes = Some(3);
    let (result, errors, _) = replay(vec![found(TyDecl::AbiDecl { decl_id: 2 })], |cx| {
        handle_supertraits(cx, &context(), &vec![by_path.clone(), supertrait("Abi")])
    });
    assert!(result.is_err());
    assert_eq!(
        errors,
        vec![CompileError::UnimplementedWithHelp(
            "Using module paths to define supertraits is not supported yet.",
            "try importing the trait with a \"use\" statement instead",
            span(41),
        )]
    );
}

#[test]
fn a_supertrait_is_not_generic() {
    let mut generic = a_trait(vec![], "a", 100);
    generic.type_parameters = vec![parameter(5)];
    let (result, errors, _) = replay(
        vec![found(TyDecl::TraitDecl { decl_id: 1 }), reply(Answer::Trait(generic))],
        |cx| handle_supertraits(cx, &context(), &vec![supertrait("Super")]),
    );
    assert!(result.is_err());
    assert_eq!(
        errors,
        vec![CompileError::Unimplemented(
            "Using generic traits as supertraits is not supported yet.",
            span(40),
        )]
    );
}

#[test]
fn a_supertrait_is_a_trait() {
    let not_found =
        || CompileError::TraitNotFound { name: "Super".to_string(), span: span(40) };
    let (result, errors, _) = replay(vec![found(TyDecl::Other { key: 1 })], |cx| {
        handle_supertraits(cx, &context(), &vec![supertrait("Super")])
    });
    assert!(result.is_err());
    assert_eq!(errors, vec![not_found()]);
    let (result, errors, _) = replay(vec![failed(3), failed(4)], |cx| {
        handle_supertraits(cx, &context(), &vec![supertrait("Super"), supertrait("Super")])
    });
    assert!(result.is_err());
    assert_eq!(
        errors,
        vec![
            CompileError::Reported(3),
            not_found(),
            CompileError::Reported(4),
            not_found(),
        ]
    );
}

#[test]
fn an_error_about_a_nested_supertrait_is_an_error() {
    let (result, errors, _) = replay(
        vec![
            found(TyDecl::TraitDecl { decl_id: 1 }),
            reply(Answer::Trait(a_trait(vec![supertrait("Gone")], "a", 100))),
            items("a", 200),
            failed(3),
        ],
        |cx| handle_supertraits(cx, &context(), &vec![supertrait("Super")]),
    );
    assert!(result.is_err());
    assert_eq!(
        errors,
        vec![
            CompileError::Reported(3),
            CompileError::TraitNotFound { name: "Gone".to_string(), span: span(40) },
        ]
    );
}
