use std::collections::VecDeque;
use sway_traits::decl::{
    Decl, DeclRef, FunctionDeclaration, Purity, TyAbiDecl, TyConstantDecl, TyDecl, TyFunctionDecl,
    TyTraitDecl, TyTraitFn, TyTraitItem, TyTraitType,
};
use sway_traits::diagnostics::{CompileError, CompileWarning, ErrorEmitted};
use sway_traits::ident::{Ident, Span};
use sway_traits::session::{Answer, Generic, Query, Reply, Session, Stop};
use sway_traits::types::{TypeArgument, TypeId, TypeInfo};

fn span() -> Span {
    Span { source: 1, start: 2, end: 3 }
}

fn ident(name: &str) -> Ident {
    Ident { name: name.to_string(), span: span() }
}

fn argument(index: u64) -> TypeArgument {
    TypeArgument { type_id: TypeId { index }, span: span(), key: 0 }
}

fn session(answers: Vec<Answer>) -> Session {
    let mut replies: VecDeque<Reply> = VecDeque::new();
    for answer in answers {
        replies.push_back(Reply { errors: vec![], warnings: vec![], answer });
    }
    Session::new(replies)
}

fn query() -> Query {
    Query::ErrorFunction { parsed: FunctionDeclaration { key: 4 } }
}

#[test]
fn without_a_reply_the_query_is_left_behind() {
    let mut cx = session(vec![]);
    assert_eq!(cx.ask(Query::InsertType { info: TypeInfo::Unknown }), None);
    assert_eq!(cx.stop(), &Stop::Asking(Query::InsertType { info: TypeInfo::Unknown }));
    let mut cx = session(vec![]);
    assert_eq!(cx.ask_quietly(query()), None);
    assert_eq!(cx.stop(), &Stop::Asking(query()));
}

#[test]
fn errors_and_warnings_come_with_a_reply() {
    let mut replies: VecDeque<Reply> = VecDeque::new();
    replies.push_back(Reply { errors: vec![7, 8], warnings: vec![9], answer: Answer::Done });
    replies.push_back(Reply { errors: vec![1], warnings: vec![2], answer: Answer::Failed });
    let mut cx = Session::new(replies);
    assert_eq!(cx.unread(), 2);
    cx.emit_err(CompileError::Reported(5));
    assert_eq!(cx.ask_outcome(query()), Some(Ok(())));
    assert_eq!(cx.ask_outcome_quietly(query()), Some(Err(ErrorEmitted)));
    assert_eq!(
        cx.errors(),
        &vec![CompileError::Reported(5), CompileError::Reported(7), CompileError::Reported(8)]
    );
    assert_eq!(cx.warnings(), &vec![CompileWarning::Reported(9)]);
    assert_eq!(cx.error_count(), 3);
    assert_eq!(cx.unread(), 0);
    assert_eq!(cx.stop(), &Stop::Running);
}

#[test]
fn an_error_inside_a_scope_makes_it_an_error() {
    let mut cx = session(vec![]);
    let before = cx.error_count();
    assert_eq!(cx.close_scope(before, Ok(3)), Ok(3));
    assert_eq!(cx.close_scope::<u8>(before, Err(ErrorEmitted)), Err(ErrorEmitted));
    cx.emit_err(CompileError::Reported(1));
    assert_eq!(cx.close_scope(before, Ok(3)), Err(ErrorEmitted));
}

#[test]
fn contradicting_answers_stop_a_check() {
    let mut cx = session(vec![]);
    assert_eq!(cx.stop_contradiction::<u8>(), None);
    assert_eq!(cx.stop(), &Stop::Contradiction);
}

#[test]
fn each_kind_of_answer_is_read() {
    let function = TyFunctionDecl {
        name: ident("f"),
        parameters: vec![],
        parameters_span: span(),
        return_type: argument(1),
        purity: Purity::Pure,
        payable: false,
        type_parameters: vec![],
        span: span(),
        key: 0,
    };
    let constant =
        TyConstantDecl { name: ident("C"), type_ascription: argument(1), span: span(), key: 0 };
    let ty = TyTraitType { name: ident("T"), ty: None, key: 0 };
    let method = TyTraitFn {
        name: ident("m"),
        parameters: vec![],
        return_type: argument(1),
        purity: Purity::Reads,
        payable: true,
        key: 0,
    };
    let decl_ref = DeclRef { name: ident("f"), id: 8, span: span() };
    let abi = TyAbiDecl {
        name: ident("A"),
        interface_surface: vec![],
        items: vec![],
        supertraits: vec![],
        span: span(),
        key: 0,
    };
    let trait_decl = TyTraitDecl {
        name: ident("A"),
        type_parameters: vec![],
        interface_surface: vec![],
        items: vec![],
        supertraits: vec![],
        span: span(),
        key: 0,
    };
    let generic = Generic { key: 3, text: "T".to_string() };
    assert_eq!(session(vec![Answer::Done]).ask_done(query()), Some(()));
    assert_eq!(session(vec![Answer::Flag(true)]).ask_flag(query()), Some(true));
    assert_eq!(session(vec![Answer::Namespace(6)]).ask_namespace(query()), Some(6));
    let t = TypeId { index: 4 };
    assert_eq!(session(vec![Answer::Type(t)]).ask_type(query()), Some(t));
    assert_eq!(session(vec![Answer::Type(t)]).ask_resolved_type(query()), Some(Ok(t)));
    assert_eq!(
        session(vec![Answer::Text("u8".to_string())]).ask_text(query()),
        Some("u8".to_string())
    );
    assert_eq!(session(vec![Answer::Name(None)]).ask_name(query()), Some(None));
    assert_eq!(
        session(vec![Answer::Generic(generic.clone())]).ask_generic(query()),
        Some(generic)
    );
    assert_eq!(session(vec![Answer::Generics(vec![1, 2])]).ask_generics(query()), Some(vec![1, 2]));
    assert_eq!(
        session(vec![Answer::TypeParameters(vec![])]).ask_type_parameters(query()),
        Some(Ok(vec![]))
    );
    let symbol = TyDecl::TraitDecl { decl_id: 2 };
    assert_eq!(
        session(vec![Answer::Symbol(symbol.clone())]).ask_symbol(query()),
        Some(Ok(symbol.clone()))
    );
    assert_eq!(
        session(vec![Answer::MaybeSymbol(Some(symbol.clone()))]).ask_maybe_symbol(query()),
        Some(Some(symbol))
    );
    assert_eq!(
        session(vec![Answer::Trait(trait_decl.clone())]).ask_trait(query()),
        Some(trait_decl.clone())
    );
    assert_eq!(session(vec![Answer::Abi(abi.clone())]).ask_abi(query()), Some(abi));
    assert_eq!(
        session(vec![Answer::Monomorphized(trait_decl.clone(), vec![argument(2)])])
            .ask_monomorphized(query()),
        Some(Ok((trait_decl, vec![argument(2)])))
    );
    assert_eq!(session(vec![Answer::Items(vec![])]).ask_items(query()), Some(vec![]));
    let item = TyTraitItem::Fn(decl_ref.clone());
    assert_eq!(session(vec![Answer::Item(item.clone())]).ask_item(query()), Some(item));
    assert_eq!(
        session(vec![Answer::DeclRef(decl_ref.clone())]).ask_decl_ref(query()),
        Some(decl_ref)
    );
    let answer = || Answer::Decl(Decl::Function(function.clone()));
    assert_eq!(session(vec![answer()]).ask_function(query()), Some(function.clone()));
    assert_eq!(session(vec![answer()]).ask_checked_function(query()), Some(Ok(function.clone())));
    let answer = || Answer::Decl(Decl::Constant(constant.clone()));
    assert_eq!(session(vec![answer()]).ask_constant(query()), Some(constant.clone()));
    assert_eq!(session(vec![answer()]).ask_checked_constant(query()), Some(Ok(constant.clone())));
    let answer = || Answer::Decl(Decl::TraitType(ty.clone()));
    assert_eq!(session(vec![answer()]).ask_trait_type(query()), Some(ty.clone()));
    assert_eq!(session(vec![answer()]).ask_checked_trait_type(query()), Some(Ok(ty.clone())));
    let answer = || Answer::Decl(Decl::TraitFn(method.clone()));
    assert_eq!(session(vec![answer()]).ask_trait_fn(query()), Some(method.clone()));
    assert_eq!(session(vec![answer()]).ask_checked_trait_fn(query()), Some(Ok(method.clone())));
}

#[test]
fn a_refusal_is_read_where_one_can_come() {
    let refused = || session(vec![Answer::Failed]);
    assert_eq!(refused().ask_outcome(query()), Some(Err(ErrorEmitted)));
    assert_eq!(refused().ask_resolved_type(query()), Some(Err(ErrorEmitted)));
    assert_eq!(refused().ask_type_parameters(query()), Some(Err(ErrorEmitted)));
    assert_eq!(refused().ask_symbol(query()), Some(Err(ErrorEmitted)));
    assert_eq!(refused().ask_monomorphized(query()), Some(Err(ErrorEmitted)));
    assert_eq!(refused().ask_checked_function(query()), Some(Err(ErrorEmitted)));
    assert_eq!(refused().ask_checked_constant(query()), Some(Err(ErrorEmitted)));
    assert_eq!(refused().ask_checked_trait_type(query()), Some(Err(ErrorEmitted)));
    assert_eq!(refused().ask_checked_trait_fn(query()), Some(Err(ErrorEmitted)));
}

#[test]
fn an_answer_of_the_wrong_kind_stops_a_check() {
    let mut cx = session(vec![Answer::Flag(false)]);
    assert_eq!(cx.ask_type(query()), None);
    assert_eq!(cx.stop(), &Stop::Misfit);
    let mut cx = session(vec![Answer::Failed]);
    assert_eq!(cx.ask_function(query()), None);
    assert_eq!(cx.stop(), &Stop::Misfit);
    let mut cx = session(vec![Answer::Decl(Decl::TraitType(TyTraitType {
        name: ident("T"),
        ty: None,
        key: 0,
    }))]);
    assert_eq!(cx.ask_constant(query()), None);
    assert_eq!(cx.stop(), &Stop::Misfit);
    let mut cx = session(vec![Answer::Text("x".to_string())]);
    assert_eq!(cx.ask_outcome_quietly(query()), None);
    assert_eq!(cx.stop(), &Stop::Misfit);
}
