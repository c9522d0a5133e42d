use std::collections::VecDeque;
use sway_traits::diagnostics::{CompileError, CompileWarning, ErrorEmitted};
use sway_traits::generics::check_for_unconstrained_type_parameters;
use sway_traits::ident::Span;
use sway_traits::session::{Answer, Generic, Query, Reply, Session, Stop};
use sway_traits::types::{TypeArgument, TypeId, TypeParameter};

fn span(start: u64) -> Span {
    Span { source: 1, start, end: start + 1 }
}

fn ty(index: u64) -> TypeId {
    TypeId { index }
}

fn argument(index: u64) -> TypeArgument {
    TypeArgument { type_id: ty(index), span: span(index), key: index }
}

fn parameter(index: u64) -> TypeParameter {
    TypeParameter { type_id: ty(index), span: span(index), is_from_parent: false, key: index }
}

fn reply(answer: Answer) -> Reply {
    Reply { errors: vec![], warnings: vec![], answer }
}

fn queue(replies: Vec<Reply>) -> VecDeque<Reply> {
    let mut queue: VecDeque<Reply> = VecDeque::new();
    for reply in replies {
        queue.push_back(reply);
    }
    queue
}

fn drive<T>(
    script: Vec<(Query, Reply)>,
    check: impl Fn(&mut Session) -> Option<T>,
) -> (T, Vec<CompileError>, Vec<CompileWarning>) {
    let mut given: Vec<Reply> = vec![];
    for (query, reply) in script {
        let mut cx = Session::new(queue(given.clone()));
        assert!(check(&mut cx).is_none(), "{:?} was not asked", query);
        assert_eq!(cx.stop(), &Stop::Asking(query));
        given.push(reply);
    }
    let mut cx = Session::new(queue(given));
    let value = check(&mut cx);
    assert_eq!(cx.stop(), &Stop::Running);
    assert_eq!(cx.unread(), 0);
    (value.unwrap(), cx.errors().clone(), cx.warnings().clone())
}

fn replay<T>(
    replies: Vec<Reply>,
    check: impl Fn(&mut Session) -> Option<T>,
) -> (T, Vec<CompileError>, Vec<CompileWarning>) {
    let mut cx = Session::new(queue(replies));
    let value = check(&mut cx);
    assert_eq!(cx.stop(), &Stop::Running);
    assert_eq!(cx.unread(), 0);
    (value.unwrap(), cx.errors().clone(), cx.warnings().clone())
}

fn generic(key: u64, text: &str) -> Reply {
    reply(Answer::Generic(Generic { key, text: text.to_string() }))
}

fn generics(keys: Vec<u64>) -> Reply {
    reply(Answer::Generics(keys))
}

/// `impl<T, F> Test<T> for FooBarData<F>`
#[test]
fn type_parameters_that_are_used_pass() {
    let (result, errors, _) = drive(
        vec![
            (Query::DescribeGeneric { type_id: ty(1) }, generic(100, "T")),
            (Query::DescribeGeneric { type_id: ty(2) }, generic(200, "F")),
            (Query::NestedGenerics { type_id: ty(3) }, generics(vec![100])),
            (Query::NestedGenerics { type_id: ty(4) }, generics(vec![200])),
        ],
        |cx| {
            check_for_unconstrained_type_parameters(
                cx,
                &vec![parameter(1), parameter(2)],
                &vec![argument(3)],
                ty(4),
            )
        },
    );
    assert_eq!(result, Ok(()));
    assert_eq!(errors, vec![]);
}

/// `impl<T, F> Test for FooBarData<F>`
#[test]
fn a_type_parameter_that_is_not_used_is_unconstrained() {
    let (result, errors, _) = drive(
        vec![
            (Query::DescribeGeneric { type_id: ty(1) }, generic(100, "T")),
            (Query::DescribeGeneric { type_id: ty(2) }, generic(200, "F")),
            (Query::NestedGenerics { type_id: ty(4) }, generics(vec![200])),
        ],
        |cx| {
            check_for_unconstrained_type_parameters(
                cx,
                &vec![parameter(1), parameter(2)],
                &vec![],
                ty(4),
            )
        },
    );
    assert_eq!(result, Err(ErrorEmitted));
    assert_eq!(
        errors,
        vec![CompileError::UnconstrainedGenericParameter { ty: "T".to_string(), span: span(1) }]
    );
}

#[test]
fn each_unconstrained_type_parameter_is_an_error() {
    let (result, errors, _) = replay(
        vec![generic(9, "A"), generic(3, "B"), generic(5, "C"), generics(vec![5, 70])],
        |cx| {
            check_for_unconstrained_type_parameters(
                cx,
                &vec![parameter(1), parameter(2), parameter(3)],
                &vec![],
                ty(4),
            )
        },
    );
    assert_eq!(result, Err(ErrorEmitted));
    assert_eq!(
        errors,
        vec![
            CompileError::UnconstrainedGenericParameter { ty: "B".to_string(), span: span(2) },
            CompileError::UnconstrainedGenericParameter { ty: "A".to_string(), span: span(1) },
        ]
    );
}

#[test]
fn one_generic_type_is_one_error_at_its_last_parameter() {
    let (result, errors, _) = replay(
        vec![generic(9, "A"), generic(9, "A"), generics(vec![])],
        |cx| {
            check_for_unconstrained_type_parameters(
                cx,
                &vec![parameter(1), parameter(2)],
                &vec![],
                ty(4),
            )
        },
    );
    assert_eq!(result, Err(ErrorEmitted));
    assert_eq!(
        errors,
        vec![CompileError::UnconstrainedGenericParameter { ty: "A".to_string(), span: span(2) }]
    );
}

#[test]
fn no_type_parameters_are_all_used() {
    let (result, errors, _) = replay(vec![generics(vec![1, 1])], |cx| {
        check_for_unconstrained_type_parameters(cx, &vec![], &vec![], ty(4))
    });
    assert_eq!(result, Ok(()));
    assert_eq!(errors, vec![]);
}
