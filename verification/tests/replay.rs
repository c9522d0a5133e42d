use std::collections::VecDeque;
use sway_traits::diagnostics::{CompileError, CompileWarning, ErrorEmitted};
use sway_traits::generics::check_for_unconstrained_type_parameters;
use sway_traits::ident::Span;
use sway_traits::session::{Answer, Generic, Reply, Session, Stop};
use sway_traits::types::{TypeId, TypeParameter};

fn span(start: u64) -> Span {
    Span { source: 1, start, end: start + 1 }
}

fn ty(index: u64) -> TypeId {
    TypeId { index }
}

fn parameter(index: u64) -> TypeParameter {
    TypeParameter { type_id: ty(index), span: span(index), is_from_parent: false, key: index }
}

fn reply(answer: Answer) -> Reply {
    Reply { errors: vec![], warnings: vec![], answer }
}

fn failed(error: u64) -> Reply {
    Reply { errors: vec![error], warnings: vec![], answer: Answer::Failed }
}

fn done() -> Reply {
    reply(Answer::Done)
}

fn queue(replies: Vec<Reply>) -> VecDeque<Reply> {
    let mut queue: VecDeque<Reply> = VecDeque::new();
    for reply in replies {
        queue.push_back(reply);
    }
    queue
}

fn check(cx: &mut Session) -> Option<Result<(), ErrorEmitted>> {
    check_for_unconstrained_type_parameters(
        cx,
        &vec![parameter(1), parameter(2)],
        &vec![],
        ty(4),
    )
}

fn replies() -> Vec<Reply> {
    vec![
        Reply {
            errors: vec![1],
            warnings: vec![2],
            answer: Answer::Generic(Generic { key: 100, text: "T".to_string() }),
        },
        reply(Answer::Generic(Generic { key: 200, text: "F".to_string() })),
        Reply { errors: vec![3], warnings: vec![], answer: Answer::Generics(vec![200]) },
    ]
}

#[test]
fn more_replies_change_nothing_that_was_done() {
    let mut short = Session::new(queue(replies()));
    let mut all = replies();
    all.push(done());
    all.push(failed(9));
    let mut long = Session::new(queue(all));
    assert_eq!(check(&mut short), check(&mut long));
    assert_eq!(short.errors(), long.errors());
    assert_eq!(short.warnings(), long.warnings());
    assert_eq!(short.unread(), 0);
    assert_eq!(long.unread(), 2);
    assert_eq!(long.stop(), &Stop::Running);
}

#[test]
fn errors_come_behind_those_that_were_there() {
    let mut cx = Session::new(queue(replies()));
    cx.emit_err(CompileError::Reported(50));
    assert_eq!(check(&mut cx), Some(Err(ErrorEmitted)));
    assert_eq!(
        cx.errors(),
        &vec![
            CompileError::Reported(50),
            CompileError::Reported(1),
            CompileError::Reported(3),
            CompileError::UnconstrainedGenericParameter { ty: "T".to_string(), span: span(1) },
        ]
    );
    assert_eq!(cx.warnings(), &vec![CompileWarning::Reported(2)]);
}

#[test]
fn a_check_asks_only_when_all_replies_are_read() {
    for n in 0..3 {
        let mut cx = Session::new(queue(replies().into_iter().take(n).collect()));
        assert_eq!(check(&mut cx), None);
        assert_eq!(cx.unread(), 0);
        assert!(matches!(cx.stop(), Stop::Asking(_)));
    }
}
