//! How answers are read, what emitting adds, and what the contexts of queries differ in.
use crate::decl::Decl;
use crate::diagnostics::{CompileError, CompileWarning, ErrorEmitted, ErrorView};
use crate::ident::Ident;
use crate::session::{
    chain, chain_ok, reported_errors, reported_warnings, run, to_abi, to_checked_constant,
    to_checked_function, to_checked_trait_fn, to_checked_trait_type, to_constant, to_decl_ref,
    to_done, to_flag, to_function, to_generic, to_generics, to_item, to_items, to_maybe_symbol,
    to_monomorphized, to_name, to_namespace, to_outcome, to_resolved_type, to_symbol, to_text,
    to_trait, to_trait_fn, to_trait_type, to_type, to_type_parameters, AbiMode, Answer,
    ConstShadowingMode, ContextView, Reply, Run, StopView, World,
};
use crate::types::TypeId;
use vstd::prelude::*;

verus! {

/// Whether an answer was read as what it brings. Where it brings nothing that was asked for,
/// the check stops, and nothing else is touched; where there is no answer it stays stopped.
pub open spec fn read_as<T>(asked: Run<Answer>, brings: Option<T>, after: Run<T>) -> bool {
    &&& asked.value is Some && brings is Some ==> after.value == brings && after.world
        == asked.world
    &&& asked.value is Some && brings is None ==> after.value is None && after.world == (World {
        stop: StopView::Misfit,
        ..asked.world
    })
    &&& asked.value is None ==> after.value is None && after.world == asked.world
}

/// An answer is read as what it brings, and an answer of any other kind stops the check.
pub proof fn law_plain_readings(asked: Run<Answer>)
    ensures
        read_as(
            asked,
            if let Some(Answer::Done) = asked.value {
                Some(())
            } else {
                None
            },
            to_done(asked),
        ),
        read_as(
            asked,
            if let Some(Answer::Flag(flag)) = asked.value {
                Some(flag)
            } else {
                None
            },
            to_flag(asked),
        ),
        read_as(
            asked,
            if let Some(Answer::Namespace(namespace)) = asked.value {
                Some(namespace)
            } else {
                None
            },
            to_namespace(asked),
        ),
        read_as(
            asked,
            if let Some(Answer::Type(type_id)) = asked.value {
                Some(type_id)
            } else {
                None
            },
            to_type(asked),
        ),
        read_as(
            asked,
            if let Some(Answer::Text(text)) = asked.value {
                Some(text)
            } else {
                None
            },
            to_text(asked),
        ),
        read_as(
            asked,
            if let Some(Answer::Name(name)) = asked.value {
                Some(name)
            } else {
                None
            },
            to_name(asked),
        ),
        read_as(
            asked,
            if let Some(Answer::Generic(generic)) = asked.value {
                Some(generic)
            } else {
                None
            },
            to_generic(asked),
        ),
        read_as(
            asked,
            if let Some(Answer::Generics(keys)) = asked.value {
                Some(keys)
            } else {
                None
            },
            to_generics(asked),
        ),
        read_as(
            asked,
            if let Some(Answer::MaybeSymbol(decl)) = asked.value {
                Some(decl)
            } else {
                None
            },
            to_maybe_symbol(asked),
        ),
        read_as(
            asked,
            if let Some(Answer::Trait(decl)) = asked.value {
                Some(decl)
            } else {
                None
            },
            to_trait(asked),
        ),
        read_as(
            asked,
            if let Some(Answer::Abi(decl)) = asked.value {
                Some(decl)
            } else {
                None
            },
            to_abi(asked),
        ),
        read_as(
            asked,
            if let Some(Answer::Items(items)) = asked.value {
                Some(items)
            } else {
                None
            },
            to_items(asked),
        ),
        read_as(
            asked,
            if let Some(Answer::Item(item)) = asked.value {
                Some(item)
            } else {
                None
            },
            to_item(asked),
        ),
        read_as(
            asked,
            if let Some(Answer::DeclRef(decl_ref)) = asked.value {
                Some(decl_ref)
            } else {
                None
            },
            to_decl_ref(asked),
        ),
        read_as(
            asked,
            if let Some(Answer::Decl(Decl::Function(decl))) = asked.value {
                Some(decl)
            } else {
                None
            },
            to_function(asked),
        ),
        read_as(
            asked,
            if let Some(Answer::Decl(Decl::Constant(decl))) = asked.value {
                Some(decl)
            } else {
                None
            },
            to_constant(asked),
        ),
        read_as(
            asked,
            if let Some(Answer::Decl(Decl::TraitType(decl))) = asked.value {
                Some(decl)
            } else {
                None
            },
            to_trait_type(asked),
        ),
        read_as(
            asked,
            if let Some(Answer::Decl(Decl::TraitFn(decl))) = asked.value {
                Some(decl)
            } else {
                None
            },
            to_trait_fn(asked),
        ),
{
}

/// An answer that may be a refusal is read as what it brings or as an error, and an answer of
/// any other kind stops the check.
pub proof fn law_checked_readings(asked: Run<Answer>)
    ensures
        read_as(
            asked,
            if let Some(Answer::Done) = asked.value {
                Some(Ok(()))
            } else if asked.value == Some(Answer::Failed) {
                Some(Err(ErrorEmitted))
            } else {
                None
            },
            to_outcome(asked),
        ),
        read_as(
            asked,
            if let Some(Answer::Type(type_id)) = asked.value {
                Some(Ok(type_id))
            } else if asked.value == Some(Answer::Failed) {
                Some(Err(ErrorEmitted))
            } else {
                None
            },
            to_resolved_type(asked),
        ),
        read_as(
            asked,
            if let Some(Answer::TypeParameters(parameters)) = asked.value {
                Some(Ok(parameters))
            } else if asked.value == Some(Answer::Failed) {
                Some(Err(ErrorEmitted))
            } else {
                None
            },
            to_type_parameters(asked),
        ),
        read_as(
            asked,
            if let Some(Answer::Symbol(decl)) = asked.value {
                Some(Ok(decl))
            } else if asked.value == Some(Answer::Failed) {
                Some(Err(ErrorEmitted))
            } else {
                None
            },
            to_symbol(asked),
        ),
        read_as(
            asked,
            if let Some(Answer::Monomorphized(decl, arguments)) = asked.value {
                Some(Ok((decl, arguments)))
            } else if asked.value == Some(Answer::Failed) {
                Some(Err(ErrorEmitted))
            } else {
                None
            },
            to_monomorphized(asked),
        ),
        read_as(
            asked,
            if let Some(Answer::Decl(Decl::Function(decl))) = asked.value {
                Some(Ok(decl))
            } else if asked.value == Some(Answer::Failed) {
                Some(Err(ErrorEmitted))
            } else {
                None
            },
            to_checked_function(asked),
        ),
        read_as(
            asked,
            if let Some(Answer::Decl(Decl::Constant(decl))) = asked.value {
                Some(Ok(decl))
            } else if asked.value == Some(Answer::Failed) {
                Some(Err(ErrorEmitted))
            } else {
                None
            },
            to_checked_constant(asked),
        ),
        read_as(
            asked,
            if let Some(Answer::Decl(Decl::TraitType(decl))) = asked.value {
                Some(Ok(decl))
            } else if asked.value == Some(Answer::Failed) {
                Some(Err(ErrorEmitted))
            } else {
                None
            },
            to_checked_trait_type(asked),
        ),
        read_as(
            asked,
            if let Some(Answer::Decl(Decl::TraitFn(decl))) = asked.value {
                Some(Ok(decl))
            } else if asked.value == Some(Answer::Failed) {
                Some(Err(ErrorEmitted))
            } else {
                None
            },
            to_checked_trait_fn(asked),
        ),
{
}

/// One part of a check after another: the second starts in the state that the first ended in,
/// with what the first came to. It is left out if the first stopped, and, where the first may
/// be refused, if it was.
pub proof fn law_chain<A, B>(
    world: World,
    value: A,
    next: spec_fn(World, A) -> Run<B>,
    next_ok: spec_fn(World, A) -> Run<Result<B, ErrorEmitted>>,
)
    ensures
        chain(run(world, Some(value)), next) == next(world, value),
        chain(run(world, None::<A>), next) == run(world, None::<B>),
        chain_ok(run(world, Some(Ok::<A, ErrorEmitted>(value))), next_ok) == next_ok(world, value),
        chain_ok(run(world, Some(Err::<A, _>(ErrorEmitted))), next_ok) == run(
            world,
            Some(Err::<B, _>(ErrorEmitted)),
        ),
        chain_ok(run(world, None::<Result<A, ErrorEmitted>>), next_ok) == run(
            world,
            None::<Result<B, ErrorEmitted>>,
        ),
{
}

/// An error is emitted behind those before it, and nothing else changes. Several are emitted
/// in their order. A warning is no error.
pub proof fn law_emitting(
    world: World,
    error: ErrorView,
    plain: CompileError,
    errors: Seq<ErrorView>,
    warning: CompileWarning,
)
    ensures
        world.emit(error) == (World { errors: world.errors + seq![error], ..world }),
        world.emit_plain(plain) == world.emit(ErrorView::Plain(plain)),
        world.emit_all(errors) == (World { errors: world.errors + errors, ..world }),
        world.warn(warning) == (World { warnings: world.warnings + seq![warning], ..world }),
{
    assert(world.errors.push(error) =~= world.errors + seq![error]);
    assert(world.warnings.push(warning) =~= world.warnings + seq![warning]);
}

/// The errors and the warnings that come with a reply are emitted as reported ones, each once
/// and in their order.
pub proof fn law_reported(errors: Seq<u64>, warnings: Seq<u64>)
    ensures
        reported_errors(errors) == errors.map_values(
            |number: u64| ErrorView::Plain(CompileError::Reported(number)),
        ),
        reported_warnings(warnings) == warnings.map_values(
            |number: u64| CompileWarning::Reported(number),
        ),
{
}

/// A check starts with the replies it is given, and with nothing asked or emitted.
pub proof fn law_start(replies: Seq<Reply>)
    ensures
        ({
            let world = World::start(replies);
            &&& world.replies == replies
            &&& world.asked.len() == 0
            &&& world.errors.len() == 0
            &&& world.warnings.len() == 0
            &&& world.stop is Running
        }),
{
}

/// What one context differs in from another, and that it is the same in all else.
pub proof fn law_contexts(
    ctx: ContextView,
    namespace: u64,
    type_id: TypeId,
    type_subst: Seq<(TypeId, TypeId)>,
    name: Ident,
)
    ensures
        ctx.scoped(namespace) == (ContextView { namespace, ..ctx }),
        ctx.with_self_type(type_id) == (ContextView { self_type: type_id, ..ctx }),
        ctx.expecting(type_id) == (ContextView {
            type_annotation: type_id,
            help_text: None,
            ..ctx
        }),
        ctx.with_type_subst(type_subst) == (ContextView { type_subst, ..ctx }),
        ctx.with_abi(name) == (ContextView { abi_mode: AbiMode::ImplAbiFn(name), ..ctx }),
        ctx.in_impl_block() == (ContextView {
            const_shadowing_mode: ConstShadowingMode::ItemStyle,
            disallow_functions: false,
            ..ctx
        }),
        ctx.deferring() == (ContextView { defer_monomorphization: true, ..ctx }),
{
}

} // verus!
