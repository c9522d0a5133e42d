//! The parts of a check are steady: they read the replies in order, take back nothing that
//! was emitted, stop only where they must, and what they did stays the same when more
//! replies are added behind those they read.
use crate::diagnostics::{CompileWarning, ErrorEmitted, ErrorView};
use crate::session::{ask, ask_quietly, run, Answer, QueryView, Reply, Run, StopView, World};
use vstd::prelude::*;

verus! {

/// Whether between two states one query was asked for each reply that was read, and none
/// asked before is forgotten.
#[verifier::opaque]
pub open spec fn asked_since(before: World, after: World) -> bool {
    &&& before.asked.is_prefix_of(after.asked)
    &&& after.asked.len() - before.asked.len() == before.replies.len() - after.replies.len()
}

/// Whether one state can come after another: replies were read from the front, one for each
/// query that was asked in between, and nothing that was asked or emitted is gone.
pub open spec fn later(before: World, after: World) -> bool {
    &&& after.replies.len() <= before.replies.len()
    &&& after.replies == before.replies.skip(before.replies.len() - after.replies.len())
    &&& asked_since(before, after)
    &&& before.errors.is_prefix_of(after.errors)
    &&& before.warnings.is_prefix_of(after.warnings)
}

/// Whether a part of a check comes after a state. It keeps the state running if it comes to
/// its end, and stops it for a reason if not. It asks only when all replies are read.
pub open spec fn follows<T>(before: World, after: Run<T>) -> bool {
    &&& later(before, after.world)
    &&& after.value is Some ==> after.world.stop == before.stop
    &&& after.value is None ==> !(after.world.stop is Running)
    &&& after.value is None && after.world.stop is Asking ==> after.world.replies.len() == 0
}

/// The same state with more replies behind those that are there.
pub open spec fn grown(world: World, extra: Seq<Reply>) -> World {
    World { replies: world.replies + extra, ..world }
}

/// Whether the query that one state was stopped at is the next that was asked on the way to
/// another.
#[verifier::opaque]
pub open spec fn asked_next(stopped: World, after: World) -> bool {
    &&& stopped.asked.push(stopped.stop->Asking_0).is_prefix_of(after.asked)
}

/// Whether a part of a check, `short` on the replies that are there and `long` on some more,
/// comes after the state it started from, and comes to the same both times unless it stopped
/// for want of a reply. In that case the query that it stopped at is the next it asks if there
/// are more replies.
pub open spec fn steady<T>(world: World, extra: Seq<Reply>, short: Run<T>, long: Run<T>) -> bool {
    &&& follows(world, short)
    &&& short.value is None && short.world.stop is Asking || long == run(
        grown(short.world, extra),
        short.value,
    )
    &&& short.value is None && short.world.stop is Asking && extra.len() > 0 ==> asked_next(
        short.world,
        long.world,
    )
}

/// Whether each reply that tells of a failure comes with an error.
pub open spec fn honest(world: World) -> bool {
    forall|i: int|
        0 <= i < world.replies.len() && (#[trigger] world.replies[i]).answer is Failed
            ==> world.replies[i].errors@.len() > 0
}

/// Whether a refusal comes with an error, provided the refusals in the replies do.
pub open spec fn accounts<T>(before: World, after: Run<Result<T, ErrorEmitted>>) -> bool {
    honest(before) && after.value is Some && after.value->0 is Err ==> after.world.errors.len()
        > before.errors.len()
}

/// Steady, and a refusal comes with an error.
pub open spec fn steady_result<T>(
    world: World,
    extra: Seq<Reply>,
    short: Run<Result<T, ErrorEmitted>>,
    long: Run<Result<T, ErrorEmitted>>,
) -> bool {
    &&& steady(world, extra, short, long)
    &&& accounts(world, short)
}

/// Each state comes after itself.
pub broadcast proof fn lemma_later_reflexive(world: World)
    ensures
        #[trigger] later(world, world),
{
    reveal(asked_since);
    assert(world.replies =~= world.replies.skip(0));
}

/// What comes after a later state is later still.
pub broadcast proof fn lemma_later_transitive(a: World, b: World, c: World)
    requires
        #[trigger] later(a, b),
        #[trigger] later(b, c),
    ensures
        later(a, c),
{
    reveal(asked_since);
    assert(c.replies =~= a.replies.skip(a.replies.len() - c.replies.len()));
    assert forall|i: int| 0 <= i < a.asked.len() implies a.asked[i] == c.asked[i] by {
        assert(b.asked[i] == c.asked[i]);
    }
    assert forall|i: int| 0 <= i < a.errors.len() implies a.errors[i] == c.errors[i] by {
        assert(b.errors[i] == c.errors[i]);
    }
    assert forall|i: int| 0 <= i < a.warnings.len() implies a.warnings[i] == c.warnings[i] by {
        assert(b.warnings[i] == c.warnings[i]);
    }
}

/// The replies left are as honest as all of them.
pub broadcast proof fn lemma_honest(before: World, after: World)
    requires
        #[trigger] later(before, after),
        honest(before),
    ensures
        #[trigger] honest(after),
{
    let read = before.replies.len() - after.replies.len();
    assert forall|i: int|
        0 <= i < after.replies.len() && (
        #[trigger] after.replies[i]).answer is Failed implies after.replies[i].errors@.len()
        > 0 by {
        assert(after.replies[i] == before.replies[read + i]);
    }
}

/// What was asked next stays asked.
pub broadcast proof fn lemma_asked_next(stopped: World, before: World, after: World)
    requires
        #[trigger] asked_next(stopped, before),
        #[trigger] later(before, after),
    ensures
        asked_next(stopped, after),
{
    reveal(asked_next);
    reveal(asked_since);
    let asked = stopped.asked.push(stopped.stop->Asking_0);
    assert forall|i: int| 0 <= i < asked.len() implies asked[i] == after.asked[i] by {
        assert(before.asked[i] == after.asked[i]);
    }
}

/// Asking comes after.
pub broadcast proof fn lemma_ask_follows(world: World, query: QueryView)
    ensures
        follows(world, #[trigger] ask(world, query)),
{
    lemma_ask(world, Seq::empty(), query);
}

/// Asking quietly comes after.
pub broadcast proof fn lemma_ask_quietly_follows(world: World, query: QueryView)
    ensures
        follows(world, #[trigger] ask_quietly(world, query)),
{
    lemma_ask_quietly(world, Seq::empty(), query);
}

/// Stopping comes after.
pub broadcast proof fn lemma_stopped(world: World, stop: StopView)
    ensures
        later(world, #[trigger] world.stopped(stop)),
{
    reveal(asked_since);
    assert(world.stopped(stop).replies =~= world.replies.skip(0));
}

/// Emitting an error comes after.
pub broadcast proof fn lemma_emit(world: World, error: ErrorView)
    ensures
        later(world, #[trigger] world.emit(error)),
{
    reveal(asked_since);
    assert(world.emit(error).replies =~= world.replies.skip(0));
}

/// Emitting errors comes after.
pub broadcast proof fn lemma_emit_all(world: World, errors: Seq<ErrorView>)
    ensures
        later(world, #[trigger] world.emit_all(errors)),
{
    reveal(asked_since);
    assert(world.emit_all(errors).replies =~= world.replies.skip(0));
}

/// Emitting a warning comes after.
pub broadcast proof fn lemma_warn(world: World, warning: CompileWarning)
    ensures
        later(world, #[trigger] world.warn(warning)),
{
    reveal(asked_since);
    assert(world.warn(warning).replies =~= world.replies.skip(0));
}

/// More replies do not touch an error that is emitted.
pub broadcast proof fn lemma_emit_grown(world: World, extra: Seq<Reply>, error: ErrorView)
    ensures
        #[trigger] grown(world, extra).emit(error) == grown(world.emit(error), extra),
{
}

/// More replies do not touch errors that are emitted.
pub broadcast proof fn lemma_emit_all_grown(world: World, extra: Seq<Reply>, errors: Seq<ErrorView>)
    ensures
        #[trigger] grown(world, extra).emit_all(errors) == grown(world.emit_all(errors), extra),
{
}

/// More replies do not touch a warning that is emitted.
pub broadcast proof fn lemma_warn_grown(world: World, extra: Seq<Reply>, warning: CompileWarning)
    ensures
        #[trigger] grown(world, extra).warn(warning) == grown(world.warn(warning), extra),
{
}

/// Asking is steady, and a failure that is reported counts as an error.
pub broadcast proof fn lemma_ask(world: World, extra: Seq<Reply>, query: QueryView)
    ensures
        steady(world, extra, ask(world, query), #[trigger] ask(grown(world, extra), query)),
        honest(world) && ask(world, query).value == Some(Answer::Failed) ==> ask(
            world,
            query,
        ).world.errors.len() > world.errors.len(),
{
    reveal(asked_since);
    let after = ask(world, query);
    let long = grown(world, extra);
    if world.replies.len() == 0 {
        assert(after.world.replies =~= world.replies.skip(0));
        reveal(asked_next);
    } else {
        assert(after.world.replies =~= world.replies.skip(1));
        assert(world.replies[0].answer == after.value->0);
        assert(long.replies.drop_first() =~= world.replies.drop_first() + extra);
        assert(long.replies[0] == world.replies[0]);
    }
}

/// Asking quietly is steady.
pub broadcast proof fn lemma_ask_quietly(world: World, extra: Seq<Reply>, query: QueryView)
    ensures
        steady(
            world,
            extra,
            ask_quietly(world, query),
            #[trigger] ask_quietly(grown(world, extra), query),
        ),
{
    reveal(asked_since);
    let after = ask_quietly(world, query);
    let long = grown(world, extra);
    if world.replies.len() == 0 {
        assert(after.world.replies =~= world.replies.skip(0));
        reveal(asked_next);
    } else {
        assert(after.world.replies =~= world.replies.skip(1));
        assert(long.replies.drop_first() =~= world.replies.drop_first() + extra);
        assert(long.replies[0] == world.replies[0]);
    }
}

/// What shows that a part of a check is steady if the parts it is made of are.
pub broadcast group group_steady {
    lemma_later_reflexive,
    lemma_later_transitive,
    lemma_honest,
    lemma_stopped,
    lemma_emit,
    lemma_emit_all,
    lemma_warn,
    lemma_emit_grown,
    lemma_emit_all_grown,
    lemma_warn_grown,
    lemma_ask,
    lemma_ask_quietly,
    lemma_asked_next,
    lemma_ask_follows,
    lemma_ask_quietly_follows,
}

} // verus!
