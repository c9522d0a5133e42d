//! What is asked, and what is made of the replies.
use crate::diagnostics::ErrorEmitted;
use crate::session::{
    ask, ask_quietly, reported_errors, reported_warnings, scoped, Answer, QueryView, Run, StopView,
    World,
};
use vstd::prelude::*;

verus! {

impl World {
    /// The state after a query was asked and the next reply read as the answer to it.
    pub open spec fn hear(self, query: QueryView) -> World {
        ask(self, query).world
    }

    /// The state after a query was asked quietly and the next reply read as the answer to it.
    pub open spec fn hear_quietly(self, query: QueryView) -> World {
        ask_quietly(self, query).world
    }
}

/// Whether the next replies bring the given answers.
pub open spec fn answered(world: World, answers: Seq<Answer>) -> bool {
    &&& answers.len() <= world.replies.len()
    &&& forall|i: int|
        #![trigger world.replies[i]]
        #![trigger answers[i]]
        0 <= i < answers.len() ==> world.replies[i].answer == answers[i]
}

/// A query is answered by the next reply: the query is taken down behind those before it, and
/// the errors and warnings of the reply are emitted. Without a reply the check stops there,
/// and it is this query that it leaves behind.
pub proof fn law_ask(world: World, query: QueryView)
    ensures
        ({
            let after = ask(world, query);
            if world.replies.len() == 0 {
                &&& after.value is None
                &&& after.world.stop == StopView::Asking(query)
                &&& after.world.asked == world.asked
                &&& after.world.errors == world.errors
                &&& after.world.warnings == world.warnings
            } else {
                &&& after.value == Some(world.replies[0].answer)
                &&& after.world.replies == world.replies.skip(1)
                &&& after.world.asked == world.asked.push(query)
                &&& after.world.errors == world.errors + reported_errors(world.replies[0].errors@)
                &&& after.world.warnings == world.warnings + reported_warnings(
                    world.replies[0].warnings@,
                )
                &&& after.world.stop == world.stop
            }
        }),
{
}

/// A query that is asked quietly is answered like any other, but for the errors and warnings
/// of the reply, which are dropped.
pub proof fn law_ask_quietly(world: World, query: QueryView)
    ensures
        ({
            let after = ask_quietly(world, query);
            let loud = ask(world, query);
            &&& after.value == loud.value
            &&& after.world.replies == loud.world.replies
            &&& after.world.asked == loud.world.asked
            &&& after.world.stop == loud.world.stop
            &&& after.world.errors == world.errors
            &&& after.world.warnings == world.warnings
        }),
{
}

/// A part of a check whose errors count as its own succeeds only if it ends without an error
/// and none was emitted on the way. It asks and emits what it would otherwise.
pub proof fn law_scoped<T>(before: World, inner: Run<Result<T, ErrorEmitted>>)
    ensures
        scoped(before, inner).world == inner.world,
        scoped(before, inner).value is Some <==> inner.value is Some,
        inner.world.errors.len() <= before.errors.len() ==> scoped(before, inner).value
            == inner.value,
        inner.value is Some && inner.world.errors.len() > before.errors.len() ==> scoped(
            before,
            inner,
        ).value == Some(Err::<T, _>(ErrorEmitted)),
{
}

} // verus!
