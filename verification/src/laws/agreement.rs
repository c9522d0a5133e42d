//! What an item of an impl block must have in common with its interface.
use crate::decl::{
    CallPath, Decl, DeclView, FunctionDeclaration, FunctionView, TraitFnView, TyFunctionParameter,
    TyTraitFn, TyTraitItem,
};
use crate::diagnostics::{ErrorEmitted, InterfaceName};
use crate::ident::Ident;
use crate::impl_items::{
    compare_run, hold_method_run, method_run, parameter_run, parameters_run, passing_errors,
    payability_errors, purity_errors, returns_run, with_inherited, TypeMismatch,
};
use crate::laws::held::{called, law_parameters_one_more};
use crate::laws::steady_items::{steady_compare, steady_parameter, steady_parameters};
use crate::ordered::{lookup, Key};
use crate::session::{
    ask, reported_errors, to_checked_function, to_trait_fn, to_type, Answer, ContextView, QueryView,
    Reply, World,
};
use crate::types::{item_rank, ItemKey, TypeArgument, TypeId, TypeInfo, TypeParameter};
use vstd::prelude::*;

verus! {

/// Whether a parameter may be passed the way its signature passes it: by reference if it is
/// mutable, and the same way in both.
pub open spec fn passed_alike(expected: TyFunctionParameter, given: TyFunctionParameter) -> bool {
    &&& expected.is_mutable ==> expected.is_reference
    &&& given.is_mutable == expected.is_mutable
    &&& given.is_reference == expected.is_reference
}

/// Whether the compiler found the two types of the `k`-th comparison equal. There are three
/// replies about each.
pub open spec fn found_equal(replies: Seq<Reply>, k: int) -> bool {
    &&& 3 * k + 3 <= replies.len()
    &&& replies[3 * k].answer is Type
    &&& replies[3 * k + 1].answer is Type
    &&& replies[3 * k + 2].answer == Answer::Flag(true)
}

/// Whether the queries of the `k`-th comparison are about the two types: both under the
/// substitution, the given one first, and then whether what came of the two is equal. The
/// queries stand from `start` on, and the replies to them from the first on.
pub open spec fn compared(
    asked: Seq<QueryView>,
    start: nat,
    replies: Seq<Reply>,
    k: int,
    type_subst: Seq<(TypeId, TypeId)>,
    given: TypeId,
    expected: TypeId,
) -> bool {
    &&& start + 3 * k + 3 <= asked.len()
    &&& asked[start + 3 * k] == QueryView::SubstType { type_id: given, type_subst }
    &&& asked[start + 3 * k + 1] == QueryView::SubstType { type_id: expected, type_subst }
    &&& asked[start + 3 * k + 2] == QueryView::TypesEqual {
        left: replies[3 * k].answer->Type_0,
        right: replies[3 * k + 1].answer->Type_0,
    }
}

/// The types of a method: those of its parameters, and its return type behind them.
pub open spec fn types_of(parameters: Seq<TyFunctionParameter>, return_type: TypeArgument) -> Seq<
    TypeId,
> {
    parameters.map_values(
        |parameter: TyFunctionParameter| parameter.type_argument.type_id,
    ).push(return_type.type_id)
}

/// Whether a method, but for its types, agrees with a signature.
pub open spec fn agrees(decl: FunctionView, signature: TraitFnView) -> bool {
    &&& decl.parameters.len() == signature.parameters.len()
    &&& forall|i: int|
        0 <= i < decl.parameters.len() ==> passed_alike(
            #[trigger] signature.parameters[i],
            decl.parameters[i],
        )
    &&& decl.purity == signature.purity
    &&& decl.payable == signature.payable
}

/// Whether the compiler found the types of `n` parameters and the return type equal to those
/// of the signature.
pub open spec fn types_agree(replies: Seq<Reply>, n: nat) -> bool {
    forall|k: int| 0 <= k <= n ==> #[trigger] found_equal(replies, k)
}

/// Whether no errors came with the first `n` replies.
pub open spec fn without_errors(replies: Seq<Reply>, n: int) -> bool {
    &&& n <= replies.len()
    &&& forall|i: int| 0 <= i < n ==> (#[trigger] replies[i]).errors@.len() == 0
}

proof fn lemma_compare(world: World, ctx: ContextView, given: TypeId, expected: TypeId)
    ensures
        ({
            let after = compare_run(world, ctx, given, expected);
            &&& after.value == Some(None::<TypeMismatch>) <==> found_equal(world.replies, 0)
            &&& found_equal(world.replies, 0) ==> {
                &&& after.world.replies == world.replies.skip(3)
                &&& after.world.asked.len() == world.asked.len() + 3
                &&& world.asked.is_prefix_of(after.world.asked)
                &&& compared(
                    after.world.asked,
                    world.asked.len(),
                    world.replies,
                    0,
                    ctx.type_subst,
                    given,
                    expected,
                )
            }
            &&& found_equal(world.replies, 0) && without_errors(world.replies, 3)
                ==> after.world.errors == world.errors
        }),
{
    let r = world.replies;
    if r.len() >= 3 {
        assert(r.drop_first()[0] == r[1]);
        assert(r.drop_first().drop_first()[0] == r[2]);
        assert(r.drop_first().drop_first().drop_first() =~= r.skip(3));
        if without_errors(r, 3) {
            assert(world.errors + reported_errors(r[0].errors@) =~= world.errors);
            assert(world.errors + reported_errors(r[1].errors@) =~= world.errors);
            assert(world.errors + reported_errors(r[2].errors@) =~= world.errors);
        }
    }
}

proof fn lemma_parameter(
    world: World,
    ctx: ContextView,
    signature_name: Ident,
    expected: TyFunctionParameter,
    given: TyFunctionParameter,
    interface_name: InterfaceName,
)
    ensures
        ({
            let after = parameter_run(
                world,
                ctx,
                signature_name,
                expected,
                given,
                interface_name,
            );
            &&& after.value is Some && after.world.errors.len() == world.errors.len() ==> {
                &&& passed_alike(expected, given)
                &&& found_equal(world.replies, 0)
                &&& after.world.replies == world.replies.skip(3)
                &&& after.world.asked.len() == world.asked.len() + 3
                &&& world.asked.is_prefix_of(after.world.asked)
                &&& compared(
                    after.world.asked,
                    world.asked.len(),
                    world.replies,
                    0,
                    ctx.type_subst,
                    given.type_argument.type_id,
                    expected.type_argument.type_id,
                )
            }
            &&& passed_alike(expected, given) && found_equal(world.replies, 0) && without_errors(
                world.replies,
                3,
            ) ==> {
                &&& after.value is Some
                &&& after.world.errors == world.errors
                &&& after.world.replies == world.replies.skip(3)
            }
        }),
{
    let errors = passing_errors(signature_name, expected, given);
    let passed = world.emit_all(errors);
    let given_type = given.type_argument.type_id;
    let expected_type = expected.type_argument.type_id;
    steady_compare(passed, Seq::empty(), ctx, given_type, expected_type);
    lemma_compare(passed, ctx, given_type, expected_type);
    let after = parameter_run(world, ctx, signature_name, expected, given, interface_name);
    if after.value is Some && after.world.errors.len() == world.errors.len() {
        assert(errors.len() == 0);
        assert(passed.errors =~= world.errors);
    }
    if passed_alike(expected, given) {
        assert(errors =~= Seq::empty());
        assert(passed.errors =~= world.errors);
    }
}

/// Whether the `k`-th parameter was found to agree, and its types were compared.
spec fn parameter_agrees(
    world: World,
    asked: Seq<QueryView>,
    ctx: ContextView,
    decl: FunctionView,
    signature: TraitFnView,
    k: int,
) -> bool {
    &&& passed_alike(signature.parameters[k], decl.parameters[k])
    &&& found_equal(world.replies, k)
    &&& compared(
        asked,
        world.asked.len(),
        world.replies,
        k,
        ctx.type_subst,
        decl.parameters[k].type_argument.type_id,
        signature.parameters[k].type_argument.type_id,
    )
}

/// The last parameter of those that were found to agree, and those before it.
proof fn lemma_last_parameter(
    world: World,
    ctx: ContextView,
    decl: FunctionView,
    signature: TraitFnView,
    interface_name: InterfaceName,
) -> (before: (FunctionView, TraitFnView))
    requires
        signature.parameters.len() > 0,
        decl.parameters.len() == signature.parameters.len(),
        parameters_run(world, ctx, decl, signature, interface_name, 0).value is Some,
        parameters_run(world, ctx, decl, signature, interface_name, 0).world.errors.len()
            == world.errors.len(),
    ensures
        before.0 == (FunctionView { parameters: decl.parameters.drop_last(), ..decl }),
        before.1 == (TraitFnView { parameters: signature.parameters.drop_last(), ..signature }),
        ({
            let first = parameters_run(world, ctx, before.0, before.1, interface_name, 0);
            let last = parameters_run(world, ctx, decl, signature, interface_name, 0);
            &&& first.value is Some
            &&& first.world.errors.len() == world.errors.len()
            &&& last == parameter_run(
                first.world,
                ctx,
                signature.name,
                signature.parameters.last(),
                decl.parameters.last(),
                interface_name,
            )
        }),
{
    let none = Seq::<Reply>::empty();
    let given = decl.parameters.last();
    let expected = signature.parameters.last();
    let decl_before = FunctionView { parameters: decl.parameters.drop_last(), ..decl };
    let signature_before = TraitFnView {
        parameters: signature.parameters.drop_last(),
        ..signature
    };
    assert(decl_before.parameters.push(given) =~= decl.parameters);
    assert(signature_before.parameters.push(expected) =~= signature.parameters);
    law_parameters_one_more(
        world,
        ctx,
        decl_before,
        signature_before,
        interface_name,
        given,
        expected,
    );
    let first = parameters_run(world, ctx, decl_before, signature_before, interface_name, 0);
    steady_parameters(world, none, ctx, decl_before, signature_before, interface_name, 0);
    steady_parameter(
        first.world,
        none,
        ctx,
        signature.name,
        expected,
        given,
        interface_name,
    );
    (decl_before, signature_before)
}

proof fn lemma_parameters(
    world: World,
    ctx: ContextView,
    decl: FunctionView,
    signature: TraitFnView,
    interface_name: InterfaceName,
)
    requires
        decl.parameters.len() == signature.parameters.len(),
        parameters_run(world, ctx, decl, signature, interface_name, 0).value is Some,
        parameters_run(world, ctx, decl, signature, interface_name, 0).world.errors.len()
            == world.errors.len(),
    ensures
        ({
            let n = signature.parameters.len() as int;
            let last = parameters_run(world, ctx, decl, signature, interface_name, 0).world;
            &&& forall|k: int|
                0 <= k < n ==> #[trigger] parameter_agrees(
                    world,
                    last.asked,
                    ctx,
                    decl,
                    signature,
                    k,
                )
            &&& 3 * n <= world.replies.len()
            &&& last.replies == world.replies.skip(3 * n)
            &&& last.asked.len() == world.asked.len() + 3 * n
            &&& world.asked.is_prefix_of(last.asked)
        }),
    decreases signature.parameters.len(),
{
    let n = signature.parameters.len() as int;
    let last = parameters_run(world, ctx, decl, signature, interface_name, 0).world;
    if n > 0 {
        let before = lemma_last_parameter(world, ctx, decl, signature, interface_name);
        let first = parameters_run(world, ctx, before.0, before.1, interface_name, 0).world;
        lemma_parameters(world, ctx, before.0, before.1, interface_name);
        let given = decl.parameters.last();
        let expected = signature.parameters.last();
        lemma_parameter(first, ctx, signature.name, expected, given, interface_name);
        assert forall|k: int| 0 <= k < n implies #[trigger] parameter_agrees(
            world,
            last.asked,
            ctx,
            decl,
            signature,
            k,
        ) by {
            if k < n - 1 {
                assert(parameter_agrees(world, first.asked, ctx, before.0, before.1, k));
            } else {
                assert(first.replies[0] == world.replies[3 * k]);
                assert(first.replies[1] == world.replies[3 * k + 1]);
                assert(first.replies[2] == world.replies[3 * k + 2]);
            }
        }
        assert(first.replies.skip(3) =~= world.replies.skip(3 * n));
    } else {
        assert(world.replies.skip(0) =~= world.replies);
    }
}

proof fn lemma_agreeing_parameters(
    world: World,
    ctx: ContextView,
    decl: FunctionView,
    signature: TraitFnView,
    interface_name: InterfaceName,
    i: int,
)
    requires
        0 <= i <= signature.parameters.len(),
        decl.parameters.len() == signature.parameters.len(),
        forall|j: int|
            i <= j < signature.parameters.len() ==> passed_alike(
                #[trigger] signature.parameters[j],
                decl.parameters[j],
            ),
        forall|k: int|
            0 <= k < signature.parameters.len() - i ==> #[trigger] found_equal(
                world.replies,
                k,
            ),
        without_errors(world.replies, 3 * (signature.parameters.len() - i)),
    ensures
        ({
            let last = parameters_run(world, ctx, decl, signature, interface_name, i);
            &&& last.value is Some
            &&& last.world.errors == world.errors
            &&& last.world.replies == world.replies.skip(3 * (signature.parameters.len() - i))
        }),
    decreases signature.parameters.len() - i,
{
    let n = signature.parameters.len() - i;
    if n > 0 {
        let expected = signature.parameters[i];
        let given = decl.parameters[i];
        lemma_parameter(world, ctx, signature.name, expected, given, interface_name);
        assert(found_equal(world.replies, 0));
        let first = parameter_run(
            world,
            ctx,
            signature.name,
            expected,
            given,
            interface_name,
        );
        assert forall|k: int| 0 <= k < n - 1 implies #[trigger] found_equal(
            first.world.replies,
            k,
        ) by {
            assert(found_equal(world.replies, k + 1));
        }
        lemma_agreeing_parameters(first.world, ctx, decl, signature, interface_name, i + 1);
        assert(first.world.replies.skip(3 * (n - 1)) =~= world.replies.skip(3 * n));
    } else {
        assert(world.replies.skip(0) =~= world.replies);
    }
}

proof fn lemma_agreeing_return(
    world: World,
    ctx: ContextView,
    impl_type_parameters: Seq<TypeParameter>,
    decl: FunctionView,
    signature: TraitFnView,
    interface_name: InterfaceName,
)
    requires
        found_equal(world.replies, 0),
        without_errors(world.replies, 3),
    ensures
        ({
            let after = returns_run(
                world,
                ctx,
                impl_type_parameters,
                decl,
                signature,
                interface_name,
            );
            &&& after.value == Some(
                Ok::<_, ErrorEmitted>(with_inherited(decl, impl_type_parameters)),
            )
            &&& after.world.errors == world.errors
        }),
{
    lemma_compare(world, ctx, decl.return_type.type_id, signature.return_type.type_id);
}

/// A method that is held against a signature of as many parameters is accepted only if it
/// agrees with it: each parameter is passed the same way, purity and payability are the same,
/// and the compiler finds each type equal. The replies that say so are those to the queries
/// about the types of the method and of the signature, parameter by parameter, with the
/// return type last, and nothing else is asked. No error is emitted on the way, and the method
/// comes out with the type parameters of the impl block added to its own.
pub proof fn law_agreement_is_needed(
    world: World,
    ctx: ContextView,
    impl_type_parameters: Seq<TypeParameter>,
    decl: FunctionView,
    signature: TraitFnView,
    interface_name: InterfaceName,
)
    requires
        decl.parameters.len() == signature.parameters.len(),
    ensures
        ({
            let after = hold_method_run(
                world,
                ctx,
                impl_type_parameters,
                decl,
                signature,
                interface_name,
            );
            let n = decl.parameters.len() as int;
            after.value is Some && after.value->0 is Ok ==> {
                &&& agrees(decl, signature)
                &&& types_agree(world.replies, decl.parameters.len())
                &&& after.world.asked.len() == world.asked.len() + 3 * (n + 1)
                &&& world.asked.is_prefix_of(after.world.asked)
                &&& forall|k: int|
                    0 <= k <= n ==> compared(
                        after.world.asked,
                        world.asked.len(),
                        world.replies,
                        k,
                        ctx.type_subst,
                        #[trigger] types_of(decl.parameters, decl.return_type)[k],
                        types_of(signature.parameters, signature.return_type)[k],
                    )
                &&& after.world.errors == world.errors
                &&& after.value->0 == Ok::<_, ErrorEmitted>(
                    with_inherited(decl, impl_type_parameters),
                )
            }
        }),
{
    let n = decl.parameters.len() as int;
    let after = hold_method_run(
        world,
        ctx,
        impl_type_parameters,
        decl,
        signature,
        interface_name,
    );
    if after.value is Some && after.value->0 is Ok {
        let first = parameters_run(world, ctx, decl, signature, interface_name, 0);
        let errors = purity_errors(decl, signature, interface_name) + payability_errors(
            decl,
            signature,
            interface_name,
        );
        let second = first.world.emit_all(errors);
        let given = decl.return_type.type_id;
        let expected = signature.return_type.type_id;
        steady_parameters(world, Seq::empty(), ctx, decl, signature, interface_name, 0);
        steady_compare(second, Seq::empty(), ctx, given, expected);
        lemma_compare(second, ctx, given, expected);
        assert(errors.len() == 0);
        lemma_parameters(world, ctx, decl, signature, interface_name);
        let asked = after.world.asked;
        assert(found_equal(second.replies, 0));
        assert(second.replies[0] == world.replies[3 * n]);
        assert(second.replies[1] == world.replies[3 * n + 1]);
        assert(second.replies[2] == world.replies[3 * n + 2]);
        assert forall|i: int| 0 <= i < n implies passed_alike(
            #[trigger] signature.parameters[i],
            decl.parameters[i],
        ) by {
            assert(parameter_agrees(world, first.world.asked, ctx, decl, signature, i));
        }
        assert forall|k: int| 0 <= k <= n implies #[trigger] found_equal(
            world.replies,
            k,
        ) by {
            if k < n {
                assert(parameter_agrees(world, first.world.asked, ctx, decl, signature, k));
            }
        }
        assert forall|k: int| 0 <= k <= n implies compared(
            asked,
            world.asked.len(),
            world.replies,
            k,
            ctx.type_subst,
            #[trigger] types_of(decl.parameters, decl.return_type)[k],
            types_of(signature.parameters, signature.return_type)[k],
        ) by {
            if k < n {
                assert(parameter_agrees(world, first.world.asked, ctx, decl, signature, k));
            }
        }
        assert(after.world.errors =~= world.errors);
    }
}

/// A method that agrees with the signature it is held against is accepted, if the compiler
/// finds each type equal and reports no errors while it compares them.
pub proof fn law_agreement_is_enough(
    world: World,
    ctx: ContextView,
    impl_type_parameters: Seq<TypeParameter>,
    decl: FunctionView,
    signature: TraitFnView,
    interface_name: InterfaceName,
)
    requires
        agrees(decl, signature),
        types_agree(world.replies, decl.parameters.len()),
        without_errors(world.replies, 3 * (decl.parameters.len() + 1) as int),
    ensures
        hold_method_run(
            world,
            ctx,
            impl_type_parameters,
            decl,
            signature,
            interface_name,
        ).value == Some(Ok::<_, ErrorEmitted>(with_inherited(decl, impl_type_parameters))),
{
    let n = decl.parameters.len() as int;
    assert forall|k: int| 0 <= k < n implies #[trigger] found_equal(world.replies, k) by {}
    lemma_agreeing_parameters(world, ctx, decl, signature, interface_name, 0);
    let first = parameters_run(world, ctx, decl, signature, interface_name, 0);
    let errors = purity_errors(decl, signature, interface_name) + payability_errors(
        decl,
        signature,
        interface_name,
    );
    let second = first.world.emit_all(errors);
    assert(errors =~= Seq::empty());
    assert(second.errors =~= world.errors);
    assert(found_equal(world.replies, n));
    lemma_agreeing_return(second, ctx, impl_type_parameters, decl, signature, interface_name);
}

/// A method of an impl block is accepted only if it is not implemented yet, the interface asks
/// for it, and it agrees with the signature that the interface has for it, whether that is a
/// trait's or an ABI's. What is asked about it is, in this order, a type to expect, the method
/// itself, the signature with `Self` replaced, and the types of the two side by side.
pub proof fn law_accepted_method(
    world: World,
    ctx: ContextView,
    impl_type_parameters: Seq<TypeParameter>,
    parsed: FunctionDeclaration,
    trait_name: CallPath,
    is_contract: bool,
    impld_items: Seq<(ItemKey, TyTraitItem)>,
    checklist: Seq<(Ident, TyTraitFn)>,
    accepted: FunctionView,
)
    requires
        method_run(
            world,
            ctx,
            impl_type_parameters,
            parsed,
            trait_name,
            is_contract,
            impld_items,
            checklist,
        ).value == Some(Ok::<_, ErrorEmitted>(accepted)),
    ensures
        ({
            let after = method_run(
                world,
                ctx,
                impl_type_parameters,
                parsed,
                trait_name,
                is_contract,
                impld_items,
                checklist,
            ).world;
            let annotation = world.replies[0].answer->Type_0;
            let decl = world.replies[1].answer->Decl_0->Function_0@;
            let signature = world.replies[2].answer->Decl_0->TraitFn_0@;
            let first = world.asked.len() as int;
            let start = world.asked.len() + 3;
            let n = decl.parameters.len() as int;
            &&& world.replies.len() >= 3
            &&& world.replies[0].answer is Type
            &&& world.replies[1].answer is Decl
            &&& world.replies[2].answer is Decl
            &&& lookup(impld_items, item_rank(decl.name.name@, ctx.self_type)) is None
            &&& lookup(checklist, decl.name.rank()) is Some
            &&& agrees(decl, signature)
            &&& types_agree(world.replies.skip(3), decl.parameters.len())
            &&& after.asked.len() == start + 3 * (n + 1)
            &&& after.asked[first] == QueryView::InsertType {
                info: TypeInfo::Unknown,
            }
            &&& after.asked[first + 1] == QueryView::TypeCheckFunction {
                ctx: ContextView { type_annotation: annotation, help_text: None, ..ctx },
                parsed,
            }
            &&& after.asked[first + 2] == QueryView::ReplaceSelfType {
                decl: DeclView::TraitFn(lookup(checklist, decl.name.rank())->0@),
                type_id: ctx.self_type,
            }
            &&& forall|k: int|
                0 <= k <= n ==> compared(
                    after.asked,
                    start,
                    world.replies.skip(3),
                    k,
                    ctx.type_subst,
                    #[trigger] types_of(decl.parameters, decl.return_type)[k],
                    types_of(signature.parameters, signature.return_type)[k],
                )
            &&& accepted == with_inherited(decl, impl_type_parameters)
        }),
{
    let after = method_run(
        world,
        ctx,
        impl_type_parameters,
        parsed,
        trait_name,
        is_contract,
        impld_items,
        checklist,
    );
    let r = world.replies;
    let inserted = to_type(ask(world, QueryView::InsertType { info: TypeInfo::Unknown }));
    assert(inserted.value is Some);
    let inner = ctx.expecting(inserted.value->0);
    let checked = to_checked_function(
        ask(inserted.world, QueryView::TypeCheckFunction { ctx: inner, parsed }),
    );
    assert(checked.value is Some && checked.value->0 is Ok);
    let decl = checked.value->0->Ok_0@;
    let asked_for = lookup(checklist, decl.name.rank());
    assert(asked_for is Some);
    let replaced = to_trait_fn(
        ask(
            checked.world,
            QueryView::ReplaceSelfType {
                decl: DeclView::TraitFn(asked_for->0@),
                type_id: inner.self_type,
            },
        ),
    );
    assert(replaced.value is Some);
    assert(r.drop_first()[0] == r[1]);
    assert(r.drop_first().drop_first()[0] == r[2]);
    assert(replaced.world.replies =~= r.skip(3));
    let signature = replaced.value->0@;
    law_agreement_is_needed(
        replaced.world,
        inner,
        impl_type_parameters,
        decl,
        signature,
        called(trait_name, is_contract),
    );
    let before = replaced.world.asked;
    let first = world.asked.len() as int;
    assert(before[first] == after.world.asked[first]);
    assert(before[first + 1] == after.world.asked[first + 1]);
    assert(before[first + 2] == after.world.asked[first + 2]);
}

} // verus!
