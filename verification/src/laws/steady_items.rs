//! The checks of single items and of type parameters are steady.
use crate::decl::{
    CallPath, ConstantDeclaration, FunctionDeclaration, FunctionView, TraitFnView,
    TraitTypeDeclaration, TyConstantDecl, TyFunctionParameter, TyTraitFn, TyTraitItem, TyTraitType,
};
use crate::diagnostics::InterfaceName;
use crate::generics::{defined_run, unconstrained_run, used_run};
use crate::ident::{Ident, Span};
use crate::impl_items::{
    admit_const_run, admit_method_run, admit_type_run, agree_run, compare_run, const_decl_run,
    constant_type_run, describe_run, hold_method_run, method_run, parameter_run, parameters_run,
    returns_run, type_decl_run,
};
use crate::laws::steady::{follows, group_steady, grown, steady, steady_result};
use crate::ordered::{put, Key};
use crate::session::{ask, to_generic, to_generics, ContextView, Generic, QueryView, Reply, World};
use crate::types::{ItemKey, TypeArgument, TypeId, TypeParameter};
use vstd::prelude::*;

verus! {

/// `describe_run` is steady.
pub broadcast proof fn steady_describe(
    world: World,
    extra: Seq<Reply>,
    given: TypeId,
    expected: TypeId,
)
    ensures
        steady(
            world,
            extra,
            describe_run(world, given, expected),
            #[trigger] describe_run(grown(world, extra), given, expected),
        ),
{
    broadcast use group_steady;
}

/// `describe_run` comes after.
pub broadcast proof fn follows_describe(world: World, given: TypeId, expected: TypeId)
    ensures
        follows(world, #[trigger] describe_run(world, given, expected)),
{
    steady_describe(world, Seq::empty(), given, expected);
}

/// `compare_run` is steady.
pub broadcast proof fn steady_compare(
    world: World,
    extra: Seq<Reply>,
    ctx: ContextView,
    given: TypeId,
    expected: TypeId,
)
    ensures
        steady(
            world,
            extra,
            compare_run(world, ctx, given, expected),
            #[trigger] compare_run(grown(world, extra), ctx, given, expected),
        ),
{
    broadcast use {group_steady, steady_describe, follows_describe};
}

/// `compare_run` comes after.
pub broadcast proof fn follows_compare(
    world: World,
    ctx: ContextView,
    given: TypeId,
    expected: TypeId,
)
    ensures
        follows(world, #[trigger] compare_run(world, ctx, given, expected)),
{
    steady_compare(world, Seq::empty(), ctx, given, expected);
}

/// `admit_type_run` is steady.
pub broadcast proof fn steady_admit_type(
    world: World,
    extra: Seq<Reply>,
    ctx: ContextView,
    decl: TyTraitType,
    trait_name: CallPath,
    is_contract: bool,
    impld_items: Seq<(ItemKey, TyTraitItem)>,
    type_checklist: Seq<(Ident, TyTraitType)>,
)
    ensures
        steady_result(
            world,
            extra,
            admit_type_run(world, ctx, decl, trait_name, is_contract, impld_items, type_checklist),
            #[trigger] admit_type_run(
                grown(world, extra),
                ctx,
                decl,
                trait_name,
                is_contract,
                impld_items,
                type_checklist,
            ),
        ),
{
    broadcast use group_steady;
}

/// `admit_type_run` comes after.
pub broadcast proof fn follows_admit_type(
    world: World,
    ctx: ContextView,
    decl: TyTraitType,
    trait_name: CallPath,
    is_contract: bool,
    impld_items: Seq<(ItemKey, TyTraitItem)>,
    type_checklist: Seq<(Ident, TyTraitType)>,
)
    ensures
        follows(
            world,
            #[trigger] admit_type_run(
                world,
                ctx,
                decl,
                trait_name,
                is_contract,
                impld_items,
                type_checklist,
            ),
        ),
{
    steady_admit_type(
        world,
        Seq::empty(),
        ctx,
        decl,
        trait_name,
        is_contract,
        impld_items,
        type_checklist,
    );
}

/// `type_decl_run` is steady.
pub broadcast proof fn steady_type_decl(
    world: World,
    extra: Seq<Reply>,
    ctx: ContextView,
    type_decl: TraitTypeDeclaration,
    trait_name: CallPath,
    is_contract: bool,
    impld_items: Seq<(ItemKey, TyTraitItem)>,
    type_checklist: Seq<(Ident, TyTraitType)>,
)
    ensures
        steady_result(
            world,
            extra,
            type_decl_run(
                world,
                ctx,
                type_decl,
                trait_name,
                is_contract,
                impld_items,
                type_checklist,
            ),
            #[trigger] type_decl_run(
                grown(world, extra),
                ctx,
                type_decl,
                trait_name,
                is_contract,
                impld_items,
                type_checklist,
            ),
        ),
{
    broadcast use {group_steady, steady_admit_type, follows_admit_type};
}

/// `type_decl_run` comes after.
pub broadcast proof fn follows_type_decl(
    world: World,
    ctx: ContextView,
    type_decl: TraitTypeDeclaration,
    trait_name: CallPath,
    is_contract: bool,
    impld_items: Seq<(ItemKey, TyTraitItem)>,
    type_checklist: Seq<(Ident, TyTraitType)>,
)
    ensures
        follows(
            world,
            #[trigger] type_decl_run(
                world,
                ctx,
                type_decl,
                trait_name,
                is_contract,
                impld_items,
                type_checklist,
            ),
        ),
{
    steady_type_decl(
        world,
        Seq::empty(),
        ctx,
        type_decl,
        trait_name,
        is_contract,
        impld_items,
        type_checklist,
    );
}

/// `constant_type_run` is steady.
pub broadcast proof fn steady_constant_type(
    world: World,
    extra: Seq<Reply>,
    ctx: ContextView,
    decl: TyConstantDecl,
    signature: TyConstantDecl,
    interface_name: InterfaceName,
)
    ensures
        steady_result(
            world,
            extra,
            constant_type_run(world, ctx, decl, signature, interface_name),
            #[trigger] constant_type_run(
                grown(world, extra),
                ctx,
                decl,
                signature,
                interface_name,
            ),
        ),
{
    broadcast use {group_steady, steady_compare, follows_compare};
}

/// `constant_type_run` comes after.
pub broadcast proof fn follows_constant_type(
    world: World,
    ctx: ContextView,
    decl: TyConstantDecl,
    signature: TyConstantDecl,
    interface_name: InterfaceName,
)
    ensures
        follows(world, #[trigger] constant_type_run(world, ctx, decl, signature, interface_name)),
{
    steady_constant_type(world, Seq::empty(), ctx, decl, signature, interface_name);
}

/// `admit_const_run` is steady.
pub broadcast proof fn steady_admit_const(
    world: World,
    extra: Seq<Reply>,
    ctx: ContextView,
    decl: TyConstantDecl,
    trait_name: CallPath,
    is_contract: bool,
    impld_items: Seq<(ItemKey, TyTraitItem)>,
    constant_checklist: Seq<(Ident, TyConstantDecl)>,
)
    ensures
        steady_result(
            world,
            extra,
            admit_const_run(
                world,
                ctx,
                decl,
                trait_name,
                is_contract,
                impld_items,
                constant_checklist,
            ),
            #[trigger] admit_const_run(
                grown(world, extra),
                ctx,
                decl,
                trait_name,
                is_contract,
                impld_items,
                constant_checklist,
            ),
        ),
{
    broadcast use {group_steady, steady_constant_type, follows_constant_type};
}

/// `admit_const_run` comes after.
pub broadcast proof fn follows_admit_const(
    world: World,
    ctx: ContextView,
    decl: TyConstantDecl,
    trait_name: CallPath,
    is_contract: bool,
    impld_items: Seq<(ItemKey, TyTraitItem)>,
    constant_checklist: Seq<(Ident, TyConstantDecl)>,
)
    ensures
        follows(
            world,
            #[trigger] admit_const_run(
                world,
                ctx,
                decl,
                trait_name,
                is_contract,
                impld_items,
                constant_checklist,
            ),
        ),
{
    steady_admit_const(
        world,
        Seq::empty(),
        ctx,
        decl,
        trait_name,
        is_contract,
        impld_items,
        constant_checklist,
    );
}

/// `const_decl_run` is steady.
pub broadcast proof fn steady_const_decl(
    world: World,
    extra: Seq<Reply>,
    ctx: ContextView,
    const_decl: ConstantDeclaration,
    trait_name: CallPath,
    is_contract: bool,
    impld_items: Seq<(ItemKey, TyTraitItem)>,
    constant_checklist: Seq<(Ident, TyConstantDecl)>,
)
    ensures
        steady_result(
            world,
            extra,
            const_decl_run(
                world,
                ctx,
                const_decl,
                trait_name,
                is_contract,
                impld_items,
                constant_checklist,
            ),
            #[trigger] const_decl_run(
                grown(world, extra),
                ctx,
                const_decl,
                trait_name,
                is_contract,
                impld_items,
                constant_checklist,
            ),
        ),
{
    broadcast use {group_steady, steady_admit_const, follows_admit_const};
}

/// `const_decl_run` comes after.
pub broadcast proof fn follows_const_decl(
    world: World,
    ctx: ContextView,
    const_decl: ConstantDeclaration,
    trait_name: CallPath,
    is_contract: bool,
    impld_items: Seq<(ItemKey, TyTraitItem)>,
    constant_checklist: Seq<(Ident, TyConstantDecl)>,
)
    ensures
        follows(
            world,
            #[trigger] const_decl_run(
                world,
                ctx,
                const_decl,
                trait_name,
                is_contract,
                impld_items,
                constant_checklist,
            ),
        ),
{
    steady_const_decl(
        world,
        Seq::empty(),
        ctx,
        const_decl,
        trait_name,
        is_contract,
        impld_items,
        constant_checklist,
    );
}

/// `parameter_run` is steady.
pub broadcast proof fn steady_parameter(
    world: World,
    extra: Seq<Reply>,
    ctx: ContextView,
    signature_name: Ident,
    expected: TyFunctionParameter,
    given: TyFunctionParameter,
    interface_name: InterfaceName,
)
    ensures
        steady(
            world,
            extra,
            parameter_run(world, ctx, signature_name, expected, given, interface_name),
            #[trigger] parameter_run(
                grown(world, extra),
                ctx,
                signature_name,
                expected,
                given,
                interface_name,
            ),
        ),
{
    broadcast use {group_steady, steady_compare, follows_compare};
}

/// `parameter_run` comes after.
pub broadcast proof fn follows_parameter(
    world: World,
    ctx: ContextView,
    signature_name: Ident,
    expected: TyFunctionParameter,
    given: TyFunctionParameter,
    interface_name: InterfaceName,
)
    ensures
        follows(
            world,
            #[trigger] parameter_run(world, ctx, signature_name, expected, given, interface_name),
        ),
{
    steady_parameter(world, Seq::empty(), ctx, signature_name, expected, given, interface_name);
}

/// `parameters_run` is steady.
pub broadcast proof fn steady_parameters(
    world: World,
    extra: Seq<Reply>,
    ctx: ContextView,
    decl: FunctionView,
    signature: TraitFnView,
    interface_name: InterfaceName,
    i: int,
)
    ensures
        steady(
            world,
            extra,
            parameters_run(world, ctx, decl, signature, interface_name, i),
            #[trigger] parameters_run(grown(world, extra), ctx, decl, signature, interface_name, i),
        ),
    decreases signature.parameters.len() - i,
{
    broadcast use {group_steady, steady_parameter, follows_parameter};

    if i < signature.parameters.len() {
        let first = parameter_run(
            world,
            ctx,
            signature.name,
            signature.parameters[i],
            decl.parameters[i],
            interface_name,
        );
        if let Some(_) = first.value {
            steady_parameters(first.world, extra, ctx, decl, signature, interface_name, i + 1);
        }
        let other = parameter_run(
            grown(world, extra),
            ctx,
            signature.name,
            signature.parameters[i],
            decl.parameters[i],
            interface_name,
        );
        if let Some(_) = other.value {
            steady_parameters(
                other.world,
                Seq::empty(),
                ctx,
                decl,
                signature,
                interface_name,
                i + 1,
            );
        }
    }
}

/// `parameters_run` comes after.
pub broadcast proof fn follows_parameters(
    world: World,
    ctx: ContextView,
    decl: FunctionView,
    signature: TraitFnView,
    interface_name: InterfaceName,
    i: int,
)
    ensures
        follows(world, #[trigger] parameters_run(world, ctx, decl, signature, interface_name, i)),
{
    steady_parameters(world, Seq::empty(), ctx, decl, signature, interface_name, i);
}

/// `returns_run` is steady.
pub broadcast proof fn steady_returns(
    world: World,
    extra: Seq<Reply>,
    ctx: ContextView,
    impl_type_parameters: Seq<TypeParameter>,
    decl: FunctionView,
    signature: TraitFnView,
    interface_name: InterfaceName,
)
    ensures
        steady_result(
            world,
            extra,
            returns_run(world, ctx, impl_type_parameters, decl, signature, interface_name),
            #[trigger] returns_run(
                grown(world, extra),
                ctx,
                impl_type_parameters,
                decl,
                signature,
                interface_name,
            ),
        ),
{
    broadcast use {group_steady, steady_compare, follows_compare};
}

/// `returns_run` comes after.
pub broadcast proof fn follows_returns(
    world: World,
    ctx: ContextView,
    impl_type_parameters: Seq<TypeParameter>,
    decl: FunctionView,
    signature: TraitFnView,
    interface_name: InterfaceName,
)
    ensures
        follows(
            world,
            #[trigger] returns_run(
                world,
                ctx,
                impl_type_parameters,
                decl,
                signature,
                interface_name,
            ),
        ),
{
    steady_returns(world, Seq::empty(), ctx, impl_type_parameters, decl, signature, interface_name);
}

/// `agree_run` is steady.
pub broadcast proof fn steady_agree(
    world: World,
    extra: Seq<Reply>,
    ctx: ContextView,
    impl_type_parameters: Seq<TypeParameter>,
    decl: FunctionView,
    signature: TraitFnView,
    interface_name: InterfaceName,
)
    ensures
        steady_result(
            world,
            extra,
            agree_run(world, ctx, impl_type_parameters, decl, signature, interface_name),
            #[trigger] agree_run(
                grown(world, extra),
                ctx,
                impl_type_parameters,
                decl,
                signature,
                interface_name,
            ),
        ),
{
    broadcast use {
        group_steady,
        steady_parameters,
        steady_returns,
        follows_parameters,
        follows_returns,
    };
}

/// `agree_run` comes after.
pub broadcast proof fn follows_agree(
    world: World,
    ctx: ContextView,
    impl_type_parameters: Seq<TypeParameter>,
    decl: FunctionView,
    signature: TraitFnView,
    interface_name: InterfaceName,
)
    ensures
        follows(
            world,
            #[trigger] agree_run(world, ctx, impl_type_parameters, decl, signature, interface_name),
        ),
{
    steady_agree(world, Seq::empty(), ctx, impl_type_parameters, decl, signature, interface_name);
}

/// `hold_method_run` is steady.
pub broadcast proof fn steady_hold_method(
    world: World,
    extra: Seq<Reply>,
    ctx: ContextView,
    impl_type_parameters: Seq<TypeParameter>,
    decl: FunctionView,
    signature: TraitFnView,
    interface_name: InterfaceName,
)
    ensures
        steady_result(
            world,
            extra,
            hold_method_run(
                world,
                ctx,
                impl_type_parameters,
                decl,
                signature,
                interface_name,
            ),
            #[trigger] hold_method_run(
                grown(world, extra),
                ctx,
                impl_type_parameters,
                decl,
                signature,
                interface_name,
            ),
        ),
{
    broadcast use {group_steady, steady_agree, follows_agree};
}

/// `hold_method_run` comes after.
pub broadcast proof fn follows_hold_method(
    world: World,
    ctx: ContextView,
    impl_type_parameters: Seq<TypeParameter>,
    decl: FunctionView,
    signature: TraitFnView,
    interface_name: InterfaceName,
)
    ensures
        follows(
            world,
            #[trigger] hold_method_run(
                world,
                ctx,
                impl_type_parameters,
                decl,
                signature,
                interface_name,
            ),
        ),
{
    steady_hold_method(
        world,
        Seq::empty(),
        ctx,
        impl_type_parameters,
        decl,
        signature,
        interface_name,
    );
}

/// `admit_method_run` is steady.
pub broadcast proof fn steady_admit_method(
    world: World,
    extra: Seq<Reply>,
    ctx: ContextView,
    impl_type_parameters: Seq<TypeParameter>,
    decl: FunctionView,
    trait_name: CallPath,
    is_contract: bool,
    impld_items: Seq<(ItemKey, TyTraitItem)>,
    method_checklist: Seq<(Ident, TyTraitFn)>,
)
    ensures
        steady_result(
            world,
            extra,
            admit_method_run(
                world,
                ctx,
                impl_type_parameters,
                decl,
                trait_name,
                is_contract,
                impld_items,
                method_checklist,
            ),
            #[trigger] admit_method_run(
                grown(world, extra),
                ctx,
                impl_type_parameters,
                decl,
                trait_name,
                is_contract,
                impld_items,
                method_checklist,
            ),
        ),
{
    broadcast use {group_steady, steady_hold_method, follows_hold_method};
}

/// `admit_method_run` comes after.
pub broadcast proof fn follows_admit_method(
    world: World,
    ctx: ContextView,
    impl_type_parameters: Seq<TypeParameter>,
    decl: FunctionView,
    trait_name: CallPath,
    is_contract: bool,
    impld_items: Seq<(ItemKey, TyTraitItem)>,
    method_checklist: Seq<(Ident, TyTraitFn)>,
)
    ensures
        follows(
            world,
            #[trigger] admit_method_run(
                world,
                ctx,
                impl_type_parameters,
                decl,
                trait_name,
                is_contract,
                impld_items,
                method_checklist,
            ),
        ),
{
    steady_admit_method(
        world,
        Seq::empty(),
        ctx,
        impl_type_parameters,
        decl,
        trait_name,
        is_contract,
        impld_items,
        method_checklist,
    );
}

/// `method_run` is steady.
pub broadcast proof fn steady_method(
    world: World,
    extra: Seq<Reply>,
    ctx: ContextView,
    impl_type_parameters: Seq<TypeParameter>,
    impl_method: FunctionDeclaration,
    trait_name: CallPath,
    is_contract: bool,
    impld_items: Seq<(ItemKey, TyTraitItem)>,
    method_checklist: Seq<(Ident, TyTraitFn)>,
)
    ensures
        steady_result(
            world,
            extra,
            method_run(
                world,
                ctx,
                impl_type_parameters,
                impl_method,
                trait_name,
                is_contract,
                impld_items,
                method_checklist,
            ),
            #[trigger] method_run(
                grown(world, extra),
                ctx,
                impl_type_parameters,
                impl_method,
                trait_name,
                is_contract,
                impld_items,
                method_checklist,
            ),
        ),
{
    broadcast use {group_steady, steady_admit_method, follows_admit_method};
}

/// `method_run` comes after.
pub broadcast proof fn follows_method(
    world: World,
    ctx: ContextView,
    impl_type_parameters: Seq<TypeParameter>,
    impl_method: FunctionDeclaration,
    trait_name: CallPath,
    is_contract: bool,
    impld_items: Seq<(ItemKey, TyTraitItem)>,
    method_checklist: Seq<(Ident, TyTraitFn)>,
)
    ensures
        follows(
            world,
            #[trigger] method_run(
                world,
                ctx,
                impl_type_parameters,
                impl_method,
                trait_name,
                is_contract,
                impld_items,
                method_checklist,
            ),
        ),
{
    steady_method(
        world,
        Seq::empty(),
        ctx,
        impl_type_parameters,
        impl_method,
        trait_name,
        is_contract,
        impld_items,
        method_checklist,
    );
}

/// `defined_run` is steady.
pub broadcast proof fn steady_defined(
    world: World,
    extra: Seq<Reply>,
    type_parameters: Seq<TypeParameter>,
    defined: Seq<(Generic, Span)>,
    i: int,
)
    ensures
        steady(
            world,
            extra,
            defined_run(world, type_parameters, defined, i),
            #[trigger] defined_run(grown(world, extra), type_parameters, defined, i),
        ),
    decreases type_parameters.len() - i,
{
    broadcast use group_steady;

    if i < type_parameters.len() {
        let first = to_generic(
            ask(world, QueryView::DescribeGeneric { type_id: type_parameters[i].type_id }),
        );
        if let Some(generic) = first.value {
            steady_defined(
                first.world,
                extra,
                type_parameters,
                put(defined, generic, type_parameters[i].span),
                i + 1,
            );
        }
        let other = to_generic(
            ask(
                grown(world, extra),
                QueryView::DescribeGeneric { type_id: type_parameters[i].type_id },
            ),
        );
        if let Some(generic) = other.value {
            steady_defined(
                other.world,
                Seq::empty(),
                type_parameters,
                put(defined, generic, type_parameters[i].span),
                i + 1,
            );
        }
    }
}

/// `defined_run` comes after.
pub broadcast proof fn follows_defined(
    world: World,
    type_parameters: Seq<TypeParameter>,
    defined: Seq<(Generic, Span)>,
    i: int,
)
    ensures
        follows(world, #[trigger] defined_run(world, type_parameters, defined, i)),
{
    steady_defined(world, Seq::empty(), type_parameters, defined, i);
}

/// `used_run` is steady.
pub broadcast proof fn steady_used(
    world: World,
    extra: Seq<Reply>,
    type_ids: Seq<TypeId>,
    used: Seq<u64>,
    i: int,
)
    ensures
        steady(
            world,
            extra,
            used_run(world, type_ids, used, i),
            #[trigger] used_run(grown(world, extra), type_ids, used, i),
        ),
    decreases type_ids.len() - i,
{
    broadcast use group_steady;

    if i < type_ids.len() {
        let first = to_generics(ask(world, QueryView::NestedGenerics { type_id: type_ids[i] }));
        if let Some(keys) = first.value {
            steady_used(first.world, extra, type_ids, used + keys@, i + 1);
        }
        let other = to_generics(
            ask(grown(world, extra), QueryView::NestedGenerics { type_id: type_ids[i] }),
        );
        if let Some(keys) = other.value {
            steady_used(other.world, Seq::empty(), type_ids, used + keys@, i + 1);
        }
    }
}

/// `used_run` comes after.
pub broadcast proof fn follows_used(world: World, type_ids: Seq<TypeId>, used: Seq<u64>, i: int)
    ensures
        follows(world, #[trigger] used_run(world, type_ids, used, i)),
{
    steady_used(world, Seq::empty(), type_ids, used, i);
}

/// `unconstrained_run` is steady.
pub broadcast proof fn steady_unconstrained(
    world: World,
    extra: Seq<Reply>,
    type_parameters: Seq<TypeParameter>,
    trait_type_arguments: Seq<TypeArgument>,
    self_type: TypeId,
)
    ensures
        steady_result(
            world,
            extra,
            unconstrained_run(world, type_parameters, trait_type_arguments, self_type),
            #[trigger] unconstrained_run(
                grown(world, extra),
                type_parameters,
                trait_type_arguments,
                self_type,
            ),
        ),
{
    broadcast use {group_steady, steady_defined, steady_used, follows_defined, follows_used};
}

/// `unconstrained_run` comes after.
pub broadcast proof fn follows_unconstrained(
    world: World,
    type_parameters: Seq<TypeParameter>,
    trait_type_arguments: Seq<TypeArgument>,
    self_type: TypeId,
)
    ensures
        follows(
            world,
            #[trigger] unconstrained_run(world, type_parameters, trait_type_arguments, self_type),
        ),
{
    steady_unconstrained(world, Seq::empty(), type_parameters, trait_type_arguments, self_type);
}

} // verus!
