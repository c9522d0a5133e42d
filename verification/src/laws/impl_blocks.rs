//! How an impl block is checked, step by step: its head, what it implements, and its items, of
//! which none is passed over.
use crate::decl::{
    CallPathView, ConstantDeclaration, Decl, DeclKind, DeclRef, DeclView, FunctionDeclaration,
    ImplItem, ImplSelf, ImplTrait, ImplView, InterfaceDeclId, InterfaceDeclRef,
    TraitTypeDeclaration, TyAbiDecl, TyConstantDecl, TyDecl, TyFunctionDecl, TyTraitDecl,
    TyTraitItem, TyTraitType, TypeParameterList,
};
use crate::diagnostics::{CompileError, ErrorEmitted};
use crate::generics::unconstrained_run;
use crate::ident::{dummy_span, Ident, IdentView};
use crate::impl_trait::{
    bodies_run, body_run, finish_item_run, finish_run, head_run, impl_body_run, impl_of_abi_run,
    impl_of_known_abi_run, impl_of_monomorphized_run, impl_of_trait_run, impl_self_run,
    impl_trait_run, resolve_argument_run, resolve_arguments_run, self_body_run, self_items_run,
    self_name_run, self_symbol_run, signature_run, signatures_run, used_head_run, HeadView,
};
use crate::implementation::{implementation_run, Implementation};
use crate::laws::dialogue::answered;
use crate::session::{
    chain, chain_ok, done, AbiMode, Answer, ConstShadowingMode, ContextView, QueryView, Run,
    StopView, World,
};
use crate::surface::insert_surface_run;
use crate::trait_decl::insert_parameters_run;
use crate::types::{TypeArgument, TypeId, TypeInfo, TypeParameter};
use vstd::prelude::*;

verus! {

/// An argument is resolved by one query about its own type. It gets the type that the compiler
/// answers with, and is otherwise as it was; if there is none it is refused.
pub proof fn law_resolved_argument(
    world: World,
    ctx: ContextView,
    argument: TypeArgument,
    type_id: TypeId,
)
    ensures
        answered(
            world,
            seq![Answer::Type(type_id)],
        ) ==> resolve_argument_run(
            world,
            ctx,
            argument,
        ) == done(
            world.hear(
                QueryView::ResolveType { ctx, type_id: argument.type_id, span: argument.span },
            ),
            Ok::<TypeArgument, ErrorEmitted>(
                TypeArgument { type_id, span: argument.span, key: argument.key },
            ),
        ),
        answered(
            world,
            seq![Answer::Failed],
        ) ==> resolve_argument_run(
            world,
            ctx,
            argument,
        ) == done(
            world.hear(
                QueryView::ResolveType { ctx, type_id: argument.type_id, span: argument.span },
            ),
            Err::<TypeArgument, _>(ErrorEmitted),
        ),
{
}

/// Each argument is resolved once, in their order, and takes its own place. One argument more
/// changes nothing for those before it.
pub proof fn law_resolved_arguments_one_more(
    world: World,
    ctx: ContextView,
    type_arguments: Seq<TypeArgument>,
    last: TypeArgument,
    resolved: Seq<TypeArgument>,
)
    ensures
        resolve_arguments_run(world, ctx, Seq::empty(), resolved, 0) == done(
            world,
            Ok::<_, ErrorEmitted>(resolved),
        ),
        resolve_arguments_run(world, ctx, type_arguments.push(last), resolved, 0) == chain_ok(
            resolve_arguments_run(world, ctx, type_arguments, resolved, 0),
            |world: World, resolved: Seq<TypeArgument>|
                chain_ok(
                    resolve_argument_run(world, ctx, last),
                    |world: World, argument: TypeArgument| done(world, Ok(resolved.push(argument))),
                ),
        ),
{
    lemma_resolved_arguments_one_more(world, ctx, type_arguments, last, resolved, 0);
}

/// The same from the `i`-th on.
proof fn lemma_resolved_arguments_one_more(
    world: World,
    ctx: ContextView,
    type_arguments: Seq<TypeArgument>,
    last: TypeArgument,
    resolved: Seq<TypeArgument>,
    i: int,
)
    requires
        0 <= i <= type_arguments.len(),
    ensures
        resolve_arguments_run(world, ctx, type_arguments.push(last), resolved, i) == chain_ok(
            resolve_arguments_run(world, ctx, type_arguments, resolved, i),
            |world: World, resolved: Seq<TypeArgument>|
                chain_ok(
                    resolve_argument_run(world, ctx, last),
                    |world: World, argument: TypeArgument| done(world, Ok(resolved.push(argument))),
                ),
        ),
    decreases type_arguments.len() - i,
{
    if i < type_arguments.len() {
        assert(type_arguments.push(last)[i] == type_arguments[i]);
        let first = chain_ok(
            resolve_argument_run(world, ctx, type_arguments[i]),
            |world: World, argument: TypeArgument| done(world, Ok(resolved.push(argument))),
        );
        if first.value is Some && first.value->0 is Ok {
            lemma_resolved_arguments_one_more(
                first.world,
                ctx,
                type_arguments,
                last,
                first.value->0->Ok_0,
                i + 1,
            );
        }
    } else {
        reveal_with_fuel(resolve_arguments_run, 2);
    }
}

/// An impl block whose type parameters the compiler refuses is refused, and nothing more is
/// asked about its head.
pub proof fn law_head_parameters_refused(
    world: World,
    ctx: ContextView,
    parameters: TypeParameterList,
    trait_type_arguments: Seq<TypeArgument>,
    implementing_for: TypeArgument,
)
    requires
        answered(world, seq![Answer::Failed]),
    ensures
        head_run(world, ctx, parameters, trait_type_arguments, implementing_for) == done(
            world.hear(QueryView::TypeCheckTypeParameters { ctx, parameters }),
            Err::<HeadView, _>(ErrorEmitted),
        ),
{
}

/// The type parameters are made known once they are checked. One that cannot be refuses the
/// head.
pub proof fn law_head_parameters_clash(
    world: World,
    ctx: ContextView,
    parameters: TypeParameterList,
    trait_type_arguments: Seq<TypeArgument>,
    implementing_for: TypeArgument,
    impl_type_parameters: Vec<TypeParameter>,
    inserted: Run<Result<(), ErrorEmitted>>,
)
    requires
        answered(world, seq![Answer::TypeParameters(impl_type_parameters)]),
        inserted == insert_parameters_run(
            world.hear(QueryView::TypeCheckTypeParameters { ctx, parameters }),
            ctx,
            impl_type_parameters@,
            0,
        ),
        inserted.value == Some(Err::<(), _>(ErrorEmitted)),
    ensures
        head_run(
            world,
            ctx,
            parameters,
            trait_type_arguments,
            implementing_for,
        ) == done(inserted.world, Err::<HeadView, _>(ErrorEmitted)),
{
}

/// The type arguments of the trait are resolved behind the type parameters. One that cannot be
/// refuses the head.
pub proof fn law_head_arguments_refused(
    world: World,
    ctx: ContextView,
    parameters: TypeParameterList,
    trait_type_arguments: Seq<TypeArgument>,
    implementing_for: TypeArgument,
    impl_type_parameters: Vec<TypeParameter>,
    inserted: Run<Result<(), ErrorEmitted>>,
    arguments: Run<Result<Seq<TypeArgument>, ErrorEmitted>>,
)
    requires
        answered(world, seq![Answer::TypeParameters(impl_type_parameters)]),
        inserted == insert_parameters_run(
            world.hear(QueryView::TypeCheckTypeParameters { ctx, parameters }),
            ctx,
            impl_type_parameters@,
            0,
        ),
        inserted.value == Some(Ok::<(), ErrorEmitted>(())),
        arguments == resolve_arguments_run(
            inserted.world,
            ctx,
            trait_type_arguments,
            Seq::empty(),
            0,
        ),
        arguments.value == Some(Err::<Seq<TypeArgument>, _>(ErrorEmitted)),
    ensures
        head_run(
            world,
            ctx,
            parameters,
            trait_type_arguments,
            implementing_for,
        ) == done(arguments.world, Err::<HeadView, _>(ErrorEmitted)),
{
}

/// The type that the block is for is resolved behind the type arguments. If it cannot be, the
/// head is refused.
pub proof fn law_head_type_refused(
    world: World,
    ctx: ContextView,
    parameters: TypeParameterList,
    trait_type_arguments: Seq<TypeArgument>,
    implementing_for: TypeArgument,
    impl_type_parameters: Vec<TypeParameter>,
    inserted: Run<Result<(), ErrorEmitted>>,
    arguments: Run<Result<Seq<TypeArgument>, ErrorEmitted>>,
    resolved: Seq<TypeArgument>,
    target: Run<Result<TypeArgument, ErrorEmitted>>,
)
    requires
        answered(world, seq![Answer::TypeParameters(impl_type_parameters)]),
        inserted == insert_parameters_run(
            world.hear(QueryView::TypeCheckTypeParameters { ctx, parameters }),
            ctx,
            impl_type_parameters@,
            0,
        ),
        inserted.value == Some(Ok::<(), ErrorEmitted>(())),
        arguments == resolve_arguments_run(
            inserted.world,
            ctx,
            trait_type_arguments,
            Seq::empty(),
            0,
        ),
        arguments.value == Some(Ok::<Seq<TypeArgument>, ErrorEmitted>(resolved)),
        target == resolve_argument_run(arguments.world, ctx, implementing_for),
        target.value == Some(Err::<TypeArgument, _>(ErrorEmitted)),
    ensures
        head_run(
            world,
            ctx,
            parameters,
            trait_type_arguments,
            implementing_for,
        ) == done(target.world, Err::<HeadView, _>(ErrorEmitted)),
{
}

/// The head holds the type parameters as the compiler checked them, the type arguments as they
/// were resolved, and the type that the block is for as it was resolved. It is checked as a
/// whole last.
pub proof fn law_resolved_head(
    world: World,
    ctx: ContextView,
    parameters: TypeParameterList,
    trait_type_arguments: Seq<TypeArgument>,
    implementing_for: TypeArgument,
    impl_type_parameters: Vec<TypeParameter>,
    inserted: Run<Result<(), ErrorEmitted>>,
    arguments: Run<Result<Seq<TypeArgument>, ErrorEmitted>>,
    resolved: Seq<TypeArgument>,
    target: Run<Result<TypeArgument, ErrorEmitted>>,
    target_type: TypeArgument,
)
    requires
        answered(world, seq![Answer::TypeParameters(impl_type_parameters)]),
        inserted == insert_parameters_run(
            world.hear(QueryView::TypeCheckTypeParameters { ctx, parameters }),
            ctx,
            impl_type_parameters@,
            0,
        ),
        inserted.value == Some(Ok::<(), ErrorEmitted>(())),
        arguments == resolve_arguments_run(
            inserted.world,
            ctx,
            trait_type_arguments,
            Seq::empty(),
            0,
        ),
        arguments.value == Some(Ok::<Seq<TypeArgument>, ErrorEmitted>(resolved)),
        target == resolve_argument_run(arguments.world, ctx, implementing_for),
        target.value == Some(Ok::<TypeArgument, ErrorEmitted>(target_type)),
    ensures
        head_run(world, ctx, parameters, trait_type_arguments, implementing_for) == used_head_run(
            target.world,
            HeadView {
                impl_type_parameters: impl_type_parameters@,
                trait_type_arguments: resolved,
                implementing_for: target_type,
            },
        ),
{
}

/// A type that cannot have an impl block refuses the head, and nothing more is asked about it.
pub proof fn law_unsupported_head(
    world: World,
    head: HeadView,
)
    requires
        answered(world, seq![Answer::Failed]),
    ensures
        used_head_run(world, head) == done(
            world.hear(
                QueryView::CheckSupportedInImplBlocks {
                    type_id: head.implementing_for.type_id,
                    span: head.implementing_for.span,
                },
            ),
            Err::<HeadView, _>(ErrorEmitted),
        ),
{
}

/// A head on a type that can have an impl block comes out as it went in if its type parameters
/// are all used in it, and is refused if not.
pub proof fn law_used_head(
    world: World,
    head: HeadView,
    used: Run<Result<(), ErrorEmitted>>,
)
    requires
        answered(world, seq![Answer::Done]),
        used == unconstrained_run(
            world.hear(
                QueryView::CheckSupportedInImplBlocks {
                    type_id: head.implementing_for.type_id,
                    span: head.implementing_for.span,
                },
            ),
            head.impl_type_parameters,
            head.trait_type_arguments,
            head.implementing_for.type_id,
        ),
    ensures
        used.value == Some(Ok::<(), ErrorEmitted>(())) ==> used_head_run(world, head) == done(
            used.world,
            Ok::<HeadView, ErrorEmitted>(head),
        ),
        used.value == Some(Err::<(), _>(ErrorEmitted)) ==> used_head_run(world, head) == done(
            used.world,
            Err::<HeadView, _>(ErrorEmitted),
        ),
{
}

/// An impl block is checked in a namespace of its own, where constants shadow as items do and
/// functions may be declared. Its head comes first, and a head that is refused refuses the
/// block.
pub proof fn law_block_scope(
    world: World,
    ctx: ContextView,
    block: ImplTrait,
    namespace: u64,
    inner: ContextView,
    head: Run<Result<HeadView, ErrorEmitted>>,
)
    requires
        answered(world, seq![Answer::Namespace(namespace)]),
        inner == (
            ContextView {
                namespace,
                const_shadowing_mode: ConstShadowingMode::ItemStyle,
                disallow_functions: false,
                ..ctx
            }
        ),
        head == head_run(
            world.hear(QueryView::CloneNamespace { namespace: ctx.namespace }),
            inner,
            block.impl_type_parameters,
            block.trait_type_arguments@,
            block.implementing_for,
        ),
    ensures
        head.value == Some(
            Err::<HeadView, _>(ErrorEmitted),
        ) ==> impl_trait_run(
            world,
            ctx,
            block,
        ) == done(
            head.world,
            Err::<ImplView, _>(ErrorEmitted),
        ),
        head.value is Some && head.value->0 is Ok ==> impl_trait_run(
            world,
            ctx,
            block,
        ) == impl_body_run(
            head.world,
            inner,
            block,
            head.value->0->Ok_0,
        ),
{
}

/// The name behind `impl` is resolved with the type that the block is for as the self type,
/// and no type to expect. If it names a trait the block is one of that trait.
pub proof fn law_block_of_trait(
    world: World,
    ctx: ContextView,
    block: ImplTrait,
    head: HeadView,
    annotation: TypeId,
    inner: ContextView,
    decl_id: u64,
)
    requires
        answered(
            world,
            seq![Answer::Type(annotation), Answer::Symbol(TyDecl::TraitDecl { decl_id })],
        ),
        inner == (
            ContextView {
                self_type: head.implementing_for.type_id,
                type_annotation: annotation,
                help_text: None,
                ..ctx
            }
        ),
    ensures
        impl_body_run(world, ctx, block, head) == impl_of_trait_run(
            world.hear(
                QueryView::InsertType { info: TypeInfo::Unknown },
            ).hear(
                QueryView::ResolveCallPath { ctx: inner, path: block.trait_name },
            ),
            inner,
            block,
            head,
            decl_id,
        ),
{
}

/// If the name behind `impl` names an ABI the block is one of that ABI.
pub proof fn law_block_of_abi(
    world: World,
    ctx: ContextView,
    block: ImplTrait,
    head: HeadView,
    annotation: TypeId,
    inner: ContextView,
    decl_id: u64,
)
    requires
        answered(
            world,
            seq![Answer::Type(annotation), Answer::Symbol(TyDecl::AbiDecl { decl_id })],
        ),
        inner == (
            ContextView {
                self_type: head.implementing_for.type_id,
                type_annotation: annotation,
                help_text: None,
                ..ctx
            }
        ),
    ensures
        impl_body_run(world, ctx, block, head) == impl_of_abi_run(
            world.hear(
                QueryView::InsertType { info: TypeInfo::Unknown },
            ).hear(
                QueryView::ResolveCallPath { ctx: inner, path: block.trait_name },
            ),
            inner,
            block,
            head,
            decl_id,
        ),
{
}

/// If the name behind `impl` cannot be resolved, or names neither a trait nor an ABI, the
/// block is refused with one error, and nothing more is asked.
pub proof fn law_block_of_neither(
    world: World,
    ctx: ContextView,
    block: ImplTrait,
    head: HeadView,
    annotation: TypeId,
    inner: ContextView,
    found: Answer,
)
    requires
        answered(world, seq![Answer::Type(annotation), found]),
        inner == (
            ContextView {
                self_type: head.implementing_for.type_id,
                type_annotation: annotation,
                help_text: None,
                ..ctx
            }
        ),
        found is Failed || found is Symbol,
        found is Symbol ==> found->Symbol_0 !is TraitDecl && found->Symbol_0 !is AbiDecl,
    ensures
        impl_body_run(world, ctx, block, head) == done(
            world.hear(
                QueryView::InsertType { info: TypeInfo::Unknown },
            ).hear(
                QueryView::ResolveCallPath { ctx: inner, path: block.trait_name },
            ).emit_plain(
                CompileError::UnknownTrait {
                    name: block.trait_name.suffix,
                    span: block.trait_name.span,
                },
            ),
            Err::<ImplView, _>(ErrorEmitted),
        ),
{
}

/// The trait is fetched and given the type arguments of the head. What comes of that, and the
/// type arguments that come with it, are what the block implements.
pub proof fn law_monomorphized(
    world: World,
    ctx: ContextView,
    block: ImplTrait,
    head: HeadView,
    decl_id: u64,
    trait_decl: TyTraitDecl,
    monomorphized: TyTraitDecl,
    type_arguments: Vec<TypeArgument>,
)
    requires
        answered(
            world,
            seq![Answer::Trait(trait_decl), Answer::Monomorphized(monomorphized, type_arguments)],
        ),
    ensures
        impl_of_trait_run(world, ctx, block, head, decl_id) == impl_of_monomorphized_run(
            world.hear(
                QueryView::GetTrait { id: decl_id },
            ).hear(
                QueryView::Monomorphize {
                    ctx,
                    trait_decl: trait_decl@,
                    type_arguments: head.trait_type_arguments,
                    span: block.trait_name.span,
                },
            ),
            ctx,
            block,
            head,
            decl_id,
            monomorphized,
            type_arguments@,
        ),
{
}

/// A trait that cannot be given the type arguments refuses the block.
pub proof fn law_not_monomorphized(
    world: World,
    ctx: ContextView,
    block: ImplTrait,
    head: HeadView,
    decl_id: u64,
    trait_decl: TyTraitDecl,
)
    requires
        answered(world, seq![Answer::Trait(trait_decl), Answer::Failed]),
    ensures
        impl_of_trait_run(world, ctx, block, head, decl_id) == done(
            world.hear(
                QueryView::GetTrait { id: decl_id },
            ).hear(
                QueryView::Monomorphize {
                    ctx,
                    trait_decl: trait_decl@,
                    type_arguments: head.trait_type_arguments,
                    span: block.trait_name.span,
                },
            ),
            Err::<ImplView, _>(ErrorEmitted),
        ),
{
}

/// The interface surface of the trait is made known for the type first, and then the trait is
/// implemented by the items of the block, with the type parameters of the block, the type
/// parameters of the trait and its type arguments. A refusal refuses the block. If not, the
/// block has the items that come of it, and refers to the trait.
pub proof fn law_implemented_trait(
    world: World,
    ctx: ContextView,
    block: ImplTrait,
    head: HeadView,
    decl_id: u64,
    decl: TyTraitDecl,
    type_arguments: Seq<TypeArgument>,
    surface: Run<()>,
    implemented: Run<Result<Seq<TyTraitItem>, ErrorEmitted>>,
)
    requires
        surface == insert_surface_run(
            world,
            decl@,
            ctx,
            block.trait_name,
            type_arguments,
            head.implementing_for.type_id,
        ),
        surface.value is Some,
        implemented == implementation_run(
            surface.world,
            ctx,
            Implementation {
                impl_type_parameters: head.impl_type_parameters,
                trait_type_parameters: decl.type_parameters@,
                trait_type_arguments: type_arguments,
                trait_supertraits: decl.supertraits@,
                trait_interface_surface: decl.interface_surface@,
                trait_items: decl.items@,
                impl_items: block.items@,
                trait_name: block.trait_name,
                trait_decl_span: decl.span,
                block_span: block.block_span,
                is_contract: false,
            },
        ),
    ensures
        implemented.value == Some(
            Err::<Seq<TyTraitItem>, _>(ErrorEmitted),
        ) ==> impl_of_monomorphized_run(
            world,
            ctx,
            block,
            head,
            decl_id,
            decl,
            type_arguments,
        ) == done(
            implemented.world,
            Err::<ImplView, _>(ErrorEmitted),
        ),
        implemented.value is Some && implemented.value->0 is Ok ==> impl_of_monomorphized_run(
            world,
            ctx,
            block,
            head,
            decl_id,
            decl,
            type_arguments,
        ) == done(
            implemented.world,
            Ok::<ImplView, ErrorEmitted>(
                ImplView {
                    impl_type_parameters: head.impl_type_parameters,
                    trait_name: block.trait_name@,
                    trait_type_arguments: type_arguments,
                    items: implemented.value->0->Ok_0,
                    trait_decl_ref: Some(
                        InterfaceDeclRef {
                            name: decl.name,
                            id: InterfaceDeclId::Trait(decl_id),
                            span: decl.span,
                        },
                    ),
                    implementing_for: head.implementing_for,
                    span: block.block_span,
                },
            ),
        ),
{
}

/// An ABI is fetched, and its interface surface made known for the contract type, in the mode
/// of that ABI; whether that succeeds makes no difference.
pub proof fn law_abi_for_contract(
    world: World,
    ctx: ContextView,
    block: ImplTrait,
    head: HeadView,
    decl_id: u64,
    decl: TyAbiDecl,
    inner: ContextView,
    inserted: Answer,
)
    requires
        answered(world, seq![Answer::Abi(decl), Answer::Flag(true), inserted]),
        inner == (ContextView { abi_mode: AbiMode::ImplAbiFn(decl.name), ..ctx }),
        inserted is Done || inserted is Failed,
    ensures
        impl_of_abi_run(world, ctx, block, head, decl_id) == impl_of_known_abi_run(
            world.hear(
                QueryView::GetAbi { id: decl_id },
            ).hear(
                QueryView::IsContract { type_id: head.implementing_for.type_id },
            ).hear(
                QueryView::InsertAbiSurface {
                    ctx: inner,
                    abi_id: decl_id,
                    type_id: head.implementing_for.type_id,
                },
            ),
            inner,
            block,
            head,
            decl_id,
            decl,
        ),
{
}

/// For a type that is not the contract type that is one error, in which the type is written
/// out, and the check goes on as it would.
pub proof fn law_abi_for_another(
    world: World,
    ctx: ContextView,
    block: ImplTrait,
    head: HeadView,
    decl_id: u64,
    decl: TyAbiDecl,
    inner: ContextView,
    inserted: Answer,
    text: String,
)
    requires
        answered(world, seq![Answer::Abi(decl), Answer::Flag(false), Answer::Text(text), inserted]),
        inner == (ContextView { abi_mode: AbiMode::ImplAbiFn(decl.name), ..ctx }),
        inserted is Done || inserted is Failed,
    ensures
        impl_of_abi_run(world, ctx, block, head, decl_id) == impl_of_known_abi_run(
            world.hear(
                QueryView::GetAbi { id: decl_id },
            ).hear(
                QueryView::IsContract { type_id: head.implementing_for.type_id },
            ).hear(
                QueryView::DescribeType { type_id: head.implementing_for.type_id },
            ).emit_plain(
                CompileError::ImplAbiForNonContract { span: head.implementing_for.span, ty: text },
            ).hear(
                QueryView::InsertAbiSurface {
                    ctx: inner,
                    abi_id: decl_id,
                    type_id: head.implementing_for.type_id,
                },
            ),
            inner,
            block,
            head,
            decl_id,
            decl,
        ),
{
}

/// An ABI is implemented by the items of the block, without type parameters and type
/// arguments, and as an ABI. A refusal refuses the block. If not, the block has the items that
/// come of it, and refers to the ABI.
pub proof fn law_implemented_abi(
    world: World,
    ctx: ContextView,
    block: ImplTrait,
    head: HeadView,
    decl_id: u64,
    decl: TyAbiDecl,
    implemented: Run<Result<Seq<TyTraitItem>, ErrorEmitted>>,
)
    requires
        implemented == implementation_run(
            world,
            ctx,
            Implementation {
                impl_type_parameters: Seq::empty(),
                trait_type_parameters: Seq::empty(),
                trait_type_arguments: Seq::empty(),
                trait_supertraits: decl.supertraits@,
                trait_interface_surface: decl.interface_surface@,
                trait_items: decl.items@,
                impl_items: block.items@,
                trait_name: block.trait_name,
                trait_decl_span: decl.span,
                block_span: block.block_span,
                is_contract: true,
            },
        ),
    ensures
        implemented.value == Some(
            Err::<Seq<TyTraitItem>, _>(ErrorEmitted),
        ) ==> impl_of_known_abi_run(
            world,
            ctx,
            block,
            head,
            decl_id,
            decl,
        ) == done(
            implemented.world,
            Err::<ImplView, _>(ErrorEmitted),
        ),
        implemented.value is Some && implemented.value->0 is Ok ==> impl_of_known_abi_run(
            world,
            ctx,
            block,
            head,
            decl_id,
            decl,
        ) == done(
            implemented.world,
            Ok::<ImplView, ErrorEmitted>(
                ImplView {
                    impl_type_parameters: Seq::empty(),
                    trait_name: block.trait_name@,
                    trait_type_arguments: Seq::empty(),
                    items: implemented.value->0->Ok_0,
                    trait_decl_ref: Some(
                        InterfaceDeclRef {
                            name: decl.name,
                            id: InterfaceDeclId::Abi(decl_id),
                            span: decl.span,
                        },
                    ),
                    implementing_for: head.implementing_for,
                    span: block.block_span,
                },
            ),
        ),
{
}

/// An impl block without a trait goes by the name that its type was written by, or by `r#Self`
/// if it was written by none.
pub proof fn law_self_name(
    world: World,
    implementing_for: TypeArgument,
    name: Ident,
)
    ensures
        answered(
            world,
            seq![Answer::Name(Some(name))],
        ) ==> self_name_run(
            world,
            implementing_for,
        ) == done(
            world.hear(QueryView::CustomTypeName { type_id: implementing_for.type_id }),
            CallPathView { prefixes: None, suffix: name@, is_absolute: false, span: name.span },
        ),
        answered(
            world,
            seq![Answer::Name(None)],
        ) ==> self_name_run(
            world,
            implementing_for,
        ) == done(
            world.hear(QueryView::CustomTypeName { type_id: implementing_for.type_id }),
            CallPathView {
                prefixes: None,
                suffix: IdentView { name: "r#Self"@, span: implementing_for.span },
                is_absolute: false,
                span: implementing_for.span,
            },
        ),
{
}

/// Of a function the signature alone is checked and kept.
pub proof fn law_signature_of_function(
    world: World,
    ctx: ContextView,
    parsed: FunctionDeclaration,
    decl: TyFunctionDecl,
    decl_ref: DeclRef,
)
    requires
        answered(world, seq![Answer::Decl(Decl::Function(decl)), Answer::DeclRef(decl_ref)]),
    ensures
        signature_run(world, ctx, ImplItem::Fn(parsed)) == done(
            world.hear(
                QueryView::TypeCheckFunctionSignature { ctx, parsed },
            ).hear(
                QueryView::InsertDecl { decl: DeclView::Function(decl@), parent: None },
            ),
            Ok::<Option<TyTraitItem>, ErrorEmitted>(Some(TyTraitItem::Fn(decl_ref))),
        ),
{
}

/// One that the compiler refuses is left out, and the other items are still gone through.
pub proof fn law_no_signature_of_function(
    world: World,
    ctx: ContextView,
    parsed: FunctionDeclaration,
)
    requires
        answered(world, seq![Answer::Failed]),
    ensures
        signature_run(world, ctx, ImplItem::Fn(parsed)) == done(
            world.hear(QueryView::TypeCheckFunctionSignature { ctx, parsed }),
            Ok::<Option<TyTraitItem>, ErrorEmitted>(None),
        ),
{
}

/// A constant whose name cannot be made known ends the check of the items with an error.
pub proof fn law_signature_of_constant_clash(
    world: World,
    ctx: ContextView,
    parsed: ConstantDeclaration,
    decl: TyConstantDecl,
    decl_ref: DeclRef,
)
    requires
        answered(
            world,
            seq![Answer::Decl(Decl::Constant(decl)), Answer::DeclRef(decl_ref), Answer::Failed],
        ),
    ensures
        signature_run(world, ctx, ImplItem::Constant(parsed)) == done(
            world.hear(
                QueryView::TypeCheckConstant { ctx, parsed },
            ).hear(
                QueryView::InsertDecl { decl: DeclView::Constant(decl), parent: None },
            ).hear(
                QueryView::InsertSymbol {
                    ctx,
                    name: decl_ref.name@,
                    decl: TyDecl::ConstantDecl {
                        name: decl_ref.name,
                        decl_id: decl_ref.id,
                        decl_span: decl_ref.span,
                    },
                },
            ),
            Err::<Option<TyTraitItem>, _>(ErrorEmitted),
        ),
{
}

/// A constant is checked and kept, and its name made known.
pub proof fn law_signature_of_constant(
    world: World,
    ctx: ContextView,
    parsed: ConstantDeclaration,
    decl: TyConstantDecl,
    decl_ref: DeclRef,
)
    requires
        answered(
            world,
            seq![Answer::Decl(Decl::Constant(decl)), Answer::DeclRef(decl_ref), Answer::Done],
        ),
    ensures
        signature_run(world, ctx, ImplItem::Constant(parsed)) == done(
            world.hear(
                QueryView::TypeCheckConstant { ctx, parsed },
            ).hear(
                QueryView::InsertDecl { decl: DeclView::Constant(decl), parent: None },
            ).hear(
                QueryView::InsertSymbol {
                    ctx,
                    name: decl_ref.name@,
                    decl: TyDecl::ConstantDecl {
                        name: decl_ref.name,
                        decl_id: decl_ref.id,
                        decl_span: decl_ref.span,
                    },
                },
            ),
            Ok::<Option<TyTraitItem>, ErrorEmitted>(Some(TyTraitItem::Constant(decl_ref))),
        ),
{
}

/// One that the compiler refuses is left out, and the other items are still gone through.
pub proof fn law_no_signature_of_constant(
    world: World,
    ctx: ContextView,
    parsed: ConstantDeclaration,
)
    requires
        answered(world, seq![Answer::Failed]),
    ensures
        signature_run(world, ctx, ImplItem::Constant(parsed)) == done(
            world.hear(QueryView::TypeCheckConstant { ctx, parsed }),
            Ok::<Option<TyTraitItem>, ErrorEmitted>(None),
        ),
{
}

/// An associated type is checked and kept.
pub proof fn law_signature_of_type(
    world: World,
    ctx: ContextView,
    parsed: TraitTypeDeclaration,
    decl: TyTraitType,
    decl_ref: DeclRef,
)
    requires
        answered(world, seq![Answer::Decl(Decl::TraitType(decl)), Answer::DeclRef(decl_ref)]),
    ensures
        signature_run(world, ctx, ImplItem::Type(parsed)) == done(
            world.hear(
                QueryView::TypeCheckTraitType { ctx, parsed },
            ).hear(
                QueryView::InsertDecl { decl: DeclView::TraitType(decl), parent: None },
            ),
            Ok::<Option<TyTraitItem>, ErrorEmitted>(Some(TyTraitItem::Type(decl_ref))),
        ),
{
}

/// One that the compiler refuses is left out, and the other items are still gone through.
pub proof fn law_no_signature_of_type(
    world: World,
    ctx: ContextView,
    parsed: TraitTypeDeclaration,
)
    requires
        answered(world, seq![Answer::Failed]),
    ensures
        signature_run(world, ctx, ImplItem::Type(parsed)) == done(
            world.hear(QueryView::TypeCheckTraitType { ctx, parsed }),
            Ok::<Option<TyTraitItem>, ErrorEmitted>(None),
        ),
{
}

/// Items with one more behind them, if there is one.
pub open spec fn with_another(items: Seq<TyTraitItem>, another: Option<TyTraitItem>) -> Seq<
    TyTraitItem,
> {
    if let Some(item) = another {
        items.push(item)
    } else {
        items
    }
}

/// Each item of an impl block without a trait is checked once, in their order, and kept behind
/// those before it unless it is left out. One item more changes nothing for those before it.
pub proof fn law_signatures_one_more(
    world: World,
    ctx: ContextView,
    items: Seq<ImplItem>,
    last: ImplItem,
    new_items: Seq<TyTraitItem>,
)
    ensures
        signatures_run(world, ctx, Seq::empty(), new_items, 0) == done(
            world,
            Ok::<_, ErrorEmitted>(new_items),
        ),
        signatures_run(world, ctx, items.push(last), new_items, 0) == chain_ok(
            signatures_run(world, ctx, items, new_items, 0),
            |world: World, new_items: Seq<TyTraitItem>|
                chain_ok(
                    signature_run(world, ctx, last),
                    |world: World, item: Option<TyTraitItem>|
                        done(world, Ok(with_another(new_items, item))),
                ),
        ),
{
    lemma_signatures_one_more(world, ctx, items, last, new_items, 0);
}

/// The same from the `i`-th on.
proof fn lemma_signatures_one_more(
    world: World,
    ctx: ContextView,
    items: Seq<ImplItem>,
    last: ImplItem,
    new_items: Seq<TyTraitItem>,
    i: int,
)
    requires
        0 <= i <= items.len(),
    ensures
        signatures_run(world, ctx, items.push(last), new_items, i) == chain_ok(
            signatures_run(world, ctx, items, new_items, i),
            |world: World, new_items: Seq<TyTraitItem>|
                chain_ok(
                    signature_run(world, ctx, last),
                    |world: World, item: Option<TyTraitItem>|
                        done(world, Ok(with_another(new_items, item))),
                ),
        ),
    decreases items.len() - i,
{
    if i < items.len() {
        assert(items.push(last)[i] == items[i]);
        let first = chain_ok(
            signature_run(world, ctx, items[i]),
            |world: World, item: Option<TyTraitItem>|
                done(world, Ok(with_another(new_items, item))),
        );
        if first.value is Some && first.value->0 is Ok {
            lemma_signatures_one_more(first.world, ctx, items, last, first.value->0->Ok_0, i + 1);
        }
    } else {
        reveal_with_fuel(signatures_run, 2);
    }
}

/// The body of a function is checked once, against the declaration that is kept for it, and
/// the outcome is put in the place of that declaration.
pub proof fn law_body(
    world: World,
    ctx: ContextView,
    parsed: FunctionDeclaration,
    decl_ref: DeclRef,
    decl: TyFunctionDecl,
    checked: TyFunctionDecl,
)
    requires
        answered(
            world,
            seq![
                Answer::Decl(Decl::Function(decl)),
                Answer::Decl(Decl::Function(checked)),
                Answer::Done,
            ],
        ),
    ensures
        body_run(world, ctx, ImplItem::Fn(parsed), TyTraitItem::Fn(decl_ref)) == done(
            world.hear(
                QueryView::GetDecl { kind: DeclKind::Function, id: decl_ref.id },
            ).hear(
                QueryView::TypeCheckFunctionBody { ctx, parsed, decl: decl@ },
            ).hear(
                QueryView::ReplaceDecl { id: decl_ref.id, decl: DeclView::Function(checked@) },
            ),
            (),
        ),
{
}

/// A body that the compiler refuses leaves the declaration that is kept for it as it is, and
/// the other bodies are still checked.
pub proof fn law_refused_body(
    world: World,
    ctx: ContextView,
    parsed: FunctionDeclaration,
    decl_ref: DeclRef,
    decl: TyFunctionDecl,
)
    requires
        answered(world, seq![Answer::Decl(Decl::Function(decl)), Answer::Failed]),
    ensures
        body_run(world, ctx, ImplItem::Fn(parsed), TyTraitItem::Fn(decl_ref)) == done(
            world.hear(
                QueryView::GetDecl { kind: DeclKind::Function, id: decl_ref.id },
            ).hear(
                QueryView::TypeCheckFunctionBody { ctx, parsed, decl: decl@ },
            ),
            (),
        ),
{
}

/// Constants and associated types have no body, and nothing is asked about them. An item that
/// is not of the kind that was parsed in its place cannot be gone on from.
pub proof fn law_no_body(
    world: World,
    ctx: ContextView,
    item: ImplItem,
    new_item: TyTraitItem,
)
    ensures
        item is Constant && new_item is Constant || item is Type && new_item is Type ==> body_run(
            world,
            ctx,
            item,
            new_item,
        ) == done(world, ()),
        item is Fn != new_item is Fn || item is Constant != new_item is Constant ==> body_run(
            world,
            ctx,
            item,
            new_item,
        ).value is None && body_run(
            world,
            ctx,
            item,
            new_item,
        ).world == world.stopped(
            StopView::Contradiction,
        ),
{
}

/// The bodies of all functions among the items are checked, in their order, each with the item
/// in its place. One pair of items more changes nothing for those before it.
pub proof fn law_bodies_one_more(
    world: World,
    ctx: ContextView,
    items: Seq<ImplItem>,
    new_items: Seq<TyTraitItem>,
    last: ImplItem,
    new_last: TyTraitItem,
)
    requires
        items.len() == new_items.len(),
    ensures
        bodies_run(world, ctx, Seq::empty(), Seq::empty(), 0) == done(world, ()),
        bodies_run(world, ctx, items.push(last), new_items.push(new_last), 0) == chain(
            bodies_run(world, ctx, items, new_items, 0),
            |world: World, _before: ()| body_run(world, ctx, last, new_last),
        ),
{
    lemma_bodies_one_more(world, ctx, items, new_items, last, new_last, 0);
}

/// The same from the `i`-th on.
proof fn lemma_bodies_one_more(
    world: World,
    ctx: ContextView,
    items: Seq<ImplItem>,
    new_items: Seq<TyTraitItem>,
    last: ImplItem,
    new_last: TyTraitItem,
    i: int,
)
    requires
        items.len() == new_items.len(),
        0 <= i <= items.len(),
    ensures
        bodies_run(world, ctx, items.push(last), new_items.push(new_last), i) == chain(
            bodies_run(world, ctx, items, new_items, i),
            |world: World, _before: ()| body_run(world, ctx, last, new_last),
        ),
    decreases items.len() - i,
{
    if i < items.len() {
        assert(items.push(last)[i] == items[i]);
        assert(new_items.push(new_last)[i] == new_items[i]);
        let first = body_run(world, ctx, items[i], new_items[i]);
        if first.value is Some {
            lemma_bodies_one_more(first.world, ctx, items, new_items, last, new_last, i + 1);
        }
    } else {
        reveal_with_fuel(bodies_run, 2);
    }
}

/// Items without another in their place are passed over.
pub proof fn law_bodies_in_pairs(
    world: World,
    ctx: ContextView,
    items: Seq<ImplItem>,
    new_items: Seq<TyTraitItem>,
    more: Seq<ImplItem>,
    new_more: Seq<TyTraitItem>,
)
    requires
        items.len() == new_items.len(),
        more.len() == 0 || new_more.len() == 0,
    ensures
        bodies_run(world, ctx, items + more, new_items + new_more, 0) == bodies_run(
            world,
            ctx,
            items,
            new_items,
            0,
        ),
{
    lemma_bodies_in_pairs(world, ctx, items, new_items, more, new_more, 0);
}

/// The same from the `i`-th on.
proof fn lemma_bodies_in_pairs(
    world: World,
    ctx: ContextView,
    items: Seq<ImplItem>,
    new_items: Seq<TyTraitItem>,
    more: Seq<ImplItem>,
    new_more: Seq<TyTraitItem>,
    i: int,
)
    requires
        items.len() == new_items.len(),
        more.len() == 0 || new_more.len() == 0,
        0 <= i <= items.len(),
    ensures
        bodies_run(world, ctx, items + more, new_items + new_more, i) == bodies_run(
            world,
            ctx,
            items,
            new_items,
            i,
        ),
    decreases items.len() - i,
{
    if i < items.len() {
        assert((items + more)[i] == items[i]);
        assert((new_items + new_more)[i] == new_items[i]);
        let first = body_run(world, ctx, items[i], new_items[i]);
        if first.value is Some {
            lemma_bodies_in_pairs(first.world, ctx, items, new_items, more, new_more, i + 1);
        }
    }
}

/// A function is fetched, finished once, and put in its own place.
pub proof fn law_finished_function(
    world: World,
    ctx: ContextView,
    decl_ref: DeclRef,
    decl: TyFunctionDecl,
    finished: TyFunctionDecl,
)
    requires
        answered(
            world,
            seq![
                Answer::Decl(Decl::Function(decl)),
                Answer::Decl(Decl::Function(finished)),
                Answer::Done,
            ],
        ),
    ensures
        finish_item_run(world, ctx, TyTraitItem::Fn(decl_ref)) == done(
            world.hear(
                QueryView::GetDecl { kind: DeclKind::Function, id: decl_ref.id },
            ).hear(
                QueryView::FinalizeDecl { ctx, decl: DeclView::Function(decl@) },
            ).hear(
                QueryView::ReplaceDecl { id: decl_ref.id, decl: DeclView::Function(finished@) },
            ),
            (),
        ),
{
}

/// A constant is fetched, finished once, and put in its own place.
pub proof fn law_finished_constant(
    world: World,
    ctx: ContextView,
    decl_ref: DeclRef,
    decl: TyConstantDecl,
    finished: TyConstantDecl,
)
    requires
        answered(
            world,
            seq![
                Answer::Decl(Decl::Constant(decl)),
                Answer::Decl(Decl::Constant(finished)),
                Answer::Done,
            ],
        ),
    ensures
        finish_item_run(world, ctx, TyTraitItem::Constant(decl_ref)) == done(
            world.hear(
                QueryView::GetDecl { kind: DeclKind::Constant, id: decl_ref.id },
            ).hear(
                QueryView::FinalizeDecl { ctx, decl: DeclView::Constant(decl) },
            ).hear(
                QueryView::ReplaceDecl { id: decl_ref.id, decl: DeclView::Constant(finished) },
            ),
            (),
        ),
{
}

/// An associated type has nothing to finish, and nothing is asked about it.
pub proof fn law_finished_type(
    world: World,
    ctx: ContextView,
    decl_ref: DeclRef,
)
    ensures
        finish_item_run(world, ctx, TyTraitItem::Type(decl_ref)) == done(world, ()),
{
}

/// Each item of an impl block without a trait is finished, in their order. One item more
/// changes nothing for those before it.
pub proof fn law_finish_one_more(
    world: World,
    ctx: ContextView,
    items: Seq<TyTraitItem>,
    last: TyTraitItem,
)
    ensures
        finish_run(world, ctx, Seq::empty(), 0) == done(world, ()),
        finish_run(world, ctx, items.push(last), 0) == chain(
            finish_run(world, ctx, items, 0),
            |world: World, _before: ()| finish_item_run(world, ctx, last),
        ),
{
    lemma_finish_one_more(world, ctx, items, last, 0);
}

/// The same from the `i`-th on.
proof fn lemma_finish_one_more(
    world: World,
    ctx: ContextView,
    items: Seq<TyTraitItem>,
    last: TyTraitItem,
    i: int,
)
    requires
        0 <= i <= items.len(),
    ensures
        finish_run(world, ctx, items.push(last), i) == chain(
            finish_run(world, ctx, items, i),
            |world: World, _before: ()| finish_item_run(world, ctx, last),
        ),
    decreases items.len() - i,
{
    if i < items.len() {
        assert(items.push(last)[i] == items[i]);
        let first = finish_item_run(world, ctx, items[i]);
        if first.value is Some {
            lemma_finish_one_more(first.world, ctx, items, last, i + 1);
        }
    } else {
        reveal_with_fuel(finish_run, 2);
    }
}

/// All signatures are checked before any body. An error that ends them refuses the items.
pub proof fn law_refused_signatures(
    world: World,
    ctx: ContextView,
    items: Seq<ImplItem>,
    signatures: Run<Result<Seq<TyTraitItem>, ErrorEmitted>>,
)
    requires
        signatures == signatures_run(world, ctx, items, Seq::empty(), 0),
        signatures.value == Some(Err::<Seq<TyTraitItem>, _>(ErrorEmitted)),
    ensures
        self_items_run(world, ctx, items) == signatures,
{
}

/// The bodies come once all signatures are kept, and the items are finished last. The items
/// are those that were kept, and an error on the way refuses them.
pub proof fn law_self_item_order(
    world: World,
    ctx: ContextView,
    items: Seq<ImplItem>,
    signatures: Run<Result<Seq<TyTraitItem>, ErrorEmitted>>,
    new_items: Seq<TyTraitItem>,
    bodies: Run<()>,
    finished: Run<()>,
)
    requires
        signatures == signatures_run(world, ctx, items, Seq::empty(), 0),
        signatures.value == Some(Ok::<Seq<TyTraitItem>, ErrorEmitted>(new_items)),
        bodies == bodies_run(signatures.world, ctx, items, new_items, 0),
        bodies.value is Some,
        finished == finish_run(bodies.world, ctx, new_items, 0),
        finished.value is Some,
    ensures
        self_items_run(world, ctx, items) == done(
            finished.world,
            if finished.world.errors.len() > world.errors.len() {
                Err(ErrorEmitted)
            } else {
                Ok(new_items)
            },
        ),
{
}

/// If the type of an impl block has a declaration, that declaration becomes known as `Self`;
/// whether that succeeds makes no difference. If it has none, nothing more is asked.
pub proof fn law_self_symbol(
    world: World,
    ctx: ContextView,
    type_id: TypeId,
    decl: TyDecl,
    inserted: Answer,
)
    requires
        inserted is Done || inserted is Failed,
    ensures
        answered(
            world,
            seq![Answer::MaybeSymbol(Some(decl)), inserted],
        ) ==> self_symbol_run(
            world,
            ctx,
            type_id,
        ) == done(
            world.hear(
                QueryView::TypeDeclaration { type_id },
            ).hear(
                QueryView::InsertSymbol {
                    ctx,
                    name: IdentView { name: "Self"@, span: dummy_span() },
                    decl,
                },
            ),
            (),
        ),
        answered(
            world,
            seq![Answer::MaybeSymbol(None)],
        ) ==> self_symbol_run(
            world,
            ctx,
            type_id,
        ) == done(
            world.hear(QueryView::TypeDeclaration { type_id }),
            (),
        ),
{
}

/// The type of an impl block without a trait must meet the constraints of its own type
/// parameters. If not the block is refused, and nothing more is asked.
pub proof fn law_self_bounds(
    world: World,
    ctx: ContextView,
    block: ImplSelf,
    trait_name: CallPathView,
    head: HeadView,
)
    requires
        answered(world, seq![Answer::Failed]),
    ensures
        self_body_run(world, ctx, block, trait_name, head) == done(
            world.hear(
                QueryView::CheckTypeParameterBounds {
                    ctx,
                    type_id: head.implementing_for.type_id,
                    span: head.implementing_for.span,
                    constraints_of: None,
                },
            ),
            Err::<ImplView, _>(ErrorEmitted),
        ),
{
}

/// The items are checked with the type of the block as the self type, no type to expect, and
/// its declaration known as `Self`. A refusal refuses the block. If not, the block has the
/// items that come of it, and refers to no interface.
pub proof fn law_self_body(
    world: World,
    ctx: ContextView,
    block: ImplSelf,
    trait_name: CallPathView,
    head: HeadView,
    annotation: TypeId,
    inner: ContextView,
    known: Run<()>,
    items: Run<Result<Seq<TyTraitItem>, ErrorEmitted>>,
)
    requires
        answered(world, seq![Answer::Done, Answer::Type(annotation)]),
        inner == (
            ContextView {
                self_type: head.implementing_for.type_id,
                type_annotation: annotation,
                help_text: None,
                ..ctx
            }
        ),
        known == self_symbol_run(
            world.hear(
                QueryView::CheckTypeParameterBounds {
                    ctx,
                    type_id: head.implementing_for.type_id,
                    span: head.implementing_for.span,
                    constraints_of: None,
                },
            ).hear(
                QueryView::InsertType { info: TypeInfo::Unknown },
            ),
            inner,
            head.implementing_for.type_id,
        ),
        known.value is Some,
        items == self_items_run(known.world, inner, block.items@),
    ensures
        items.value == Some(
            Err::<Seq<TyTraitItem>, _>(ErrorEmitted),
        ) ==> self_body_run(
            world,
            ctx,
            block,
            trait_name,
            head,
        ) == done(
            items.world,
            Err::<ImplView, _>(ErrorEmitted),
        ),
        items.value is Some && items.value->0 is Ok ==> self_body_run(
            world,
            ctx,
            block,
            trait_name,
            head,
        ) == done(
            items.world,
            Ok::<ImplView, ErrorEmitted>(
                ImplView {
                    impl_type_parameters: head.impl_type_parameters,
                    trait_name,
                    trait_type_arguments: Seq::empty(),
                    items: items.value->0->Ok_0,
                    trait_decl_ref: None,
                    implementing_for: head.implementing_for,
                    span: block.block_span,
                },
            ),
        ),
{
}

/// An impl block without a trait is checked in a namespace of its own, where constants shadow
/// as items do, functions may be declared, and monomorphization is put off. The name that it
/// goes by is looked for first, then its head is checked, without type arguments; a head that
/// is refused refuses the block.
pub proof fn law_self_scope(
    world: World,
    ctx: ContextView,
    block: ImplSelf,
    namespace: u64,
    inner: ContextView,
    name: Run<CallPathView>,
    head: Run<Result<HeadView, ErrorEmitted>>,
)
    requires
        answered(world, seq![Answer::Namespace(namespace)]),
        inner == (
            ContextView {
                namespace,
                const_shadowing_mode: ConstShadowingMode::ItemStyle,
                disallow_functions: false,
                defer_monomorphization: true,
                ..ctx
            }
        ),
        name == self_name_run(
            world.hear(QueryView::CloneNamespace { namespace: ctx.namespace }),
            block.implementing_for,
        ),
        name.value is Some,
        head == head_run(
            name.world,
            inner,
            block.impl_type_parameters,
            Seq::empty(),
            block.implementing_for,
        ),
    ensures
        head.value == Some(
            Err::<HeadView, _>(ErrorEmitted),
        ) ==> impl_self_run(
            world,
            ctx,
            block,
        ) == done(
            head.world,
            Err::<ImplView, _>(ErrorEmitted),
        ),
        head.value is Some && head.value->0 is Ok ==> impl_self_run(
            world,
            ctx,
            block,
        ) == self_body_run(
            head.world,
            inner,
            block,
            name.value->0,
            head.value->0->Ok_0,
        ),
{
}

} // verus!
