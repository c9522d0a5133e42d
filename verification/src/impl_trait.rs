//! Impl blocks.
use crate::decl::{
    plain_path, CallPath, CallPathView, ConstantDeclaration, Decl, DeclKind, DeclRef, DeclView,
    FunctionDeclaration, ImplItem, ImplSelf, ImplTrait, ImplView, InterfaceDeclId,
    InterfaceDeclRef, TraitTypeDeclaration, TyAbiDecl, TyConstantDecl, TyDecl, TyFunctionDecl,
    TyImplItem, TyImplTrait, TyTraitDecl, TyTraitItem, TyTraitType, TypeParameterList,
};
use crate::diagnostics::{CompileError, ErrorEmitted};
use crate::duplicate::Duplicate;
use crate::generics::{check_for_unconstrained_type_parameters, unconstrained_run};
use crate::ident::{dummy_span, Ident, IdentView, Span};
use crate::implementation::{
    implementation_run, type_check_trait_implementation, Implementation,
};
use crate::session::{
    ask, chain, chain_ok, contradiction, done, list_result, run, scoped, to_abi,
    to_checked_constant, to_checked_function, to_checked_trait_type, to_constant, to_decl_ref,
    to_done, to_flag, to_function, to_maybe_symbol, to_monomorphized, to_name, to_namespace,
    to_outcome, to_resolved_type, to_symbol, to_text, to_trait, to_type, to_type_parameters,
    Context, ContextView, Query, QueryView, Run, Session, World,
};
use crate::surface::insert_surface_run;
use crate::trait_decl::{
    finalize_items, finalized, insert_parameters_run, insert_type_parameters,
};
use crate::types::{TypeArgument, TypeId, TypeInfo, TypeParameter};
use vstd::prelude::*;

verus! {

/// Resolves the types of the arguments from the `i`-th on; `resolved` are those before.
pub open spec fn resolve_arguments_run(
    world: World,
    ctx: ContextView,
    type_arguments: Seq<TypeArgument>,
    resolved: Seq<TypeArgument>,
    i: int,
) -> Run<Result<Seq<TypeArgument>, ErrorEmitted>>
    decreases type_arguments.len() - i,
{
    if i >= type_arguments.len() {
        done(world, Ok(resolved))
    } else {
        chain_ok(
            resolve_argument_run(world, ctx, type_arguments[i]),
            |world: World, argument: TypeArgument|
                resolve_arguments_run(
                    world,
                    ctx,
                    type_arguments,
                    resolved.push(argument),
                    i + 1,
                ),
        )
    }
}

/// Resolves the type of an argument.
pub open spec fn resolve_argument_run(
    world: World,
    ctx: ContextView,
    argument: TypeArgument,
) -> Run<Result<TypeArgument, ErrorEmitted>> {
    chain_ok(
        to_resolved_type(
            ask(
                world,
                QueryView::ResolveType { ctx, type_id: argument.type_id, span: argument.span },
            ),
        ),
        |world: World, type_id: TypeId| done(world, Ok(TypeArgument { type_id, ..argument })),
    )
}

fn resolve_argument(cx: &mut Session, ctx: &Context, argument: TypeArgument) -> (result: Option<
    Result<TypeArgument, ErrorEmitted>,
>)
    ensures
        run(final(cx)@, result) == resolve_argument_run(old(cx)@, ctx@, argument),
{
    match cx.ask_resolved_type(
        Query::ResolveType {
            ctx: ctx.duplicate(),
            type_id: argument.type_id,
            span: argument.span,
        },
    )? {
        Ok(type_id) => Some(
            Ok(TypeArgument { type_id, span: argument.span, key: argument.key }),
        ),
        Err(error) => Some(Err(error)),
    }
}

fn resolve_arguments(
    cx: &mut Session,
    ctx: &Context,
    type_arguments: &Vec<TypeArgument>,
) -> (result: Option<Result<Vec<TypeArgument>, ErrorEmitted>>)
    ensures
        run(final(cx)@, list_result(result)) == resolve_arguments_run(
            old(cx)@,
            ctx@,
            type_arguments@,
            Seq::empty(),
            0,
        ),
{
    let mut resolved: Vec<TypeArgument> = Vec::new();
    let mut i: usize = 0;
    while i < type_arguments.len()
        invariant
            i <= type_arguments@.len(),
            resolve_arguments_run(old(cx)@, ctx@, type_arguments@, Seq::empty(), 0)
                == resolve_arguments_run(cx@, ctx@, type_arguments@, resolved@, i as int),
        decreases type_arguments@.len() - i,
    {
        match resolve_argument(cx, ctx, type_arguments[i])? {
            Ok(argument) => {
                resolved.push(argument);
            },
            Err(error) => return Some(Err(error)),
        }
        i = i + 1;
    }
    Some(Ok(resolved))
}

/// The head of an impl block once it was checked.
pub struct HeadView {
    pub impl_type_parameters: Seq<TypeParameter>,
    pub trait_type_arguments: Seq<TypeArgument>,
    pub implementing_for: TypeArgument,
}

/// What checking the head of an impl block comes to: its type parameters are checked and made
/// known, the types in it resolved, the type it is for must be one that can have an impl
/// block, and each type parameter must be used.
pub open spec fn head_run(
    world: World,
    ctx: ContextView,
    parameters: TypeParameterList,
    trait_type_arguments: Seq<TypeArgument>,
    implementing_for: TypeArgument,
) -> Run<Result<HeadView, ErrorEmitted>> {
    chain_ok(
        to_type_parameters(ask(world, QueryView::TypeCheckTypeParameters { ctx, parameters })),
        |world: World, impl_type_parameters: Vec<TypeParameter>|
            chain_ok(
                insert_parameters_run(world, ctx, impl_type_parameters@, 0),
                |world: World, _inserted: ()|
                    chain_ok(
                        resolve_arguments_run(world, ctx, trait_type_arguments, Seq::empty(), 0),
                        |world: World, trait_type_arguments: Seq<TypeArgument>|
                            chain_ok(
                                resolve_argument_run(world, ctx, implementing_for),
                                |world: World, implementing_for: TypeArgument|
                                    used_head_run(
                                        world,
                                        HeadView {
                                            impl_type_parameters: impl_type_parameters@,
                                            trait_type_arguments,
                                            implementing_for,
                                        },
                                    ),
                            ),
                    ),
            ),
    )
}

/// Checks the resolved head of an impl block.
pub open spec fn used_head_run(world: World, head: HeadView) -> Run<
    Result<HeadView, ErrorEmitted>,
> {
    chain_ok(
        to_outcome(
            ask(
                world,
                QueryView::CheckSupportedInImplBlocks {
                    type_id: head.implementing_for.type_id,
                    span: head.implementing_for.span,
                },
            ),
        ),
        |world: World, _supported: ()|
            chain_ok(
                unconstrained_run(
                    world,
                    head.impl_type_parameters,
                    head.trait_type_arguments,
                    head.implementing_for.type_id,
                ),
                |world: World, _constrained: ()| done(world, Ok(head)),
            ),
    )
}

struct Head {
    impl_type_parameters: Vec<TypeParameter>,
    trait_type_arguments: Vec<TypeArgument>,
    implementing_for: TypeArgument,
}

impl View for Head {
    type V = HeadView;

    closed spec fn view(&self) -> HeadView {
        HeadView {
            impl_type_parameters: self.impl_type_parameters@,
            trait_type_arguments: self.trait_type_arguments@,
            implementing_for: self.implementing_for,
        }
    }
}

spec fn head_result(value: Option<Result<Head, ErrorEmitted>>) -> Option<
    Result<HeadView, ErrorEmitted>,
> {
    match value {
        Some(Ok(head)) => Some(Ok(head@)),
        Some(Err(error)) => Some(Err(error)),
        None => None,
    }
}

fn check_head(
    cx: &mut Session,
    ctx: &Context,
    parameters: TypeParameterList,
    trait_type_arguments: &Vec<TypeArgument>,
    implementing_for: TypeArgument,
) -> (result: Option<Result<Head, ErrorEmitted>>)
    ensures
        run(final(cx)@, head_result(result)) == head_run(
            old(cx)@,
            ctx@,
            parameters,
            trait_type_arguments@,
            implementing_for,
        ),
{
    let impl_type_parameters = match cx.ask_type_parameters(
        Query::TypeCheckTypeParameters { ctx: ctx.duplicate(), parameters },
    )? {
        Ok(parameters) => parameters,
        Err(error) => return Some(Err(error)),
    };
    if let Err(error) = insert_type_parameters(cx, ctx, &impl_type_parameters)? {
        return Some(Err(error));
    }
    let trait_type_arguments = match resolve_arguments(cx, ctx, trait_type_arguments)? {
        Ok(arguments) => arguments,
        Err(error) => return Some(Err(error)),
    };
    let implementing_for = match resolve_argument(cx, ctx, implementing_for)? {
        Ok(argument) => argument,
        Err(error) => return Some(Err(error)),
    };
    let supported = cx.ask_outcome(
        Query::CheckSupportedInImplBlocks {
            type_id: implementing_for.type_id,
            span: implementing_for.span,
        },
    )?;
    if let Err(error) = supported {
        return Some(Err(error));
    }
    if let Err(error) = check_for_unconstrained_type_parameters(
        cx,
        &impl_type_parameters,
        &trait_type_arguments,
        implementing_for.type_id,
    )? {
        return Some(Err(error));
    }
    Some(Ok(Head { impl_type_parameters, trait_type_arguments, implementing_for }))
}

/// An impl block of a trait.
pub open spec fn impl_of_trait_run(
    world: World,
    ctx: ContextView,
    block: ImplTrait,
    head: HeadView,
    decl_id: u64,
) -> Run<Result<ImplView, ErrorEmitted>> {
    chain(
        to_trait(ask(world, QueryView::GetTrait { id: decl_id })),
        |world: World, trait_decl: TyTraitDecl|
            chain_ok(
                to_monomorphized(
                    ask(
                        world,
                        QueryView::Monomorphize {
                            ctx,
                            trait_decl: trait_decl@,
                            type_arguments: head.trait_type_arguments,
                            span: block.trait_name.span,
                        },
                    ),
                ),
                |world: World, monomorphized: (TyTraitDecl, Vec<TypeArgument>)|
                    impl_of_monomorphized_run(
                        world,
                        ctx,
                        block,
                        head,
                        decl_id,
                        monomorphized.0,
                        monomorphized.1@,
                    ),
            ),
    )
}

/// An impl block of a trait that has its type arguments.
pub open spec fn impl_of_monomorphized_run(
    world: World,
    ctx: ContextView,
    block: ImplTrait,
    head: HeadView,
    decl_id: u64,
    trait_decl: TyTraitDecl,
    trait_type_arguments: Seq<TypeArgument>,
) -> Run<Result<ImplView, ErrorEmitted>> {
    chain(
        insert_surface_run(
            world,
            trait_decl@,
            ctx,
            block.trait_name,
            trait_type_arguments,
            head.implementing_for.type_id,
        ),
        |world: World, _inserted: ()|
            chain_ok(
                implementation_run(
                    world,
                    ctx,
                    Implementation {
                        impl_type_parameters: head.impl_type_parameters,
                        trait_type_parameters: trait_decl.type_parameters@,
                        trait_type_arguments,
                        trait_supertraits: trait_decl.supertraits@,
                        trait_interface_surface: trait_decl.interface_surface@,
                        trait_items: trait_decl.items@,
                        impl_items: block.items@,
                        trait_name: block.trait_name,
                        trait_decl_span: trait_decl.span,
                        block_span: block.block_span,
                        is_contract: false,
                    },
                ),
                |world: World, items: Seq<TyImplItem>|
                    done(
                        world,
                        Ok(
                            ImplView {
                                impl_type_parameters: head.impl_type_parameters,
                                trait_name: block.trait_name@,
                                trait_type_arguments,
                                items,
                                trait_decl_ref: Some(
                                    InterfaceDeclRef {
                                        name: trait_decl.name,
                                        id: InterfaceDeclId::Trait(decl_id),
                                        span: trait_decl.span,
                                    },
                                ),
                                implementing_for: head.implementing_for,
                                span: block.block_span,
                            },
                        ),
                    ),
            ),
    )
}

/// An impl block of an ABI. Only the contract type can implement an ABI; for another type that
/// is an error, and the check goes on. There are no generic ABIs, and so no type parameters
/// and no type arguments.
pub open spec fn impl_of_abi_run(
    world: World,
    ctx: ContextView,
    block: ImplTrait,
    head: HeadView,
    decl_id: u64,
) -> Run<Result<ImplView, ErrorEmitted>> {
    chain(
        to_abi(ask(world, QueryView::GetAbi { id: decl_id })),
        |world: World, abi: TyAbiDecl|
            chain(
                contract_run(world, head.implementing_for),
                |world: World, _checked: ()|
                    chain(
                        to_outcome(
                            ask(
                                world,
                                QueryView::InsertAbiSurface {
                                    ctx: ctx.with_abi(abi.name),
                                    abi_id: decl_id,
                                    type_id: head.implementing_for.type_id,
                                },
                            ),
                        ),
                        |world: World, _inserted: Result<(), ErrorEmitted>|
                            impl_of_known_abi_run(
                                world,
                                ctx.with_abi(abi.name),
                                block,
                                head,
                                decl_id,
                                abi,
                            ),
                    ),
            ),
    )
}

/// An error unless the type is the contract type.
pub open spec fn contract_run(world: World, implementing_for: TypeArgument) -> Run<()> {
    chain(
        to_flag(ask(world, QueryView::IsContract { type_id: implementing_for.type_id })),
        |world: World, is_contract: bool|
            if is_contract {
                done(world, ())
            } else {
                chain(
                    to_text(
                        ask(
                            world,
                            QueryView::DescribeType { type_id: implementing_for.type_id },
                        ),
                    ),
                    |world: World, ty: String|
                        done(
                            world.emit_plain(
                                CompileError::ImplAbiForNonContract {
                                    span: implementing_for.span,
                                    ty,
                                },
                            ),
                            (),
                        ),
                )
            },
    )
}

/// An impl block of an ABI whose items are known.
pub open spec fn impl_of_known_abi_run(
    world: World,
    ctx: ContextView,
    block: ImplTrait,
    head: HeadView,
    decl_id: u64,
    abi: TyAbiDecl,
) -> Run<Result<ImplView, ErrorEmitted>> {
    chain_ok(
        implementation_run(
            world,
            ctx,
            Implementation {
                impl_type_parameters: Seq::empty(),
                trait_type_parameters: Seq::empty(),
                trait_type_arguments: Seq::empty(),
                trait_supertraits: abi.supertraits@,
                trait_interface_surface: abi.interface_surface@,
                trait_items: abi.items@,
                impl_items: block.items@,
                trait_name: block.trait_name,
                trait_decl_span: abi.span,
                block_span: block.block_span,
                is_contract: true,
            },
        ),
        |world: World, items: Seq<TyImplItem>|
            done(
                world,
                Ok(
                    ImplView {
                        impl_type_parameters: Seq::empty(),
                        trait_name: block.trait_name@,
                        trait_type_arguments: Seq::empty(),
                        items,
                        trait_decl_ref: Some(
                            InterfaceDeclRef {
                                name: abi.name,
                                id: InterfaceDeclId::Abi(decl_id),
                                span: abi.span,
                            },
                        ),
                        implementing_for: head.implementing_for,
                        span: block.block_span,
                    },
                ),
            ),
    )
}

/// What is left of an impl block of a trait or an ABI once its head was checked.
pub open spec fn impl_body_run(
    world: World,
    ctx: ContextView,
    block: ImplTrait,
    head: HeadView,
) -> Run<Result<ImplView, ErrorEmitted>> {
    chain(
        to_type(ask(world, QueryView::InsertType { info: TypeInfo::Unknown })),
        |world: World, annotation: TypeId|
            {
                let ctx = ctx.with_self_type(head.implementing_for.type_id).expecting(annotation);
                chain(
                    to_symbol(
                        ask(world, QueryView::ResolveCallPath { ctx, path: block.trait_name }),
                    ),
                    |world: World, found: Result<TyDecl, ErrorEmitted>|
                        match found {
                            Ok(TyDecl::TraitDecl { decl_id }) => impl_of_trait_run(
                                world,
                                ctx,
                                block,
                                head,
                                decl_id,
                            ),
                            Ok(TyDecl::AbiDecl { decl_id }) => impl_of_abi_run(
                                world,
                                ctx,
                                block,
                                head,
                                decl_id,
                            ),
                            _ => done(
                                world.emit_plain(
                                    CompileError::UnknownTrait {
                                        name: block.trait_name.suffix,
                                        span: block.trait_name.span,
                                    },
                                ),
                                Err(ErrorEmitted),
                            ),
                        },
                )
            },
    )
}

/// What checking an impl block of a trait or an ABI comes to.
pub open spec fn impl_trait_run(world: World, ctx: ContextView, block: ImplTrait) -> Run<
    Result<ImplView, ErrorEmitted>,
> {
    chain(
        to_namespace(ask(world, QueryView::CloneNamespace { namespace: ctx.namespace })),
        |world: World, namespace: u64|
            {
                let ctx = ctx.scoped(namespace).in_impl_block();
                chain_ok(
                    head_run(
                        world,
                        ctx,
                        block.impl_type_parameters,
                        block.trait_type_arguments@,
                        block.implementing_for,
                    ),
                    |world: World, head: HeadView| impl_body_run(world, ctx, block, head),
                )
            },
    )
}

/// An impl block that may be missing or refused, as a mathematical value.
pub open spec fn impl_result(value: Option<Result<TyImplTrait, ErrorEmitted>>) -> Option<
    Result<ImplView, ErrorEmitted>,
> {
    match value {
        Some(Ok(block)) => Some(Ok(block@)),
        Some(Err(error)) => Some(Err(error)),
        None => None,
    }
}

fn check_impl_of_trait(
    cx: &mut Session,
    ctx: &Context,
    block: &ImplTrait,
    head: Head,
    decl_id: u64,
) -> (result: Option<Result<TyImplTrait, ErrorEmitted>>)
    ensures
        run(final(cx)@, impl_result(result)) == impl_of_trait_run(
            old(cx)@,
            ctx@,
            *block,
            head@,
            decl_id,
        ),
{
    let Head { impl_type_parameters, trait_type_arguments, implementing_for } = head;
    let trait_decl = cx.ask_trait(Query::GetTrait { id: decl_id })?;
    let (trait_decl, trait_type_arguments) = match cx.ask_monomorphized(
        Query::Monomorphize {
            ctx: ctx.duplicate(),
            trait_decl,
            type_arguments: trait_type_arguments,
            span: block.trait_name.span,
        },
    )? {
        Ok(monomorphized) => monomorphized,
        Err(error) => return Some(Err(error)),
    };

    // The impl block can use what the trait declares.
    trait_decl.insert_interface_surface_and_items_into_namespace(
        cx,
        ctx,
        &block.trait_name,
        &trait_type_arguments,
        implementing_for.type_id,
    )?;
    match type_check_trait_implementation(
        cx,
        ctx,
        &impl_type_parameters,
        &trait_decl.type_parameters,
        &trait_type_arguments,
        &trait_decl.supertraits,
        &trait_decl.interface_surface,
        &trait_decl.items,
        &block.items,
        &block.trait_name,
        trait_decl.span,
        block.block_span,
        false,
    )? {
        Ok(items) => Some(
            Ok(
                TyImplTrait {
                    impl_type_parameters,
                    trait_name: block.trait_name.duplicate(),
                    trait_type_arguments,
                    items,
                    trait_decl_ref: Some(
                        InterfaceDeclRef {
                            name: trait_decl.name,
                            id: InterfaceDeclId::Trait(decl_id),
                            span: trait_decl.span,
                        },
                    ),
                    implementing_for,
                    span: block.block_span,
                },
            ),
        ),
        Err(error) => Some(Err(error)),
    }
}

fn check_contract(cx: &mut Session, implementing_for: TypeArgument) -> (result: Option<()>)
    ensures
        run(final(cx)@, result) == contract_run(old(cx)@, implementing_for),
{
    if !cx.ask_flag(Query::IsContract { type_id: implementing_for.type_id })? {
        let ty = cx.ask_text(Query::DescribeType { type_id: implementing_for.type_id })?;
        cx.emit_err(CompileError::ImplAbiForNonContract { span: implementing_for.span, ty });
    }
    Some(())
}

fn check_impl_of_abi(
    cx: &mut Session,
    ctx: &Context,
    block: &ImplTrait,
    head: Head,
    decl_id: u64,
) -> (result: Option<Result<TyImplTrait, ErrorEmitted>>)
    ensures
        run(final(cx)@, impl_result(result)) == impl_of_abi_run(
            old(cx)@,
            ctx@,
            *block,
            head@,
            decl_id,
        ),
{
    let implementing_for = head.implementing_for;
    let abi = cx.ask_abi(Query::GetAbi { id: decl_id })?;
    check_contract(cx, implementing_for)?;
    let ctx = ctx.with_abi(&abi.name);

    // The impl block can use what the ABI declares.
    cx.ask_outcome(
        Query::InsertAbiSurface {
            ctx: ctx.duplicate(),
            abi_id: decl_id,
            type_id: implementing_for.type_id,
        },
    )?;
    match type_check_trait_implementation(
        cx,
        &ctx,
        &Vec::new(),
        &Vec::new(),
        &Vec::new(),
        &abi.supertraits,
        &abi.interface_surface,
        &abi.items,
        &block.items,
        &block.trait_name,
        abi.span,
        block.block_span,
        true,
    )? {
        Ok(items) => Some(
            Ok(
                TyImplTrait {
                    impl_type_parameters: Vec::new(),
                    trait_name: block.trait_name.duplicate(),
                    trait_type_arguments: Vec::new(),
                    items,
                    trait_decl_ref: Some(
                        InterfaceDeclRef {
                            name: abi.name,
                            id: InterfaceDeclId::Abi(decl_id),
                            span: abi.span,
                        },
                    ),
                    implementing_for,
                    span: block.block_span,
                },
            ),
        ),
        Err(error) => Some(Err(error)),
    }
}

fn check_impl_body(cx: &mut Session, ctx: &Context, block: &ImplTrait, head: Head) -> (result:
    Option<Result<TyImplTrait, ErrorEmitted>>)
    ensures
        run(final(cx)@, impl_result(result)) == impl_body_run(old(cx)@, ctx@, *block, head@),
{
    let annotation = cx.ask_type(Query::InsertType { info: TypeInfo::Unknown })?;
    let ctx = ctx.with_self_type(head.implementing_for.type_id).expecting(annotation);
    let found = cx.ask_symbol(
        Query::ResolveCallPath { ctx: ctx.duplicate(), path: block.trait_name.duplicate() },
    )?;
    match found {
        Ok(TyDecl::TraitDecl { decl_id }) => check_impl_of_trait(cx, &ctx, block, head, decl_id),
        Ok(TyDecl::AbiDecl { decl_id }) => check_impl_of_abi(cx, &ctx, block, head, decl_id),
        _ => Some(
            Err(
                cx.emit_err(
                    CompileError::UnknownTrait {
                        name: block.trait_name.suffix.duplicate(),
                        span: block.trait_name.span,
                    },
                ),
            ),
        ),
    }
}

impl TyImplTrait {
    /// Checks an impl block of a trait or an ABI.
    pub fn type_check_impl_trait(
        cx: &mut Session,
        ctx: &Context,
        impl_trait: &ImplTrait,
    ) -> (result: Option<Result<TyImplTrait, ErrorEmitted>>)
        ensures
            run(final(cx)@, impl_result(result)) == impl_trait_run(old(cx)@, ctx@, *impl_trait),
    {
        // A namespace for the impl block alone.
        let namespace: u64 = cx.ask_namespace(
            Query::CloneNamespace { namespace: ctx.namespace },
        )?;
        let ctx = ctx.scoped(namespace).in_impl_block();
        match check_head(
            cx,
            &ctx,
            impl_trait.impl_type_parameters,
            &impl_trait.trait_type_arguments,
            impl_trait.implementing_for,
        )? {
            Ok(head) => check_impl_body(cx, &ctx, impl_trait, head),
            Err(error) => Some(Err(error)),
        }
    }
}

/// The name that an impl block without a trait goes by: the last name of the path that the
/// type was written by, or `r#Self`.
pub open spec fn self_name_run(world: World, implementing_for: TypeArgument) -> Run<CallPathView> {
    chain(
        to_name(ask(world, QueryView::CustomTypeName { type_id: implementing_for.type_id })),
        |world: World, name: Option<Ident>|
            done(
                world,
                match name {
                    Some(name) => plain_path(name)@,
                    None => CallPathView {
                        prefixes: None,
                        suffix: IdentView { name: "r#Self"@, span: implementing_for.span },
                        is_absolute: false,
                        span: implementing_for.span,
                    },
                },
            ),
    )
}

/// Checks the items from the `i`-th on, of functions the signature alone; `new_items` are
/// those before. An item with errors is left out.
pub open spec fn signatures_run(
    world: World,
    ctx: ContextView,
    items: Seq<ImplItem>,
    new_items: Seq<TyImplItem>,
    i: int,
) -> Run<Result<Seq<TyImplItem>, ErrorEmitted>>
    decreases items.len() - i,
{
    if i >= items.len() {
        done(world, Ok(new_items))
    } else {
        chain_ok(
            signature_run(world, ctx, items[i]),
            |world: World, item: Option<TyImplItem>|
                signatures_run(
                    world,
                    ctx,
                    items,
                    match item {
                        Some(item) => new_items.push(item),
                        None => new_items,
                    },
                    i + 1,
                ),
        )
    }
}

/// Checks an item, of a function the signature alone, and keeps it.
pub open spec fn signature_run(world: World, ctx: ContextView, item: ImplItem) -> Run<
    Result<Option<TyImplItem>, ErrorEmitted>,
> {
    match item {
        ImplItem::Fn(parsed) => function_signature_run(world, ctx, parsed),
        ImplItem::Constant(parsed) => constant_signature_run(world, ctx, parsed),
        ImplItem::Type(parsed) => type_signature_run(world, ctx, parsed),
    }
}

/// Checks the signature of a function and keeps it.
pub open spec fn function_signature_run(
    world: World,
    ctx: ContextView,
    parsed: FunctionDeclaration,
) -> Run<Result<Option<TyImplItem>, ErrorEmitted>> {
    chain(
        to_checked_function(ask(world, QueryView::TypeCheckFunctionSignature { ctx, parsed })),
        |world: World, checked: Result<TyFunctionDecl, ErrorEmitted>|
            match checked {
                Ok(decl) => chain(
                    to_decl_ref(
                        ask(
                            world,
                            QueryView::InsertDecl {
                                decl: DeclView::Function(decl@),
                                parent: None,
                            },
                        ),
                    ),
                    |world: World, decl_ref: DeclRef|
                        done(world, Ok(Some(TyTraitItem::Fn(decl_ref)))),
                ),
                Err(_) => done(world, Ok(None)),
            },
    )
}

/// Checks a constant, keeps it and makes its name known.
pub open spec fn constant_signature_run(
    world: World,
    ctx: ContextView,
    parsed: ConstantDeclaration,
) -> Run<Result<Option<TyImplItem>, ErrorEmitted>> {
    chain(
        to_checked_constant(ask(world, QueryView::TypeCheckConstant { ctx, parsed })),
        |world: World, checked: Result<TyConstantDecl, ErrorEmitted>|
            match checked {
                Ok(decl) => chain(
                    to_decl_ref(
                        ask(
                            world,
                            QueryView::InsertDecl { decl: DeclView::Constant(decl), parent: None },
                        ),
                    ),
                    |world: World, decl_ref: DeclRef|
                        chain_ok(
                            to_outcome(
                                ask(
                                    world,
                                    QueryView::InsertSymbol {
                                        ctx,
                                        name: decl_ref.name@,
                                        decl: TyDecl::ConstantDecl {
                                            name: decl_ref.name,
                                            decl_id: decl_ref.id,
                                            decl_span: decl_ref.span,
                                        },
                                    },
                                ),
                            ),
                            |world: World, _inserted: ()|
                                done(world, Ok(Some(TyTraitItem::Constant(decl_ref)))),
                        ),
                ),
                Err(_) => done(world, Ok(None)),
            },
    )
}

/// Checks an associated type and keeps it.
pub open spec fn type_signature_run(
    world: World,
    ctx: ContextView,
    parsed: TraitTypeDeclaration,
) -> Run<Result<Option<TyImplItem>, ErrorEmitted>> {
    chain(
        to_checked_trait_type(ask(world, QueryView::TypeCheckTraitType { ctx, parsed })),
        |world: World, checked: Result<TyTraitType, ErrorEmitted>|
            match checked {
                Ok(decl) => chain(
                    to_decl_ref(
                        ask(
                            world,
                            QueryView::InsertDecl { decl: DeclView::TraitType(decl), parent: None },
                        ),
                    ),
                    |world: World, decl_ref: DeclRef|
                        done(world, Ok(Some(TyTraitItem::Type(decl_ref)))),
                ),
                Err(_) => done(world, Ok(None)),
            },
    )
}

/// Checks the bodies of the functions from the `i`-th item on. The parsed items and the
/// checked ones are taken in pairs.
pub open spec fn bodies_run(
    world: World,
    ctx: ContextView,
    items: Seq<ImplItem>,
    new_items: Seq<TyImplItem>,
    i: int,
) -> Run<()>
    decreases items.len() - i,
{
    if i >= items.len() || i >= new_items.len() {
        done(world, ())
    } else {
        chain(
            body_run(world, ctx, items[i], new_items[i]),
            |world: World, _checked: ()| bodies_run(world, ctx, items, new_items, i + 1),
        )
    }
}

/// Checks the body of an item that is a function and puts the checked function in its place.
/// A body with errors leaves the function as it is.
pub open spec fn body_run(
    world: World,
    ctx: ContextView,
    item: ImplItem,
    new_item: TyImplItem,
) -> Run<()> {
    match (item, new_item) {
        (ImplItem::Fn(parsed), TyTraitItem::Fn(decl_ref)) => chain(
            to_function(
                ask(world, QueryView::GetDecl { kind: DeclKind::Function, id: decl_ref.id }),
            ),
            |world: World, decl: TyFunctionDecl|
                chain(
                    to_checked_function(
                        ask(
                            world,
                            QueryView::TypeCheckFunctionBody { ctx, parsed, decl: decl@ },
                        ),
                    ),
                    |world: World, checked: Result<TyFunctionDecl, ErrorEmitted>|
                        match checked {
                            Ok(decl) => to_done(
                                ask(
                                    world,
                                    QueryView::ReplaceDecl {
                                        id: decl_ref.id,
                                        decl: DeclView::Function(decl@),
                                    },
                                ),
                            ),
                            Err(_) => done(world, ()),
                        },
                ),
        ),
        (ImplItem::Constant(_), TyTraitItem::Constant(_)) => done(world, ()),
        (ImplItem::Type(_), TyTraitItem::Type(_)) => done(world, ()),
        _ => contradiction(world),
    }
}

/// Finishes the functions and constants from the `i`-th item on.
pub open spec fn finish_run(
    world: World,
    ctx: ContextView,
    new_items: Seq<TyImplItem>,
    i: int,
) -> Run<()>
    decreases new_items.len() - i,
{
    if i >= new_items.len() {
        done(world, ())
    } else {
        chain(
            finish_item_run(world, ctx, new_items[i]),
            |world: World, _finished: ()| finish_run(world, ctx, new_items, i + 1),
        )
    }
}

/// Finishes an item that is a function or a constant, and puts it in its own place.
pub open spec fn finish_item_run(world: World, ctx: ContextView, item: TyImplItem) -> Run<()> {
    match item {
        TyTraitItem::Fn(decl_ref) => chain(
            to_function(
                ask(world, QueryView::GetDecl { kind: DeclKind::Function, id: decl_ref.id }),
            ),
            |world: World, decl: TyFunctionDecl|
                chain(
                    to_function(
                        ask(
                            world,
                            QueryView::FinalizeDecl { ctx, decl: DeclView::Function(decl@) },
                        ),
                    ),
                    |world: World, decl: TyFunctionDecl|
                        to_done(
                            ask(
                                world,
                                QueryView::ReplaceDecl {
                                    id: decl_ref.id,
                                    decl: DeclView::Function(decl@),
                                },
                            ),
                        ),
                ),
        ),
        TyTraitItem::Constant(decl_ref) => chain(
            to_constant(
                ask(world, QueryView::GetDecl { kind: DeclKind::Constant, id: decl_ref.id }),
            ),
            |world: World, decl: TyConstantDecl|
                chain(
                    to_constant(
                        ask(
                            world,
                            QueryView::FinalizeDecl { ctx, decl: DeclView::Constant(decl) },
                        ),
                    ),
                    |world: World, decl: TyConstantDecl|
                        to_done(
                            ask(
                                world,
                                QueryView::ReplaceDecl {
                                    id: decl_ref.id,
                                    decl: DeclView::Constant(decl),
                                },
                            ),
                        ),
                ),
        ),
        TyTraitItem::Type(_) => done(world, ()),
    }
}

/// The items of an impl block without a trait: first the signatures, then the bodies, so that
/// a body can use every item of the block.
pub open spec fn self_items_run(world: World, ctx: ContextView, items: Seq<ImplItem>) -> Run<
    Result<Seq<TyImplItem>, ErrorEmitted>,
> {
    scoped(
        world,
        chain_ok(
            signatures_run(world, ctx, items, Seq::empty(), 0),
            |world: World, new_items: Seq<TyImplItem>|
                chain(
                    bodies_run(world, ctx, items, new_items, 0),
                    |world: World, _checked: ()|
                        chain(
                            finish_run(world, ctx, new_items, 0),
                            |world: World, _finished: ()| done(world, Ok(new_items)),
                        ),
                ),
        ),
    )
}

/// Makes the declaration of a type known as `Self`, if the type has one.
pub open spec fn self_symbol_run(world: World, ctx: ContextView, type_id: TypeId) -> Run<()> {
    chain(
        to_maybe_symbol(ask(world, QueryView::TypeDeclaration { type_id })),
        |world: World, decl: Option<TyDecl>|
            match decl {
                Some(decl) => chain(
                    to_outcome(
                        ask(
                            world,
                            QueryView::InsertSymbol {
                                ctx,
                                name: IdentView { name: "Self"@, span: dummy_span() },
                                decl,
                            },
                        ),
                    ),
                    |world: World, _inserted: Result<(), ErrorEmitted>| done(world, ()),
                ),
                None => done(world, ()),
            },
    )
}

/// What is left of an impl block without a trait once its head was checked.
pub open spec fn self_body_run(
    world: World,
    ctx: ContextView,
    block: ImplSelf,
    trait_name: CallPathView,
    head: HeadView,
) -> Run<Result<ImplView, ErrorEmitted>> {
    let type_id = head.implementing_for.type_id;
    chain_ok(
        to_outcome(
            ask(
                world,
                QueryView::CheckTypeParameterBounds {
                    ctx,
                    type_id,
                    span: head.implementing_for.span,
                    constraints_of: None,
                },
            ),
        ),
        |world: World, _checked: ()|
            chain(
                to_type(ask(world, QueryView::InsertType { info: TypeInfo::Unknown })),
                |world: World, annotation: TypeId|
                    {
                        let ctx = ctx.with_self_type(type_id).expecting(annotation);
                        chain(
                            self_symbol_run(world, ctx, type_id),
                            |world: World, _inserted: ()|
                                chain_ok(
                                    self_items_run(world, ctx, block.items@),
                                    |world: World, items: Seq<TyImplItem>|
                                        done(
                                            world,
                                            Ok(
                                                ImplView {
                                                    impl_type_parameters:
                                                        head.impl_type_parameters,
                                                    trait_name,
                                                    trait_type_arguments: Seq::empty(),
                                                    items,
                                                    trait_decl_ref: None,
                                                    implementing_for: head.implementing_for,
                                                    span: block.block_span,
                                                },
                                            ),
                                        ),
                                ),
                        )
                    },
            ),
    )
}

/// What checking an impl block without a trait comes to.
pub open spec fn impl_self_run(world: World, ctx: ContextView, block: ImplSelf) -> Run<
    Result<ImplView, ErrorEmitted>,
> {
    chain(
        to_namespace(ask(world, QueryView::CloneNamespace { namespace: ctx.namespace })),
        |world: World, namespace: u64|
            {
                let ctx = ctx.scoped(namespace).in_impl_block().deferring();
                chain(
                    self_name_run(world, block.implementing_for),
                    |world: World, trait_name: CallPathView|
                        chain_ok(
                            head_run(
                                world,
                                ctx,
                                block.impl_type_parameters,
                                Seq::empty(),
                                block.implementing_for,
                            ),
                            |world: World, head: HeadView|
                                self_body_run(world, ctx, block, trait_name, head),
                        ),
                )
            },
    )
}

spec fn path_value(value: Option<CallPath>) -> Option<CallPathView> {
    match value {
        Some(path) => Some(path@),
        None => None,
    }
}

fn self_name(cx: &mut Session, implementing_for: TypeArgument) -> (path: Option<CallPath>)
    ensures
        run(final(cx)@, path_value(path)) == self_name_run(old(cx)@, implementing_for),
{
    let suffix = match cx.ask_name(Query::CustomTypeName { type_id: implementing_for.type_id })? {
        Some(name) => name,
        None => Ident { name: "r#Self".to_string(), span: implementing_for.span },
    };
    Some(CallPath::plain(suffix))
}

fn check_function_signature(cx: &mut Session, ctx: &Context, parsed: FunctionDeclaration) -> (item:
    Option<Result<Option<TyImplItem>, ErrorEmitted>>)
    ensures
        run(final(cx)@, item) == function_signature_run(old(cx)@, ctx@, parsed),
{
    match cx.ask_checked_function(
        Query::TypeCheckFunctionSignature { ctx: ctx.duplicate(), parsed },
    )? {
        Ok(decl) => {
            let decl_ref = cx.ask_decl_ref(
                Query::InsertDecl { decl: Decl::Function(decl), parent: None },
            )?;
            Some(Ok(Some(TyTraitItem::Fn(decl_ref))))
        },
        Err(_) => Some(Ok(None)),
    }
}

fn check_constant_signature(cx: &mut Session, ctx: &Context, parsed: ConstantDeclaration) -> (item:
    Option<Result<Option<TyImplItem>, ErrorEmitted>>)
    ensures
        run(final(cx)@, item) == constant_signature_run(old(cx)@, ctx@, parsed),
{
    match cx.ask_checked_constant(Query::TypeCheckConstant { ctx: ctx.duplicate(), parsed })? {
        Ok(decl) => {
            let decl_ref = cx.ask_decl_ref(
                Query::InsertDecl { decl: Decl::Constant(decl), parent: None },
            )?;
            let inserted = cx.ask_outcome(
                Query::InsertSymbol {
                    ctx: ctx.duplicate(),
                    name: decl_ref.name.duplicate(),
                    decl: TyDecl::ConstantDecl {
                        name: decl_ref.name.duplicate(),
                        decl_id: decl_ref.id,
                        decl_span: decl_ref.span,
                    },
                },
            )?;
            match inserted {
                Ok(()) => Some(Ok(Some(TyTraitItem::Constant(decl_ref)))),
                Err(error) => Some(Err(error)),
            }
        },
        Err(_) => Some(Ok(None)),
    }
}

fn check_type_signature(cx: &mut Session, ctx: &Context, parsed: TraitTypeDeclaration) -> (item:
    Option<Result<Option<TyImplItem>, ErrorEmitted>>)
    ensures
        run(final(cx)@, item) == type_signature_run(old(cx)@, ctx@, parsed),
{
    match cx.ask_checked_trait_type(
        Query::TypeCheckTraitType { ctx: ctx.duplicate(), parsed },
    )? {
        Ok(decl) => {
            let decl_ref = cx.ask_decl_ref(
                Query::InsertDecl { decl: Decl::TraitType(decl), parent: None },
            )?;
            Some(Ok(Some(TyTraitItem::Type(decl_ref))))
        },
        Err(_) => Some(Ok(None)),
    }
}

fn check_signatures(cx: &mut Session, ctx: &Context, items: &Vec<ImplItem>) -> (result: Option<
    Result<Vec<TyImplItem>, ErrorEmitted>,
>)
    ensures
        run(final(cx)@, list_result(result)) == signatures_run(
            old(cx)@,
            ctx@,
            items@,
            Seq::empty(),
            0,
        ),
{
    let mut new_items: Vec<TyImplItem> = Vec::new();
    let mut i: usize = 0;
    while i < items.len()
        invariant
            i <= items@.len(),
            signatures_run(old(cx)@, ctx@, items@, Seq::empty(), 0) == signatures_run(
                cx@,
                ctx@,
                items@,
                new_items@,
                i as int,
            ),
        decreases items@.len() - i,
    {
        let checked = match items[i] {
            ImplItem::Fn(parsed) => check_function_signature(cx, ctx, parsed)?,
            ImplItem::Constant(parsed) => check_constant_signature(cx, ctx, parsed)?,
            ImplItem::Type(parsed) => check_type_signature(cx, ctx, parsed)?,
        };
        match checked {
            Ok(Some(item)) => {
                new_items.push(item);
            },
            Ok(None) => {},
            Err(error) => return Some(Err(error)),
        }
        i = i + 1;
    }
    Some(Ok(new_items))
}

fn check_body(cx: &mut Session, ctx: &Context, item: ImplItem, new_item: &TyImplItem) -> (result:
    Option<()>)
    ensures
        run(final(cx)@, result) == body_run(old(cx)@, ctx@, item, *new_item),
{
    match (item, new_item) {
        (ImplItem::Fn(parsed), TyTraitItem::Fn(decl_ref)) => {
            let decl = cx.ask_function(
                Query::GetDecl { kind: DeclKind::Function, id: decl_ref.id },
            )?;
            match cx.ask_checked_function(
                Query::TypeCheckFunctionBody { ctx: ctx.duplicate(), parsed, decl },
            )? {
                Ok(decl) => cx.ask_done(
                    Query::ReplaceDecl { id: decl_ref.id, decl: Decl::Function(decl) },
                ),
                Err(_) => Some(()),
            }
        },
        (ImplItem::Constant(_), TyTraitItem::Constant(_)) => Some(()),
        (ImplItem::Type(_), TyTraitItem::Type(_)) => Some(()),
        _ => cx.stop_contradiction(),
    }
}

fn check_bodies(
    cx: &mut Session,
    ctx: &Context,
    items: &Vec<ImplItem>,
    new_items: &Vec<TyImplItem>,
) -> (result: Option<()>)
    ensures
        run(final(cx)@, result) == bodies_run(old(cx)@, ctx@, items@, new_items@, 0),
{
    let mut i: usize = 0;
    while i < items.len() && i < new_items.len()
        invariant
            i <= items@.len(),
            bodies_run(old(cx)@, ctx@, items@, new_items@, 0) == bodies_run(
                cx@,
                ctx@,
                items@,
                new_items@,
                i as int,
            ),
        decreases items@.len() - i,
    {
        check_body(cx, ctx, items[i], &new_items[i])?;
        i = i + 1;
    }
    Some(())
}

fn finish_item(cx: &mut Session, ctx: &Context, item: &TyImplItem) -> (result: Option<()>)
    ensures
        run(final(cx)@, result) == finish_item_run(old(cx)@, ctx@, *item),
{
    match item {
        TyTraitItem::Fn(decl_ref) => {
            let decl = cx.ask_function(
                Query::GetDecl { kind: DeclKind::Function, id: decl_ref.id },
            )?;
            let decl = cx.ask_function(
                Query::FinalizeDecl { ctx: ctx.duplicate(), decl: Decl::Function(decl) },
            )?;
            cx.ask_done(Query::ReplaceDecl { id: decl_ref.id, decl: Decl::Function(decl) })
        },
        TyTraitItem::Constant(decl_ref) => {
            let decl = cx.ask_constant(
                Query::GetDecl { kind: DeclKind::Constant, id: decl_ref.id },
            )?;
            let decl = cx.ask_constant(
                Query::FinalizeDecl { ctx: ctx.duplicate(), decl: Decl::Constant(decl) },
            )?;
            cx.ask_done(Query::ReplaceDecl { id: decl_ref.id, decl: Decl::Constant(decl) })
        },
        TyTraitItem::Type(_) => Some(()),
    }
}

fn finish_all(cx: &mut Session, ctx: &Context, new_items: &Vec<TyImplItem>) -> (result: Option<()>)
    ensures
        run(final(cx)@, result) == finish_run(old(cx)@, ctx@, new_items@, 0),
{
    let mut i: usize = 0;
    while i < new_items.len()
        invariant
            i <= new_items@.len(),
            finish_run(old(cx)@, ctx@, new_items@, 0) == finish_run(
                cx@,
                ctx@,
                new_items@,
                i as int,
            ),
        decreases new_items@.len() - i,
    {
        finish_item(cx, ctx, &new_items[i])?;
        i = i + 1;
    }
    Some(())
}

fn check_self_items(cx: &mut Session, ctx: &Context, items: &Vec<ImplItem>) -> (result: Option<
    Result<Vec<TyImplItem>, ErrorEmitted>,
>)
    ensures
        run(final(cx)@, list_result(result)) == self_items_run(old(cx)@, ctx@, items@),
{
    let errors_before: usize = cx.error_count();
    let checked = check_signatures(cx, ctx, items)?;
    let checked = match checked {
        Ok(new_items) => {
            check_bodies(cx, ctx, items, &new_items)?;
            finish_all(cx, ctx, &new_items)?;
            Ok(new_items)
        },
        Err(error) => Err(error),
    };
    Some(cx.close_scope(errors_before, checked))
}

fn insert_self_symbol(cx: &mut Session, ctx: &Context, type_id: TypeId) -> (result: Option<()>)
    ensures
        run(final(cx)@, result) == self_symbol_run(old(cx)@, ctx@, type_id),
{
    if let Some(decl) = cx.ask_maybe_symbol(Query::TypeDeclaration { type_id })? {
        cx.ask_outcome(
            Query::InsertSymbol {
                ctx: ctx.duplicate(),
                name: Ident { name: "Self".to_string(), span: Span::dummy() },
                decl,
            },
        )?;
    }
    Some(())
}

fn check_self_body(
    cx: &mut Session,
    ctx: &Context,
    block: &ImplSelf,
    trait_name: CallPath,
    head: Head,
) -> (result: Option<Result<TyImplTrait, ErrorEmitted>>)
    ensures
        run(final(cx)@, impl_result(result)) == self_body_run(
            old(cx)@,
            ctx@,
            *block,
            trait_name@,
            head@,
        ),
{
    let Head { impl_type_parameters, trait_type_arguments: _, implementing_for } = head;
    let type_id = implementing_for.type_id;
    let bounds = cx.ask_outcome(
        Query::CheckTypeParameterBounds {
            ctx: ctx.duplicate(),
            type_id,
            span: implementing_for.span,
            constraints_of: None,
        },
    )?;
    if let Err(error) = bounds {
        return Some(Err(error));
    }
    let annotation = cx.ask_type(Query::InsertType { info: TypeInfo::Unknown })?;
    let ctx = ctx.with_self_type(type_id).expecting(annotation);
    insert_self_symbol(cx, &ctx, type_id)?;
    match check_self_items(cx, &ctx, &block.items)? {
        Ok(items) => Some(
            Ok(
                TyImplTrait {
                    impl_type_parameters,
                    trait_name,
                    trait_type_arguments: Vec::new(),
                    items,
                    trait_decl_ref: None,
                    implementing_for,
                    span: block.block_span,
                },
            ),
        ),
        Err(error) => Some(Err(error)),
    }
}

impl TyImplTrait {
    /// Checks an impl block without a trait.
    pub fn type_check_impl_self(cx: &mut Session, ctx: &Context, impl_self: &ImplSelf) -> (result:
        Option<Result<TyImplTrait, ErrorEmitted>>)
        ensures
            run(final(cx)@, impl_result(result)) == impl_self_run(old(cx)@, ctx@, *impl_self),
    {
        // A namespace for the impl block alone.
        let namespace: u64 = cx.ask_namespace(
            Query::CloneNamespace { namespace: ctx.namespace },
        )?;
        let ctx = ctx.scoped(namespace).in_impl_block().deferring();
        let trait_name = self_name(cx, impl_self.implementing_for)?;
        match check_head(
            cx,
            &ctx,
            impl_self.impl_type_parameters,
            &Vec::new(),
            impl_self.implementing_for,
        )? {
            Ok(head) => check_self_body(cx, &ctx, impl_self, trait_name, head),
            Err(error) => Some(Err(error)),
        }
    }

    /// Finishes the items of an impl block.
    pub fn type_check_finalize(&mut self, cx: &mut Session, ctx: &Context) -> (result: Option<
        Result<(), ErrorEmitted>,
    >)
        ensures
            final(cx)@ == finalized(old(cx)@, ctx@, old(self).items@).world,
            match result {
                Some(value) => finalized(old(cx)@, ctx@, old(self).items@).value == Some(
                    (final(self).items@, value),
                ),
                None => finalized(old(cx)@, ctx@, old(self).items@).value is None
                    && final(self).items@ == old(self).items@,
            },
            final(self)@ == (ImplView { items: final(self).items@, ..old(self)@ }),
    {
        finalize_items(cx, ctx, &mut self.items)
    }
}

} // verus!
