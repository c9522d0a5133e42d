//! The items that a type has from the supertraits of a trait, and from theirs in turn.
use crate::decl::{
    CallPath, InterfaceItemMap, ItemMap, Supertrait, TyDecl, TyTraitDecl, TyTraitInterfaceItem,
    TyTraitItem,
};
use crate::diagnostics::{CompileError, ErrorEmitted};
use crate::duplicate::Duplicate;
use crate::ordered::{put_all, SortedMap};
use crate::session::{
    ask, chain, contradiction, done, run, scoped, to_symbol, to_trait, Context, ContextView, Query,
    QueryView, Run, Session, World,
};
use crate::surface::retrieve_run;
use crate::types::ItemKey;
use vstd::prelude::*;

verus! {

/// Interface items and implemented items together.
pub struct SupertraitItems {
    pub interface_items: Seq<(ItemKey, TyTraitInterfaceItem)>,
    pub impld_items: Seq<(ItemKey, TyTraitItem)>,
}

impl SupertraitItems {
    /// No items.
    pub open spec fn empty() -> SupertraitItems {
        SupertraitItems { interface_items: Seq::empty(), impld_items: Seq::empty() }
    }

    /// These items with others put over them.
    pub open spec fn extended(self, other: SupertraitItems) -> SupertraitItems {
        SupertraitItems {
            interface_items: put_all(self.interface_items, other.interface_items),
            impld_items: put_all(self.impld_items, other.impld_items),
        }
    }
}

/// Whether replies were read between two states.
pub open spec fn read_on(before: World, after: World) -> bool {
    after.replies.len() < before.replies.len()
}

/// What collecting the items of supertraits comes to. An error about one of them, or about
/// one of theirs, makes it an error.
pub open spec fn supertraits_run(
    world: World,
    ctx: ContextView,
    supertraits: Seq<Supertrait>,
) -> Run<Result<SupertraitItems, ErrorEmitted>>
    decreases world.replies.len(), supertraits.len() + 1,
{
    scoped(world, each_supertrait_run(world, ctx, supertraits, SupertraitItems::empty(), 0))
}

/// Goes through the supertraits from the `i`-th on and adds the items of each to those
/// collected before. A supertrait with errors does not end it.
///
/// No state has more replies left than the one before it, so that the last branch is never
/// taken.
pub open spec fn each_supertrait_run(
    world: World,
    ctx: ContextView,
    supertraits: Seq<Supertrait>,
    items: SupertraitItems,
    i: int,
) -> Run<Result<SupertraitItems, ErrorEmitted>>
    decreases world.replies.len(), supertraits.len() - i,
{
    if i >= supertraits.len() {
        done(world, Ok(items))
    } else {
        chain(
            one_supertrait_run(world, ctx, supertraits[i], items),
            |after: World, items: SupertraitItems|
                if after.replies.len() <= world.replies.len() {
                    each_supertrait_run(after, ctx, supertraits, items, i + 1)
                } else {
                    contradiction(after)
                },
        )
    }
}

/// Adds the items of one supertrait. One that is named by a path with prefixes, is generic,
/// or is no trait, is an error and adds nothing; an ABI adds nothing.
///
/// What is looked up reads a reply, so that the branches where none was read are never
/// taken.
pub open spec fn one_supertrait_run(
    world: World,
    ctx: ContextView,
    supertrait: Supertrait,
    items: SupertraitItems,
) -> Run<SupertraitItems>
    decreases world.replies.len(), 0int,
{
    let path = supertrait.name;
    if path.prefixes is Some {
        done(
            world.emit_plain(
                CompileError::UnimplementedWithHelp(
                    "Using module paths to define supertraits is not supported yet.",
                    "try importing the trait with a \"use\" statement instead",
                    supertrait.span,
                ),
            ),
            items,
        )
    } else {
        chain(
            to_symbol(ask(world, QueryView::ResolveCallPath { ctx, path })),
            |after: World, found: Result<TyDecl, ErrorEmitted>|
                match found {
                    Ok(TyDecl::TraitDecl { decl_id }) => chain(
                        to_trait(ask(after, QueryView::GetTrait { id: decl_id })),
                        |after: World, trait_decl: TyTraitDecl|
                            if trait_decl.type_parameters@.len() > 0 {
                                done(
                                    after.emit_plain(
                                        CompileError::Unimplemented(
                                            "Using generic traits as supertraits is not supported yet.",
                                            path.span,
                                        ),
                                    ),
                                    items,
                                )
                            } else if read_on(world, after) {
                                with_nested_run(after, ctx, trait_decl, path, items)
                            } else {
                                contradiction(after)
                            },
                    ),
                    Ok(TyDecl::AbiDecl { .. }) => done(after, items),
                    _ => done(
                        after.emit_plain(
                            CompileError::TraitNotFound {
                                name: path.suffix.name,
                                span: path.span,
                            },
                        ),
                        items,
                    ),
                },
        )
    }
}

/// Adds the items of a trait, and those of its own supertraits unless there are errors about
/// them.
pub open spec fn with_nested_run(
    world: World,
    ctx: ContextView,
    trait_decl: TyTraitDecl,
    path: CallPath,
    items: SupertraitItems,
) -> Run<SupertraitItems>
    decreases world.replies.len(), 0int,
{
    chain(
        retrieve_run(world, trait_decl@, ctx, ctx.self_type, path),
        |after: World,
            own: (Seq<(ItemKey, TyTraitInterfaceItem)>, Seq<(ItemKey, TyTraitItem)>)|
            {
                let items = items.extended(
                    SupertraitItems { interface_items: own.0, impld_items: own.1 },
                );
                if read_on(world, after) {
                    chain(
                        supertraits_run(after, ctx, trait_decl.supertraits@),
                        |after: World, nested: Result<SupertraitItems, ErrorEmitted>|
                            done(
                                after,
                                match nested {
                                    Ok(more) => items.extended(more),
                                    Err(_) => items,
                                },
                            ),
                    )
                } else {
                    contradiction(after)
                }
            },
    )
}

/// The items of supertraits, which may be missing or refused, as a mathematical value.
pub open spec fn supertrait_items(
    value: Option<Result<(InterfaceItemMap, ItemMap), ErrorEmitted>>,
) -> Option<Result<SupertraitItems, ErrorEmitted>> {
    match value {
        Some(Ok((interface_items, impld_items))) => Some(
            Ok(
                SupertraitItems {
                    interface_items: interface_items@,
                    impld_items: impld_items@,
                },
            ),
        ),
        Some(Err(error)) => Some(Err(error)),
        None => None,
    }
}

/// Items collected so far.
struct Collected {
    interface_items: InterfaceItemMap,
    impld_items: ItemMap,
}

impl View for Collected {
    type V = SupertraitItems;

    closed spec fn view(&self) -> SupertraitItems {
        SupertraitItems {
            interface_items: self.interface_items@,
            impld_items: self.impld_items@,
        }
    }
}

impl Collected {
    fn extend(&mut self, interface_items: InterfaceItemMap, impld_items: ItemMap)
        ensures
            final(self)@ == old(self)@.extended(
                SupertraitItems {
                    interface_items: interface_items@,
                    impld_items: impld_items@,
                },
            ),
    {
        self.interface_items.extend(interface_items);
        self.impld_items.extend(impld_items);
    }
}

fn add_with_nested(
    cx: &mut Session,
    ctx: &Context,
    trait_decl: &TyTraitDecl,
    path: &CallPath,
    items: Collected,
) -> (result: Option<Collected>)
    ensures
        run(final(cx)@, collected(result)) == with_nested_run(
            old(cx)@,
            ctx@,
            *trait_decl,
            *path,
            items@,
        ),
        final(cx)@.replies.len() <= old(cx)@.replies.len(),
    decreases old(cx)@.replies.len(), 0int,
{
    let mut items = items;

    // The interface surface, and the items that the self type has.
    let (interface_items, impld_items) =
        trait_decl.retrieve_interface_surface_and_implemented_items_for_type(
        cx,
        ctx,
        ctx.self_type,
        path,
    )?;
    items.extend(interface_items, impld_items);

    // The same of the supertraits of this trait.
    match handle_supertraits(cx, ctx, &trait_decl.supertraits)? {
        Ok((interface_items, impld_items)) => {
            items.extend(interface_items, impld_items);
        },
        Err(_) => {},
    }
    Some(items)
}

fn handle_supertrait(
    cx: &mut Session,
    ctx: &Context,
    supertrait: &Supertrait,
    items: Collected,
) -> (result: Option<Collected>)
    ensures
        run(final(cx)@, collected(result)) == one_supertrait_run(
            old(cx)@,
            ctx@,
            *supertrait,
            items@,
        ),
        final(cx)@.replies.len() <= old(cx)@.replies.len(),
    decreases old(cx)@.replies.len(), 0int,
{
    // A supertrait cannot be named by a path with prefixes.
    if supertrait.name.prefixes.is_some() {
        cx.emit_err(
            CompileError::UnimplementedWithHelp(
                "Using module paths to define supertraits is not supported yet.",
                "try importing the trait with a \"use\" statement instead",
                supertrait.span,
            ),
        );
        return Some(items);
    }
    let found = cx.ask_symbol(
        Query::ResolveCallPath { ctx: ctx.duplicate(), path: supertrait.name.duplicate() },
    )?;
    match found {
        Ok(TyDecl::TraitDecl { decl_id }) => {
            let trait_decl = cx.ask_trait(Query::GetTrait { id: decl_id })?;

            // A supertrait cannot be given type arguments.
            if trait_decl.type_parameters.len() > 0 {
                cx.emit_err(
                    CompileError::Unimplemented(
                        "Using generic traits as supertraits is not supported yet.",
                        supertrait.name.span,
                    ),
                );
                return Some(items);
            }
            add_with_nested(cx, ctx, &trait_decl, &supertrait.name, items)
        },
        Ok(TyDecl::AbiDecl { .. }) => Some(items),
        _ => {
            cx.emit_err(
                CompileError::TraitNotFound {
                    name: supertrait.name.suffix.name.clone(),
                    span: supertrait.name.span,
                },
            );
            Some(items)
        },
    }
}

/// Items collected so far, which may be missing, as a mathematical value.
spec fn collected(value: Option<Collected>) -> Option<SupertraitItems> {
    match value {
        Some(items) => Some(items@),
        None => None,
    }
}

/// Collects the interface items of supertraits, of their supertraits and so on, and the
/// items that the self type has from them.
pub fn handle_supertraits(
    cx: &mut Session,
    ctx: &Context,
    supertraits: &Vec<Supertrait>,
) -> (result: Option<Result<(InterfaceItemMap, ItemMap), ErrorEmitted>>)
    ensures
        run(final(cx)@, supertrait_items(result)) == supertraits_run(
            old(cx)@,
            ctx@,
            supertraits@,
        ),
        final(cx)@.replies.len() <= old(cx)@.replies.len(),
    decreases old(cx)@.replies.len(), 1int,
{
    let before: usize = cx.error_count();
    let mut items = Collected { interface_items: SortedMap::new(), impld_items: SortedMap::new() };
    let mut i: usize = 0;
    while i < supertraits.len()
        invariant
            i <= supertraits@.len(),
            cx@.replies.len() <= old(cx)@.replies.len(),
            before == old(cx)@.errors.len(),
            each_supertrait_run(old(cx)@, ctx@, supertraits@, SupertraitItems::empty(), 0)
                == each_supertrait_run(cx@, ctx@, supertraits@, items@, i as int),
        decreases supertraits@.len() - i,
    {
        items = handle_supertrait(cx, ctx, &supertraits[i], items)?;
        i = i + 1;
    }
    Some(cx.close_scope(before, Ok((items.interface_items, items.impld_items))))
}

} // verus!
