//! What a check stops at. The queries that a check asks, in their order, are those it stops at
//! when the replies run out.
use crate::decl::{
    CallPath, ConstantDeclaration, FunctionDeclaration, FunctionView, ImplItem, ImplSelf, ImplTrait,
    Supertrait, TraitDeclaration, TraitFnView, TraitItem, TraitTypeDeclaration, TraitView,
    TyConstantDecl, TyImplItem, TyTraitFn, TyTraitItem, TyTraitType,
};
use crate::diagnostics::InterfaceName;
use crate::generics::unconstrained_run;
use crate::ident::Ident;
use crate::impl_items::{const_decl_run, hold_method_run, method_run, type_decl_run};
use crate::impl_trait::{bodies_run, impl_self_run, impl_trait_run};
use crate::implementation::{implementation_run, Implementation};
use crate::laws::steady::{asked_next, asked_since, follows, grown, steady};
use crate::laws::steady_impl_trait::{
    follows_bodies, follows_impl_self, follows_impl_trait, steady_bodies, steady_impl_self,
    steady_impl_trait,
};
use crate::laws::steady_implementation::{follows_implementation, steady_implementation};
use crate::laws::steady_items::{
    follows_const_decl, follows_hold_method, follows_method, follows_type_decl,
    follows_unconstrained, steady_const_decl, steady_hold_method, steady_method, steady_type_decl,
    steady_unconstrained,
};
use crate::laws::steady_surface::{
    follows_insert_surface, follows_retrieve, follows_retrieve_all, follows_supertraits,
    steady_insert_surface, steady_retrieve, steady_retrieve_all, steady_supertraits,
};
use crate::laws::steady_trait::{
    follows_declare_members, follows_finalized, follows_trait, steady_declare_members,
    steady_finalized, steady_trait,
};
use crate::session::{ContextView, Run, StopView, World};
use crate::supertraits::supertraits_run;
use crate::surface::{insert_surface_run, retrieve_all_run, retrieve_run};
use crate::trait_decl::{declare_members_run, finalized, trait_run, SurfaceView};
use crate::types::{ItemKey, TypeArgument, TypeId, TypeParameter};
use vstd::prelude::*;

verus! {

/// A state with only the first `p` of its replies.
pub open spec fn cut(world: World, p: int) -> World {
    World { replies: world.replies.take(p), ..world }
}

/// Whether a part of a check stops at the query that the `p`-th reply is read as the answer
/// to, `short` on the replies before that one, `long` on all. What it asked until then is what
/// it asks on all.
pub open spec fn stops_at<T>(world: World, p: int, short: Run<T>, long: Run<T>) -> bool {
    let asked = long.world.asked;
    let before = world.asked.len() + p;
    &&& short.value is None
    &&& short.world.stop == StopView::Asking(asked[before])
    &&& short.world.asked == asked.take(before)
}

proof fn lemma_stops_at<T>(world: World, p: int, short: Run<T>, long: Run<T>)
    requires
        0 <= p < long.world.asked.len() - world.asked.len(),
        steady(cut(world, p), world.replies.skip(p), short, long),
        follows(world, long),
    ensures
        stops_at(world, p, short, long),
{
    reveal(asked_since);
    reveal(asked_next);
    let before = world.asked.len() + p;
    let asked = long.world.asked;
    assert(p < world.replies.len());
    assert(short.value is None && short.world.stop is Asking);
    assert(short.world.asked.len() == before);
    assert(asked[before] == short.world.asked.push(short.world.stop->Asking_0)[before]);
    assert(short.world.asked =~= asked.take(before)) by {
        assert forall|i: int| 0 <= i < before implies short.world.asked[i] == asked[i] by {
            assert(short.world.asked.push(short.world.stop->Asking_0)[i] == asked[i]);
        }
    }
}

proof fn lemma_cut(world: World, p: int)
    requires
        0 <= p <= world.replies.len(),
    ensures
        grown(cut(world, p), world.replies.skip(p)) == world,
{
    assert(world.replies.take(p) + world.replies.skip(p) =~= world.replies);
}

/// The check for unused type parameters stops at each of the queries it asks if there are no
/// more replies than it read before.
pub proof fn law_unconstrained_stops(
    world: World,
    type_parameters: Seq<TypeParameter>,
    trait_type_arguments: Seq<TypeArgument>,
    self_type: TypeId,
    p: int,
)
    requires
        0 <= p < unconstrained_run(
            world,
            type_parameters,
            trait_type_arguments,
            self_type,
        ).world.asked.len() - world.asked.len(),
    ensures
        stops_at(
            world,
            p,
            unconstrained_run(cut(world, p), type_parameters, trait_type_arguments, self_type),
            unconstrained_run(world, type_parameters, trait_type_arguments, self_type),
        ),
{
    reveal(asked_since);
    let short = unconstrained_run(cut(world, p), type_parameters, trait_type_arguments, self_type);
    let long = unconstrained_run(world, type_parameters, trait_type_arguments, self_type);
    follows_unconstrained(world, type_parameters, trait_type_arguments, self_type);
    lemma_cut(world, p);
    steady_unconstrained(
        cut(world, p),
        world.replies.skip(p),
        type_parameters,
        trait_type_arguments,
        self_type,
    );
    lemma_stops_at(world, p, short, long);
}

/// The check of an associated type stops at each of the queries it asks if there are no more
/// replies than it read before.
pub proof fn law_type_decl_stops(
    world: World,
    ctx: ContextView,
    type_decl: TraitTypeDeclaration,
    trait_name: CallPath,
    is_contract: bool,
    impld_items: Seq<(ItemKey, TyTraitItem)>,
    type_checklist: Seq<(Ident, TyTraitType)>,
    p: int,
)
    requires
        0 <= p < type_decl_run(
            world,
            ctx,
            type_decl,
            trait_name,
            is_contract,
            impld_items,
            type_checklist,
        ).world.asked.len() - world.asked.len(),
    ensures
        stops_at(
            world,
            p,
            type_decl_run(
                cut(world, p),
                ctx,
                type_decl,
                trait_name,
                is_contract,
                impld_items,
                type_checklist,
            ),
            type_decl_run(
                world,
                ctx,
                type_decl,
                trait_name,
                is_contract,
                impld_items,
                type_checklist,
            ),
        ),
{
    reveal(asked_since);
    let short = type_decl_run(
        cut(world, p),
        ctx,
        type_decl,
        trait_name,
        is_contract,
        impld_items,
        type_checklist,
    );
    let long = type_decl_run(
        world,
        ctx,
        type_decl,
        trait_name,
        is_contract,
        impld_items,
        type_checklist,
    );
    follows_type_decl(world, ctx, type_decl, trait_name, is_contract, impld_items, type_checklist);
    lemma_cut(world, p);
    steady_type_decl(
        cut(world, p),
        world.replies.skip(p),
        ctx,
        type_decl,
        trait_name,
        is_contract,
        impld_items,
        type_checklist,
    );
    lemma_stops_at(world, p, short, long);
}

/// The check of a constant stops at each of the queries it asks if there are no more replies
/// than it read before.
pub proof fn law_const_decl_stops(
    world: World,
    ctx: ContextView,
    const_decl: ConstantDeclaration,
    trait_name: CallPath,
    is_contract: bool,
    impld_items: Seq<(ItemKey, TyTraitItem)>,
    constant_checklist: Seq<(Ident, TyConstantDecl)>,
    p: int,
)
    requires
        0 <= p < const_decl_run(
            world,
            ctx,
            const_decl,
            trait_name,
            is_contract,
            impld_items,
            constant_checklist,
        ).world.asked.len() - world.asked.len(),
    ensures
        stops_at(
            world,
            p,
            const_decl_run(
                cut(world, p),
                ctx,
                const_decl,
                trait_name,
                is_contract,
                impld_items,
                constant_checklist,
            ),
            const_decl_run(
                world,
                ctx,
                const_decl,
                trait_name,
                is_contract,
                impld_items,
                constant_checklist,
            ),
        ),
{
    reveal(asked_since);
    let short = const_decl_run(
        cut(world, p),
        ctx,
        const_decl,
        trait_name,
        is_contract,
        impld_items,
        constant_checklist,
    );
    let long = const_decl_run(
        world,
        ctx,
        const_decl,
        trait_name,
        is_contract,
        impld_items,
        constant_checklist,
    );
    follows_const_decl(
        world,
        ctx,
        const_decl,
        trait_name,
        is_contract,
        impld_items,
        constant_checklist,
    );
    lemma_cut(world, p);
    steady_const_decl(
        cut(world, p),
        world.replies.skip(p),
        ctx,
        const_decl,
        trait_name,
        is_contract,
        impld_items,
        constant_checklist,
    );
    lemma_stops_at(world, p, short, long);
}

/// Holding a method against its signature stops at each of the queries it asks if there are no
/// more replies than it read before.
pub proof fn law_hold_method_stops(
    world: World,
    ctx: ContextView,
    impl_type_parameters: Seq<TypeParameter>,
    decl: FunctionView,
    signature: TraitFnView,
    interface_name: InterfaceName,
    p: int,
)
    requires
        0 <= p < hold_method_run(
            world,
            ctx,
            impl_type_parameters,
            decl,
            signature,
            interface_name,
        ).world.asked.len() - world.asked.len(),
    ensures
        stops_at(
            world,
            p,
            hold_method_run(
                cut(world, p),
                ctx,
                impl_type_parameters,
                decl,
                signature,
                interface_name,
            ),
            hold_method_run(world, ctx, impl_type_parameters, decl, signature, interface_name),
        ),
{
    reveal(asked_since);
    let short = hold_method_run(
        cut(world, p),
        ctx,
        impl_type_parameters,
        decl,
        signature,
        interface_name,
    );
    let long = hold_method_run(world, ctx, impl_type_parameters, decl, signature, interface_name);
    follows_hold_method(world, ctx, impl_type_parameters, decl, signature, interface_name);
    lemma_cut(world, p);
    steady_hold_method(
        cut(world, p),
        world.replies.skip(p),
        ctx,
        impl_type_parameters,
        decl,
        signature,
        interface_name,
    );
    lemma_stops_at(world, p, short, long);
}

/// The check of a method stops at each of the queries it asks if there are no more replies
/// than it read before.
pub proof fn law_method_stops(
    world: World,
    ctx: ContextView,
    impl_type_parameters: Seq<TypeParameter>,
    impl_method: FunctionDeclaration,
    trait_name: CallPath,
    is_contract: bool,
    impld_items: Seq<(ItemKey, TyTraitItem)>,
    method_checklist: Seq<(Ident, TyTraitFn)>,
    p: int,
)
    requires
        0 <= p < method_run(
            world,
            ctx,
            impl_type_parameters,
            impl_method,
            trait_name,
            is_contract,
            impld_items,
            method_checklist,
        ).world.asked.len() - world.asked.len(),
    ensures
        stops_at(
            world,
            p,
            method_run(
                cut(world, p),
                ctx,
                impl_type_parameters,
                impl_method,
                trait_name,
                is_contract,
                impld_items,
                method_checklist,
            ),
            method_run(
                world,
                ctx,
                impl_type_parameters,
                impl_method,
                trait_name,
                is_contract,
                impld_items,
                method_checklist,
            ),
        ),
{
    reveal(asked_since);
    let short = method_run(
        cut(world, p),
        ctx,
        impl_type_parameters,
        impl_method,
        trait_name,
        is_contract,
        impld_items,
        method_checklist,
    );
    let long = method_run(
        world,
        ctx,
        impl_type_parameters,
        impl_method,
        trait_name,
        is_contract,
        impld_items,
        method_checklist,
    );
    follows_method(
        world,
        ctx,
        impl_type_parameters,
        impl_method,
        trait_name,
        is_contract,
        impld_items,
        method_checklist,
    );
    lemma_cut(world, p);
    steady_method(
        cut(world, p),
        world.replies.skip(p),
        ctx,
        impl_type_parameters,
        impl_method,
        trait_name,
        is_contract,
        impld_items,
        method_checklist,
    );
    lemma_stops_at(world, p, short, long);
}

/// Collecting the items of supertraits stops at each of the queries it asks if there are no
/// more replies than it read before.
pub proof fn law_supertraits_stops(
    world: World,
    ctx: ContextView,
    supertraits: Seq<Supertrait>,
    p: int,
)
    requires
        0 <= p < supertraits_run(world, ctx, supertraits).world.asked.len() - world.asked.len(),
    ensures
        stops_at(
            world,
            p,
            supertraits_run(cut(world, p), ctx, supertraits),
            supertraits_run(world, ctx, supertraits),
        ),
{
    reveal(asked_since);
    let short = supertraits_run(cut(world, p), ctx, supertraits);
    let long = supertraits_run(world, ctx, supertraits);
    follows_supertraits(world, ctx, supertraits);
    lemma_cut(world, p);
    steady_supertraits(cut(world, p), world.replies.skip(p), ctx, supertraits);
    lemma_stops_at(world, p, short, long);
}

/// Looking up what a trait has for a type stops at each of the queries it asks if there are no
/// more replies than it read before.
pub proof fn law_retrieve_stops(
    world: World,
    decl: TraitView,
    ctx: ContextView,
    type_id: TypeId,
    call_path: CallPath,
    p: int,
)
    requires
        0 <= p < retrieve_run(
            world,
            decl,
            ctx,
            type_id,
            call_path,
        ).world.asked.len() - world.asked.len(),
    ensures
        stops_at(
            world,
            p,
            retrieve_run(cut(world, p), decl, ctx, type_id, call_path),
            retrieve_run(world, decl, ctx, type_id, call_path),
        ),
{
    reveal(asked_since);
    let short = retrieve_run(cut(world, p), decl, ctx, type_id, call_path);
    let long = retrieve_run(world, decl, ctx, type_id, call_path);
    follows_retrieve(world, decl, ctx, type_id, call_path);
    lemma_cut(world, p);
    steady_retrieve(cut(world, p), world.replies.skip(p), decl, ctx, type_id, call_path);
    lemma_stops_at(world, p, short, long);
}

/// Looking up all that a trait has for a type stops at each of the queries it asks if there
/// are no more replies than it read before.
pub proof fn law_retrieve_all_stops(
    world: World,
    decl: TraitView,
    ctx: ContextView,
    type_id: TypeId,
    call_path: CallPath,
    type_arguments: Seq<TypeArgument>,
    p: int,
)
    requires
        0 <= p < retrieve_all_run(
            world,
            decl,
            ctx,
            type_id,
            call_path,
            type_arguments,
        ).world.asked.len() - world.asked.len(),
    ensures
        stops_at(
            world,
            p,
            retrieve_all_run(cut(world, p), decl, ctx, type_id, call_path, type_arguments),
            retrieve_all_run(world, decl, ctx, type_id, call_path, type_arguments),
        ),
{
    reveal(asked_since);
    let short = retrieve_all_run(cut(world, p), decl, ctx, type_id, call_path, type_arguments);
    let long = retrieve_all_run(world, decl, ctx, type_id, call_path, type_arguments);
    follows_retrieve_all(world, decl, ctx, type_id, call_path, type_arguments);
    lemma_cut(world, p);
    steady_retrieve_all(
        cut(world, p),
        world.replies.skip(p),
        decl,
        ctx,
        type_id,
        call_path,
        type_arguments,
    );
    lemma_stops_at(world, p, short, long);
}

/// Making an interface surface known stops at each of the queries it asks if there are no more
/// replies than it read before.
pub proof fn law_insert_surface_stops(
    world: World,
    decl: TraitView,
    ctx: ContextView,
    trait_name: CallPath,
    type_arguments: Seq<TypeArgument>,
    type_id: TypeId,
    p: int,
)
    requires
        0 <= p < insert_surface_run(
            world,
            decl,
            ctx,
            trait_name,
            type_arguments,
            type_id,
        ).world.asked.len() - world.asked.len(),
    ensures
        stops_at(
            world,
            p,
            insert_surface_run(cut(world, p), decl, ctx, trait_name, type_arguments, type_id),
            insert_surface_run(world, decl, ctx, trait_name, type_arguments, type_id),
        ),
{
    reveal(asked_since);
    let short = insert_surface_run(cut(world, p), decl, ctx, trait_name, type_arguments, type_id);
    let long = insert_surface_run(world, decl, ctx, trait_name, type_arguments, type_id);
    follows_insert_surface(world, decl, ctx, trait_name, type_arguments, type_id);
    lemma_cut(world, p);
    steady_insert_surface(
        cut(world, p),
        world.replies.skip(p),
        decl,
        ctx,
        trait_name,
        type_arguments,
        type_id,
    );
    lemma_stops_at(world, p, short, long);
}

/// The check of an implementation stops at each of the queries it asks if there are no more
/// replies than it read before.
pub proof fn law_implementation_stops(
    world: World,
    ctx: ContextView,
    of: Implementation,
    p: int,
)
    requires
        0 <= p < implementation_run(world, ctx, of).world.asked.len() - world.asked.len(),
    ensures
        stops_at(
            world,
            p,
            implementation_run(cut(world, p), ctx, of),
            implementation_run(world, ctx, of),
        ),
{
    reveal(asked_since);
    let short = implementation_run(cut(world, p), ctx, of);
    let long = implementation_run(world, ctx, of);
    follows_implementation(world, ctx, of);
    lemma_cut(world, p);
    steady_implementation(cut(world, p), world.replies.skip(p), ctx, of);
    lemma_stops_at(world, p, short, long);
}

/// Going through the signatures and constants of a trait stops at each of the queries it asks
/// if there are no more replies than it read before.
pub proof fn law_declare_members_stops(
    world: World,
    ctx: ContextView,
    items: Seq<TraitItem>,
    surface: SurfaceView,
    i: int,
    p: int,
)
    requires
        0 <= p < declare_members_run(
            world,
            ctx,
            items,
            surface,
            i,
        ).world.asked.len() - world.asked.len(),
    ensures
        stops_at(
            world,
            p,
            declare_members_run(cut(world, p), ctx, items, surface, i),
            declare_members_run(world, ctx, items, surface, i),
        ),
{
    reveal(asked_since);
    let short = declare_members_run(cut(world, p), ctx, items, surface, i);
    let long = declare_members_run(world, ctx, items, surface, i);
    follows_declare_members(world, ctx, items, surface, i);
    lemma_cut(world, p);
    steady_declare_members(cut(world, p), world.replies.skip(p), ctx, items, surface, i);
    lemma_stops_at(world, p, short, long);
}

/// The check of a trait stops at each of the queries it asks if there are no more replies than
/// it read before.
pub proof fn law_trait_stops(
    world: World,
    ctx: ContextView,
    decl: TraitDeclaration,
    p: int,
)
    requires
        0 <= p < trait_run(world, ctx, decl).world.asked.len() - world.asked.len(),
    ensures
        stops_at(world, p, trait_run(cut(world, p), ctx, decl), trait_run(world, ctx, decl)),
{
    reveal(asked_since);
    let short = trait_run(cut(world, p), ctx, decl);
    let long = trait_run(world, ctx, decl);
    follows_trait(world, ctx, decl);
    lemma_cut(world, p);
    steady_trait(cut(world, p), world.replies.skip(p), ctx, decl);
    lemma_stops_at(world, p, short, long);
}

/// Finishing items stops at each of the queries it asks if there are no more replies than it
/// read before.
pub proof fn law_finalized_stops(
    world: World,
    ctx: ContextView,
    items: Seq<TyTraitItem>,
    p: int,
)
    requires
        0 <= p < finalized(world, ctx, items).world.asked.len() - world.asked.len(),
    ensures
        stops_at(world, p, finalized(cut(world, p), ctx, items), finalized(world, ctx, items)),
{
    reveal(asked_since);
    let short = finalized(cut(world, p), ctx, items);
    let long = finalized(world, ctx, items);
    follows_finalized(world, ctx, items);
    lemma_cut(world, p);
    steady_finalized(cut(world, p), world.replies.skip(p), ctx, items);
    lemma_stops_at(world, p, short, long);
}

/// The check of bodies stops at each of the queries it asks if there are no more replies than
/// it read before.
pub proof fn law_bodies_stops(
    world: World,
    ctx: ContextView,
    items: Seq<ImplItem>,
    new_items: Seq<TyImplItem>,
    i: int,
    p: int,
)
    requires
        0 <= p < bodies_run(world, ctx, items, new_items, i).world.asked.len() - world.asked.len(),
    ensures
        stops_at(
            world,
            p,
            bodies_run(cut(world, p), ctx, items, new_items, i),
            bodies_run(world, ctx, items, new_items, i),
        ),
{
    reveal(asked_since);
    let short = bodies_run(cut(world, p), ctx, items, new_items, i);
    let long = bodies_run(world, ctx, items, new_items, i);
    follows_bodies(world, ctx, items, new_items, i);
    lemma_cut(world, p);
    steady_bodies(cut(world, p), world.replies.skip(p), ctx, items, new_items, i);
    lemma_stops_at(world, p, short, long);
}

/// The check of an impl block of a trait or an ABI stops at each of the queries it asks if
/// there are no more replies than it read before.
pub proof fn law_impl_trait_stops(
    world: World,
    ctx: ContextView,
    block: ImplTrait,
    p: int,
)
    requires
        0 <= p < impl_trait_run(world, ctx, block).world.asked.len() - world.asked.len(),
    ensures
        stops_at(
            world,
            p,
            impl_trait_run(cut(world, p), ctx, block),
            impl_trait_run(world, ctx, block),
        ),
{
    reveal(asked_since);
    let short = impl_trait_run(cut(world, p), ctx, block);
    let long = impl_trait_run(world, ctx, block);
    follows_impl_trait(world, ctx, block);
    lemma_cut(world, p);
    steady_impl_trait(cut(world, p), world.replies.skip(p), ctx, block);
    lemma_stops_at(world, p, short, long);
}

/// The check of an impl block without a trait stops at each of the queries it asks if there
/// are no more replies than it read before.
pub proof fn law_impl_self_stops(
    world: World,
    ctx: ContextView,
    block: ImplSelf,
    p: int,
)
    requires
        0 <= p < impl_self_run(world, ctx, block).world.asked.len() - world.asked.len(),
    ensures
        stops_at(
            world,
            p,
            impl_self_run(cut(world, p), ctx, block),
            impl_self_run(world, ctx, block),
        ),
{
    reveal(asked_since);
    let short = impl_self_run(cut(world, p), ctx, block);
    let long = impl_self_run(world, ctx, block);
    follows_impl_self(world, ctx, block);
    lemma_cut(world, p);
    steady_impl_self(cut(world, p), world.replies.skip(p), ctx, block);
    lemma_stops_at(world, p, short, long);
}

} // verus!
