//! The declaration of a trait.
use crate::decl::{
    plain_path, CallPath, ConstantDeclaration, Decl, DeclRef, DeclView, FunctionDeclaration,
    ParentId, TraitDeclaration, TraitFn, TraitItem, TraitTypeDeclaration, TraitView, TyConstantDecl,
    TyDecl, TyFunctionDecl, TyTraitDecl, TyTraitFn, TyTraitInterfaceItem, TyTraitItem, TyTraitType,
};
use crate::diagnostics::{CompileError, CompileWarning, ErrorEmitted};
use crate::duplicate::{duplicate_all, Duplicate};
use crate::ident::Ident;
use crate::session::{
    ask, chain, chain_ok, done, list, run, to_checked_constant, to_checked_function,
    to_checked_trait_fn, to_checked_trait_type, to_decl_ref, to_function, to_item, to_namespace,
    to_outcome, to_type, to_type_parameters, Context, ContextView, Query, QueryView, Run, Session,
    World,
};
use crate::style::{is_upper_camel_case, upper_camel_case};
use crate::types::{TypeArgument, TypeId, TypeInfo, TypeParameter};
use vstd::prelude::*;

verus! {

/// Makes the type parameters from the `i`-th on known.
pub open spec fn insert_parameters_run(
    world: World,
    ctx: ContextView,
    type_parameters: Seq<TypeParameter>,
    i: int,
) -> Run<Result<(), ErrorEmitted>>
    decreases type_parameters.len() - i,
{
    if i >= type_parameters.len() {
        done(world, Ok(()))
    } else {
        chain_ok(
            to_outcome(
                ask(
                    world,
                    QueryView::InsertTypeParameter { ctx, parameter: type_parameters[i] },
                ),
            ),
            |world: World, _inserted: ()|
                insert_parameters_run(world, ctx, type_parameters, i + 1),
        )
    }
}

/// Makes type parameters known.
pub fn insert_type_parameters(
    cx: &mut Session,
    ctx: &Context,
    type_parameters: &Vec<TypeParameter>,
) -> (result: Option<Result<(), ErrorEmitted>>)
    ensures
        run(final(cx)@, result) == insert_parameters_run(
            old(cx)@,
            ctx@,
            type_parameters@,
            0,
        ),
{
    let mut i: usize = 0;
    while i < type_parameters.len()
        invariant
            i <= type_parameters@.len(),
            insert_parameters_run(old(cx)@, ctx@, type_parameters@, 0) == insert_parameters_run(
                cx@,
                ctx@,
                type_parameters@,
                i as int,
            ),
        decreases type_parameters@.len() - i,
    {
        let inserted = cx.ask_outcome(
            Query::InsertTypeParameter { ctx: ctx.duplicate(), parameter: type_parameters[i] },
        )?;
        if let Err(error) = inserted {
            return Some(Err(error));
        }
        i = i + 1;
    }
    Some(Ok(()))
}

/// What is known of a trait's interface surface while it is gone through: the items, the
/// stand-ins by which its methods can use them, and the names so far.
#[verifier::ext_equal]
pub struct SurfaceView {
    pub items: Seq<TyTraitInterfaceItem>,
    pub stand_ins: Seq<TyTraitItem>,
    pub names: Seq<Ident>,
}

impl SurfaceView {
    /// Nothing gone through yet.
    pub open spec fn empty() -> SurfaceView {
        SurfaceView { items: Seq::empty(), stand_ins: Seq::empty(), names: Seq::empty() }
    }

    /// Whether an item of that name was gone through.
    pub open spec fn declares(self, name: Ident) -> bool {
        exists|i: int| 0 <= i < self.names.len() && (#[trigger] self.names[i]).name@ == name.name@
    }

    /// The same with a name more.
    pub open spec fn naming(self, name: Ident) -> SurfaceView {
        if self.declares(name) {
            self
        } else {
            SurfaceView { names: self.names.push(name), ..self }
        }
    }

    /// The same with an interface item more.
    pub open spec fn listing(self, item: TyTraitInterfaceItem) -> SurfaceView {
        SurfaceView { items: self.items.push(item), ..self }
    }

    /// The same with a stand-in more.
    pub open spec fn standing_in(self, item: TyTraitItem) -> SurfaceView {
        SurfaceView { stand_ins: self.stand_ins.push(item), ..self }
    }

    /// The same without stand-ins.
    pub open spec fn without_stand_ins(self) -> SurfaceView {
        SurfaceView { stand_ins: Seq::empty(), ..self }
    }
}

/// Takes a name down. A name that is there already is an error, which does not end the check.
pub open spec fn name_run(world: World, surface: SurfaceView, name: Ident) -> Run<
    Result<SurfaceView, ErrorEmitted>,
> {
    done(
        if surface.declares(name) {
            world.emit_plain(CompileError::MultipleDefinitionsOfName { name, span: name.span })
        } else {
            world
        },
        Ok(surface.naming(name)),
    )
}

/// Goes through an associated type. It stands in for itself.
pub open spec fn declare_type_run(
    world: World,
    ctx: ContextView,
    parsed: TraitTypeDeclaration,
    surface: SurfaceView,
) -> Run<Result<SurfaceView, ErrorEmitted>> {
    chain_ok(
        to_checked_trait_type(ask(world, QueryView::TypeCheckTraitType { ctx, parsed })),
        |world: World, decl: TyTraitType|
            chain(
                to_decl_ref(
                    ask(
                        world,
                        QueryView::InsertDecl { decl: DeclView::TraitType(decl), parent: None },
                    ),
                ),
                |world: World, decl_ref: DeclRef|
                    name_run(
                        world,
                        surface.standing_in(TyTraitItem::Type(decl_ref)).listing(
                            TyTraitInterfaceItem::Type(decl_ref),
                        ),
                        decl.name,
                    ),
            ),
    )
}

/// Goes through a signature. A function without a body stands in for it.
pub open spec fn declare_fn_run(
    world: World,
    ctx: ContextView,
    parsed: TraitFn,
    surface: SurfaceView,
) -> Run<Result<SurfaceView, ErrorEmitted>> {
    chain_ok(
        to_checked_trait_fn(ask(world, QueryView::TypeCheckTraitFn { ctx, parsed })),
        |world: World, method: TyTraitFn|
            chain(
                to_decl_ref(
                    ask(
                        world,
                        QueryView::InsertDecl { decl: DeclView::TraitFn(method@), parent: None },
                    ),
                ),
                |world: World, decl_ref: DeclRef|
                    chain(
                        to_decl_ref(
                            ask(
                                world,
                                QueryView::InsertDummyFunction {
                                    trait_fn: method@,
                                    parent: ParentId::TraitFn(decl_ref.id),
                                },
                            ),
                        ),
                        |world: World, dummy: DeclRef|
                            name_run(
                                world,
                                surface.standing_in(TyTraitItem::Fn(dummy)).listing(
                                    TyTraitInterfaceItem::TraitFn(decl_ref),
                                ),
                                method.name,
                            ),
                    ),
            ),
    )
}

/// Goes through a constant. It becomes known by its name and needs no stand-in.
pub open spec fn declare_constant_run(
    world: World,
    ctx: ContextView,
    parsed: ConstantDeclaration,
    surface: SurfaceView,
) -> Run<Result<SurfaceView, ErrorEmitted>> {
    chain_ok(
        to_checked_constant(ask(world, QueryView::TypeCheckConstant { ctx, parsed })),
        |world: World, constant: TyConstantDecl|
            chain(
                to_decl_ref(
                    ask(
                        world,
                        QueryView::InsertDecl {
                            decl: DeclView::Constant(constant),
                            parent: None,
                        },
                    ),
                ),
                |world: World, decl_ref: DeclRef|
                    chain_ok(
                        to_outcome(
                            ask(
                                world,
                                QueryView::InsertSymbol {
                                    ctx,
                                    name: constant.name@,
                                    decl: TyDecl::ConstantDecl {
                                        name: constant.name,
                                        decl_id: decl_ref.id,
                                        decl_span: constant.span,
                                    },
                                },
                            ),
                        ),
                        |world: World, _inserted: ()|
                            name_run(
                                world,
                                surface.listing(TyTraitInterfaceItem::Constant(decl_ref)),
                                constant.name,
                            ),
                    ),
            ),
    )
}

/// Goes through the associated types among the items from the `i`-th on.
pub open spec fn declare_types_run(
    world: World,
    ctx: ContextView,
    items: Seq<TraitItem>,
    surface: SurfaceView,
    i: int,
) -> Run<Result<SurfaceView, ErrorEmitted>>
    decreases items.len() - i,
{
    if i >= items.len() {
        done(world, Ok(surface))
    } else {
        chain_ok(
            match items[i] {
                TraitItem::Type(parsed) => declare_type_run(world, ctx, parsed, surface),
                _ => done(world, Ok(surface)),
            },
            |world: World, surface: SurfaceView|
                declare_types_run(world, ctx, items, surface, i + 1),
        )
    }
}

/// Goes through the signatures and the constants among the items from the `i`-th on.
pub open spec fn declare_members_run(
    world: World,
    ctx: ContextView,
    items: Seq<TraitItem>,
    surface: SurfaceView,
    i: int,
) -> Run<Result<SurfaceView, ErrorEmitted>>
    decreases items.len() - i,
{
    if i >= items.len() {
        done(world, Ok(surface))
    } else {
        chain_ok(
            match items[i] {
                TraitItem::TraitFn(parsed) => declare_fn_run(world, ctx, parsed, surface),
                TraitItem::Constant(parsed) => declare_constant_run(world, ctx, parsed, surface),
                _ => done(world, Ok(surface)),
            },
            |world: World, surface: SurfaceView|
                declare_members_run(world, ctx, items, surface, i + 1),
        )
    }
}

/// Checks the methods from the `i`-th on that the trait provides. One with errors is replaced
/// by an error declaration.
pub open spec fn methods_run(
    world: World,
    ctx: ContextView,
    methods: Seq<FunctionDeclaration>,
    items: Seq<TyTraitItem>,
    i: int,
) -> Run<Seq<TyTraitItem>>
    decreases methods.len() - i,
{
    if i >= methods.len() {
        done(world, items)
    } else {
        chain(
            provide_method_run(world, ctx, methods[i]),
            |world: World, decl_ref: DeclRef|
                methods_run(world, ctx, methods, items.push(TyTraitItem::Fn(decl_ref)), i + 1),
        )
    }
}

/// Checks one method that the trait provides.
pub open spec fn provide_method_run(
    world: World,
    ctx: ContextView,
    parsed: FunctionDeclaration,
) -> Run<DeclRef> {
    chain(
        to_checked_function(ask(world, QueryView::TypeCheckFunction { ctx, parsed })),
        |world: World, checked: Result<TyFunctionDecl, ErrorEmitted>|
            chain(
                match checked {
                    Ok(decl) => done(world, decl),
                    Err(_) => to_function(ask(world, QueryView::ErrorFunction { parsed })),
                },
                |world: World, decl: TyFunctionDecl|
                    to_decl_ref(
                        ask(
                            world,
                            QueryView::InsertDecl {
                                decl: DeclView::Function(decl@),
                                parent: None,
                            },
                        ),
                    ),
            ),
    )
}

/// Type parameters as the type arguments that they are inside their own scope.
pub open spec fn as_arguments(type_parameters: Seq<TypeParameter>) -> Seq<TypeArgument> {
    Seq::new(
        type_parameters.len(),
        |i: int|
            TypeArgument {
                type_id: type_parameters[i].type_id,
                span: type_parameters[i].span,
                key: type_parameters[i].key,
            },
    )
}

/// Makes stand-ins for interface items known, so that the methods of the trait can use them.
pub open spec fn stand_in_run(
    world: World,
    ctx: ContextView,
    decl: TraitDeclaration,
    type_parameters: Seq<TypeParameter>,
    stand_ins: Seq<TyTraitItem>,
    is_extending_existing_impl: bool,
) -> Run<Result<(), ErrorEmitted>> {
    to_outcome(
        ask(
            world,
            QueryView::InsertTraitImplementation {
                ctx,
                trait_name: plain_path(decl.name),
                type_arguments: as_arguments(type_parameters),
                type_id: ctx.self_type,
                items: stand_ins,
                impl_span: decl.span,
                trait_decl_span: None,
                is_extending_existing_impl,
            },
        ),
    )
}

/// What is inside a trait: the associated types first, then the signatures and the constants,
/// and the methods it provides last.
pub open spec fn trait_body_run(
    world: World,
    ctx: ContextView,
    decl: TraitDeclaration,
    type_parameters: Seq<TypeParameter>,
) -> Run<Result<TraitView, ErrorEmitted>> {
    chain_ok(
        declare_types_run(world, ctx, decl.interface_surface@, SurfaceView::empty(), 0),
        |world: World, surface: SurfaceView|
            chain_ok(
                stand_in_run(world, ctx, decl, type_parameters, surface.stand_ins, false),
                |world: World, _inserted: ()|
                    chain_ok(
                        declare_members_run(
                            world,
                            ctx,
                            decl.interface_surface@,
                            surface.without_stand_ins(),
                            0,
                        ),
                        |world: World, surface: SurfaceView|
                            chain_ok(
                                stand_in_run(
                                    world,
                                    ctx,
                                    decl,
                                    type_parameters,
                                    surface.stand_ins,
                                    true,
                                ),
                                |world: World, _inserted: ()|
                                    chain(
                                        methods_run(world, ctx, decl.methods@, Seq::empty(), 0),
                                        |world: World, items: Seq<TyTraitItem>|
                                            done(
                                                world,
                                                Ok(
                                                    TraitView {
                                                        name: decl.name,
                                                        type_parameters,
                                                        interface_surface: surface.items,
                                                        items,
                                                        supertraits: decl.supertraits@,
                                                        span: decl.span,
                                                        key: decl.key,
                                                    },
                                                ),
                                            ),
                                    ),
                            ),
                    ),
            ),
    )
}

/// The state after a trait's name was looked at: one that is not in UpperCamelCase gets a
/// warning.
pub open spec fn style_checked(world: World, name: Ident) -> World {
    if upper_camel_case(name.name@) {
        world
    } else {
        world.warn(CompileWarning::NonClassCaseTraitName { name, span: name.span })
    }
}

/// What checking the declaration of a trait comes to.
pub open spec fn trait_run(world: World, ctx: ContextView, decl: TraitDeclaration) -> Run<
    Result<TraitView, ErrorEmitted>,
> {
    chain(
        to_type(
            ask(
                style_checked(world, decl.name),
                QueryView::InsertType { info: TypeInfo::SelfType },
            ),
        ),
        |world: World, self_type: TypeId|
            chain(
                to_namespace(
                    ask(world, QueryView::CloneNamespace { namespace: ctx.namespace }),
                ),
                |world: World, namespace: u64|
                    trait_head_run(
                        world,
                        ctx.scoped(namespace).with_self_type(self_type),
                        decl,
                    ),
            ),
    )
}

/// The head of a trait: its type parameters and its supertraits. What is inside comes after.
pub open spec fn trait_head_run(world: World, ctx: ContextView, decl: TraitDeclaration) -> Run<
    Result<TraitView, ErrorEmitted>,
> {
    chain_ok(
        to_type_parameters(
            ask(
                world,
                QueryView::TypeCheckTypeParameters { ctx, parameters: decl.type_parameters },
            ),
        ),
        |world: World, type_parameters: Vec<TypeParameter>|
            chain_ok(
                insert_parameters_run(world, ctx, type_parameters@, 0),
                |world: World, _inserted: ()|
                    chain_ok(
                        to_outcome(
                            ask(
                                world,
                                QueryView::InsertSupertraits {
                                    ctx,
                                    self_type: ctx.self_type,
                                    supertraits: decl.supertraits@,
                                },
                            ),
                        ),
                        |world: World, _inserted: ()|
                            trait_body_run(world, ctx, decl, type_parameters@),
                    ),
            ),
    )
}

/// A trait that may be missing or refused, as a mathematical value.
pub open spec fn trait_result(value: Option<Result<TyTraitDecl, ErrorEmitted>>) -> Option<
    Result<TraitView, ErrorEmitted>,
> {
    match value {
        Some(Ok(decl)) => Some(Ok(decl@)),
        Some(Err(error)) => Some(Err(error)),
        None => None,
    }
}

/// A trait's interface surface while it is gone through.
struct Surface {
    items: Vec<TyTraitInterfaceItem>,
    stand_ins: Vec<TyTraitItem>,
    names: Vec<Ident>,
}

impl View for Surface {
    type V = SurfaceView;

    closed spec fn view(&self) -> SurfaceView {
        SurfaceView {
            items: self.items@,
            stand_ins: self.stand_ins@,
            names: self.names@,
        }
    }
}

spec fn surface_result(value: Option<Result<Surface, ErrorEmitted>>) -> Option<
    Result<SurfaceView, ErrorEmitted>,
> {
    match value {
        Some(Ok(surface)) => Some(Ok(surface@)),
        Some(Err(error)) => Some(Err(error)),
        None => None,
    }
}

impl Surface {
    fn declares(&self, name: &Ident) -> (found: bool)
        ensures
            found == self@.declares(*name),
    {
        let mut i: usize = 0;
        while i < self.names.len()
            invariant
                i <= self.names@.len(),
                forall|j: int| 0 <= j < i ==> (#[trigger] self.names@[j]).name@ != name.name@,
            decreases self.names@.len() - i,
        {
            if self.names[i] == *name {
                assert(self@.names[i as int].name@ == name.name@);
                return true;
            }
            i = i + 1;
        }
        false
    }

    /// Takes a name down.
    fn take_name(self, cx: &mut Session, name: Ident) -> (surface: Surface)
        ensures
            run(final(cx)@, surface_result(Some(Ok(surface)))) == name_run(old(cx)@, self@, name),
    {
        let mut surface = self;
        if surface.declares(&name) {
            let span = name.span;
            cx.emit_err(CompileError::MultipleDefinitionsOfName { name, span });
        } else {
            surface.names.push(name);
        }
        surface
    }

    fn declare_type(self, cx: &mut Session, ctx: &Context, parsed: TraitTypeDeclaration) -> (result:
        Option<Result<Surface, ErrorEmitted>>)
        ensures
            run(final(cx)@, surface_result(result)) == declare_type_run(
                old(cx)@,
                ctx@,
                parsed,
                self@,
            ),
    {
        let mut surface = self;
        let decl = match cx.ask_checked_trait_type(
            Query::TypeCheckTraitType { ctx: ctx.duplicate(), parsed },
        )? {
            Ok(decl) => decl,
            Err(error) => return Some(Err(error)),
        };
        let name = decl.name.duplicate();
        let decl_ref = cx.ask_decl_ref(
            Query::InsertDecl { decl: Decl::TraitType(decl), parent: None },
        )?;
        surface.stand_ins.push(TyTraitItem::Type(decl_ref.duplicate()));
        surface.items.push(TyTraitInterfaceItem::Type(decl_ref));
        Some(Ok(surface.take_name(cx, name)))
    }

    fn declare_fn(self, cx: &mut Session, ctx: &Context, parsed: TraitFn) -> (result: Option<
        Result<Surface, ErrorEmitted>,
    >)
        ensures
            run(final(cx)@, surface_result(result)) == declare_fn_run(
                old(cx)@,
                ctx@,
                parsed,
                self@,
            ),
    {
        let mut surface = self;
        let method = match cx.ask_checked_trait_fn(
            Query::TypeCheckTraitFn { ctx: ctx.duplicate(), parsed },
        )? {
            Ok(method) => method,
            Err(error) => return Some(Err(error)),
        };
        let name = method.name.duplicate();
        let decl_ref = cx.ask_decl_ref(
            Query::InsertDecl { decl: Decl::TraitFn(method.duplicate()), parent: None },
        )?;
        let dummy = cx.ask_decl_ref(
            Query::InsertDummyFunction {
                trait_fn: method,
                parent: ParentId::TraitFn(decl_ref.id),
            },
        )?;
        surface.stand_ins.push(TyTraitItem::Fn(dummy));
        surface.items.push(TyTraitInterfaceItem::TraitFn(decl_ref));
        Some(Ok(surface.take_name(cx, name)))
    }

    fn declare_constant(
        self,
        cx: &mut Session,
        ctx: &Context,
        parsed: ConstantDeclaration,
    ) -> (result: Option<Result<Surface, ErrorEmitted>>)
        ensures
            run(final(cx)@, surface_result(result)) == declare_constant_run(
                old(cx)@,
                ctx@,
                parsed,
                self@,
            ),
    {
        let mut surface = self;
        let constant = match cx.ask_checked_constant(
            Query::TypeCheckConstant { ctx: ctx.duplicate(), parsed },
        )? {
            Ok(constant) => constant,
            Err(error) => return Some(Err(error)),
        };
        let decl_ref = cx.ask_decl_ref(
            Query::InsertDecl { decl: Decl::Constant(constant.duplicate()), parent: None },
        )?;
        let inserted = cx.ask_outcome(
            Query::InsertSymbol {
                ctx: ctx.duplicate(),
                name: constant.name.duplicate(),
                decl: TyDecl::ConstantDecl {
                    name: constant.name.duplicate(),
                    decl_id: decl_ref.id,
                    decl_span: constant.span,
                },
            },
        )?;
        if let Err(error) = inserted {
            return Some(Err(error));
        }
        surface.items.push(TyTraitInterfaceItem::Constant(decl_ref));
        Some(Ok(surface.take_name(cx, constant.name)))
    }
}

fn declare_types(cx: &mut Session, ctx: &Context, items: &Vec<TraitItem>) -> (result: Option<
    Result<Surface, ErrorEmitted>,
>)
    ensures
        run(final(cx)@, surface_result(result)) == declare_types_run(
            old(cx)@,
            ctx@,
            items@,
            SurfaceView::empty(),
            0,
        ),
{
    let mut surface = Surface { items: Vec::new(), stand_ins: Vec::new(), names: Vec::new() };
    let mut i: usize = 0;
    while i < items.len()
        invariant
            i <= items@.len(),
            declare_types_run(old(cx)@, ctx@, items@, SurfaceView::empty(), 0)
                == declare_types_run(cx@, ctx@, items@, surface@, i as int),
        decreases items@.len() - i,
    {
        if let TraitItem::Type(parsed) = items[i] {
            match surface.declare_type(cx, ctx, parsed)? {
                Ok(more) => {
                    surface = more;
                },
                Err(error) => return Some(Err(error)),
            }
        }
        i = i + 1;
    }
    Some(Ok(surface))
}

fn declare_members(
    cx: &mut Session,
    ctx: &Context,
    items: &Vec<TraitItem>,
    surface: Surface,
) -> (result: Option<Result<Surface, ErrorEmitted>>)
    ensures
        run(final(cx)@, surface_result(result)) == declare_members_run(
            old(cx)@,
            ctx@,
            items@,
            surface@,
            0,
        ),
{
    let mut current = surface;
    let mut i: usize = 0;
    while i < items.len()
        invariant
            i <= items@.len(),
            declare_members_run(old(cx)@, ctx@, items@, surface@, 0) == declare_members_run(
                cx@,
                ctx@,
                items@,
                current@,
                i as int,
            ),
        decreases items@.len() - i,
    {
        let declared = match items[i] {
            TraitItem::TraitFn(parsed) => current.declare_fn(cx, ctx, parsed)?,
            TraitItem::Constant(parsed) => current.declare_constant(cx, ctx, parsed)?,
            _ => Ok(current),
        };
        match declared {
            Ok(more) => {
                current = more;
            },
            Err(error) => return Some(Err(error)),
        }
        i = i + 1;
    }
    Some(Ok(current))
}

fn provide_methods(cx: &mut Session, ctx: &Context, methods: &Vec<FunctionDeclaration>) -> (items:
    Option<Vec<TyTraitItem>>)
    ensures
        run(final(cx)@, list(items)) == methods_run(
            old(cx)@,
            ctx@,
            methods@,
            Seq::empty(),
            0,
        ),
{
    let mut items: Vec<TyTraitItem> = Vec::new();
    let mut i: usize = 0;
    while i < methods.len()
        invariant
            i <= methods@.len(),
            methods_run(old(cx)@, ctx@, methods@, Seq::empty(), 0) == methods_run(
                cx@,
                ctx@,
                methods@,
                items@,
                i as int,
            ),
        decreases methods@.len() - i,
    {
        let parsed = methods[i];
        let decl = match cx.ask_checked_function(
            Query::TypeCheckFunction { ctx: ctx.duplicate(), parsed },
        )? {
            Ok(decl) => decl,
            Err(_) => cx.ask_function(Query::ErrorFunction { parsed })?,
        };
        let decl_ref = cx.ask_decl_ref(
            Query::InsertDecl { decl: Decl::Function(decl), parent: None },
        )?;
        items.push(TyTraitItem::Fn(decl_ref));
        i = i + 1;
    }
    Some(items)
}

fn arguments_of(type_parameters: &Vec<TypeParameter>) -> (type_arguments: Vec<TypeArgument>)
    ensures
        type_arguments@ == as_arguments(type_parameters@),
{
    let mut type_arguments: Vec<TypeArgument> = Vec::new();
    let mut i: usize = 0;
    while i < type_parameters.len()
        invariant
            i <= type_parameters@.len(),
            type_arguments@ =~= as_arguments(type_parameters@).take(i as int),
        decreases type_parameters@.len() - i,
    {
        let parameter = type_parameters[i];
        type_arguments.push(
            TypeArgument { type_id: parameter.type_id, span: parameter.span, key: parameter.key },
        );
        i = i + 1;
    }
    type_arguments
}

fn insert_stand_ins(
    cx: &mut Session,
    ctx: &Context,
    decl: &TraitDeclaration,
    type_parameters: &Vec<TypeParameter>,
    stand_ins: Vec<TyTraitItem>,
    is_extending_existing_impl: bool,
) -> (result: Option<Result<(), ErrorEmitted>>)
    ensures
        run(final(cx)@, result) == stand_in_run(
            old(cx)@,
            ctx@,
            *decl,
            type_parameters@,
            stand_ins@,
            is_extending_existing_impl,
        ),
{
    cx.ask_outcome(
        Query::InsertTraitImplementation {
            ctx: ctx.duplicate(),
            trait_name: CallPath::plain(decl.name.duplicate()),
            type_arguments: arguments_of(type_parameters),
            type_id: ctx.self_type,
            items: stand_ins,
            impl_span: decl.span,
            trait_decl_span: None,
            is_extending_existing_impl,
        },
    )
}

fn check_trait_body(
    cx: &mut Session,
    ctx: &Context,
    decl: &TraitDeclaration,
    type_parameters: Vec<TypeParameter>,
) -> (result: Option<Result<TyTraitDecl, ErrorEmitted>>)
    ensures
        run(final(cx)@, trait_result(result)) == trait_body_run(
            old(cx)@,
            ctx@,
            *decl,
            type_parameters@,
        ),
{
    // The associated types come first, so that the other items can use them.
    let surface = match declare_types(cx, ctx, &decl.interface_surface)? {
        Ok(surface) => surface,
        Err(error) => return Some(Err(error)),
    };
    let Surface { items, stand_ins, names } = surface;
    if let Err(error) = insert_stand_ins(cx, ctx, decl, &type_parameters, stand_ins, false)? {
        return Some(Err(error));
    }
    let surface = Surface { items, stand_ins: Vec::new(), names };

    let surface = match declare_members(cx, ctx, &decl.interface_surface, surface)? {
        Ok(surface) => surface,
        Err(error) => return Some(Err(error)),
    };
    let Surface { items, stand_ins, .. } = surface;
    if let Err(error) = insert_stand_ins(cx, ctx, decl, &type_parameters, stand_ins, true)? {
        return Some(Err(error));
    }
    let provided = provide_methods(cx, ctx, &decl.methods)?;
    Some(
        Ok(
            TyTraitDecl {
                name: decl.name.duplicate(),
                type_parameters,
                interface_surface: items,
                items: provided,
                supertraits: duplicate_all(&decl.supertraits),
                span: decl.span,
                key: decl.key,
            },
        ),
    )
}

impl TyTraitDecl {
    /// Checks the declaration of a trait.
    pub fn type_check(cx: &mut Session, ctx: &Context, trait_decl: &TraitDeclaration) -> (result:
        Option<Result<TyTraitDecl, ErrorEmitted>>)
        ensures
            run(final(cx)@, trait_result(result)) == trait_run(old(cx)@, ctx@, *trait_decl),
    {
        if !is_upper_camel_case(trait_decl.name.name.as_str()) {
            cx.emit_warn(
                CompileWarning::NonClassCaseTraitName {
                    name: trait_decl.name.duplicate(),
                    span: trait_decl.name.span,
                },
            );
        }

        // A namespace for the scope of the trait alone.
        let self_type = cx.ask_type(Query::InsertType { info: TypeInfo::SelfType })?;
        let namespace: u64 = cx.ask_namespace(
            Query::CloneNamespace { namespace: ctx.namespace },
        )?;
        let ctx = ctx.scoped(namespace).with_self_type(self_type);

        let type_parameters = match cx.ask_type_parameters(
            Query::TypeCheckTypeParameters {
                ctx: ctx.duplicate(),
                parameters: trait_decl.type_parameters,
            },
        )? {
            Ok(type_parameters) => type_parameters,
            Err(error) => return Some(Err(error)),
        };
        if let Err(error) = insert_type_parameters(cx, &ctx, &type_parameters)? {
            return Some(Err(error));
        }

        // The trait can use what its supertraits declare.
        let inserted = cx.ask_outcome(
            Query::InsertSupertraits {
                ctx: ctx.duplicate(),
                self_type,
                supertraits: duplicate_all(&trait_decl.supertraits),
            },
        )?;
        if let Err(error) = inserted {
            return Some(Err(error));
        }
        check_trait_body(cx, &ctx, trait_decl, type_parameters)
    }
}

/// Finishes the items from the `i`-th on; `finished` are those before. An item with errors
/// does not end it.
pub open spec fn finalize_run(
    world: World,
    ctx: ContextView,
    items: Seq<TyTraitItem>,
    finished: Seq<TyTraitItem>,
    i: int,
) -> Run<Seq<TyTraitItem>>
    decreases items.len() - i,
{
    if i >= items.len() {
        done(world, finished)
    } else {
        chain(
            to_item(ask(world, QueryView::FinalizeItem { ctx, item: items[i] })),
            |world: World, item: TyTraitItem|
                finalize_run(world, ctx, items, finished.push(item), i + 1),
        )
    }
}

/// What finishing items comes to. An error about one of them makes it an error.
pub open spec fn finalized(world: World, ctx: ContextView, items: Seq<TyTraitItem>) -> Run<
    (Seq<TyTraitItem>, Result<(), ErrorEmitted>),
> {
    chain(
        finalize_run(world, ctx, items, Seq::empty(), 0),
        |after: World, finished: Seq<TyTraitItem>|
            done(
                after,
                (
                    finished,
                    if after.errors.len() > world.errors.len() {
                        Err(ErrorEmitted)
                    } else {
                        Ok(())
                    },
                ),
            ),
    )
}

/// Finishes the checking of items in place.
pub fn finalize_items(
    cx: &mut Session,
    ctx: &Context,
    items: &mut Vec<TyTraitItem>,
) -> (result: Option<Result<(), ErrorEmitted>>)
    ensures
        final(cx)@ == finalized(old(cx)@, ctx@, old(items)@).world,
        match result {
            Some(value) => finalized(old(cx)@, ctx@, old(items)@).value == Some(
                (final(items)@, value),
            ),
            None => finalized(old(cx)@, ctx@, old(items)@).value is None && final(items)@ == old(
                items,
            )@,
        },
{
    let before: usize = cx.error_count();
    let mut finished: Vec<TyTraitItem> = Vec::new();
    let mut i: usize = 0;
    while i < items.len()
        invariant
            i <= items@.len(),
            items@ == old(items)@,
            finalize_run(old(cx)@, ctx@, items@, Seq::empty(), 0) == finalize_run(
                cx@,
                ctx@,
                items@,
                finished@,
                i as int,
            ),
        decreases items@.len() - i,
    {
        let item = cx.ask_item(
            Query::FinalizeItem { ctx: ctx.duplicate(), item: items[i].duplicate() },
        )?;
        finished.push(item);
        i = i + 1;
    }
    *items = finished;
    Some(cx.close_scope(before, Ok(())))
}

impl TyTraitDecl {
    /// Finishes the checking of the items that this trait provides.
    pub fn type_check_finalize(&mut self, cx: &mut Session, ctx: &Context) -> (result: Option<
        Result<(), ErrorEmitted>,
    >)
        ensures
            final(cx)@ == finalized(old(cx)@, ctx@, old(self).items@).world,
            match result {
                Some(value) => finalized(old(cx)@, ctx@, old(self).items@).value == Some(
                    (final(self).items@, value),
                ),
                None => finalized(old(cx)@, ctx@, old(self).items@).value is None
                    && final(self).items@ == old(self).items@,
            },
            final(self)@ == (TraitView { items: final(self).items@, ..old(self)@ }),
    {
        finalize_items(cx, ctx, &mut self.items)
    }
}

} // verus!
