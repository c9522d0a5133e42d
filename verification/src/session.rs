//! The conversation between the checks and the rest of the compiler.
//!
//! A check needs work that only the compiler can do: resolving names and types, checking
//! bodies, keeping declarations. It asks for it by a `Query` and goes on with the `Reply`.
//! A check is run on the replies given so far. Where it needs one that is not there yet it
//! stops and leaves the query behind; the compiler does the work, adds the reply at the
//! end, and runs the check again.
use crate::decl::{
    CallPath, ConstantDeclaration, Decl, DeclKind, DeclRef, DeclView, FunctionDeclaration,
    FunctionView, InterfaceItemMap, ItemMap, ParentId, Supertrait, TraitFn, TraitFnView,
    TraitTypeDeclaration, TraitView, TyAbiDecl, TyConstantDecl, TyDecl, TyFunctionDecl,
    TyTraitDecl, TyTraitFn, TyTraitInterfaceItem, TyTraitItem, TyTraitType, TypeParameterList,
};
use crate::diagnostics::{CompileError, CompileWarning, ErrorEmitted, ErrorView};
use crate::duplicate::Duplicate;
use crate::ident::{Ident, IdentView, Span};
use crate::types::{ItemKey, TypeArgument, TypeId, TypeInfo, TypeParameter, TypeSubstMap};
use std::collections::VecDeque;
use vstd::prelude::*;

verus! {

/// How a constant may hide another of the same name.
#[derive(Clone, Copy, Debug, PartialEq, Eq, Structural)]
pub enum ConstShadowingMode {
    Sequential,
    ItemStyle,
    Allow,
}

/// Whether the code being checked implements an ABI, and which.
#[derive(Clone, Debug, PartialEq, Eq)]
pub enum AbiMode {
    NonAbi,
    ImplAbiFn(Ident),
}

impl Duplicate for AbiMode {
    fn duplicate(&self) -> (copy: AbiMode) {
        match self {
            AbiMode::NonAbi => AbiMode::NonAbi,
            AbiMode::ImplAbiFn(name) => AbiMode::ImplAbiFn(name.duplicate()),
        }
    }
}

/// What the compiler is told about where a piece of work takes place. `namespace` is the
/// number of a namespace, `help_text` the key of a text added to errors about types, and
/// `key` leads to whatever else surrounds the declaration.
#[derive(Debug, PartialEq, Eq)]
pub struct Context {
    pub namespace: u64,
    pub self_type: TypeId,
    pub type_annotation: TypeId,
    pub help_text: Option<u64>,
    pub type_subst: TypeSubstMap,
    pub abi_mode: AbiMode,
    pub const_shadowing_mode: ConstShadowingMode,
    pub disallow_functions: bool,
    pub defer_monomorphization: bool,
    pub key: u64,
}

/// A context as a mathematical value.
pub struct ContextView {
    pub namespace: u64,
    pub self_type: TypeId,
    pub type_annotation: TypeId,
    pub help_text: Option<u64>,
    pub type_subst: Seq<(TypeId, TypeId)>,
    pub abi_mode: AbiMode,
    pub const_shadowing_mode: ConstShadowingMode,
    pub disallow_functions: bool,
    pub defer_monomorphization: bool,
    pub key: u64,
}

impl View for Context {
    type V = ContextView;

    open spec fn view(&self) -> ContextView {
        ContextView {
            namespace: self.namespace,
            self_type: self.self_type,
            type_annotation: self.type_annotation,
            help_text: self.help_text,
            type_subst: self.type_subst@,
            abi_mode: self.abi_mode,
            const_shadowing_mode: self.const_shadowing_mode,
            disallow_functions: self.disallow_functions,
            defer_monomorphization: self.defer_monomorphization,
            key: self.key,
        }
    }
}

impl ContextView {
    /// The same context in another namespace.
    pub open spec fn scoped(self, namespace: u64) -> ContextView {
        ContextView { namespace, ..self }
    }

    /// The same context with another self type.
    pub open spec fn with_self_type(self, self_type: TypeId) -> ContextView {
        ContextView { self_type, ..self }
    }

    /// The same context with a type to expect, and no help text.
    pub open spec fn expecting(self, type_annotation: TypeId) -> ContextView {
        ContextView { type_annotation, help_text: None, ..self }
    }

    /// The same context under another substitution.
    pub open spec fn with_type_subst(self, type_subst: Seq<(TypeId, TypeId)>) -> ContextView {
        ContextView { type_subst, ..self }
    }

    /// The same context inside the implementation of an ABI.
    pub open spec fn with_abi(self, name: Ident) -> ContextView {
        ContextView { abi_mode: AbiMode::ImplAbiFn(name), ..self }
    }

    /// The same context inside an impl block: constants shadow as items do, and functions
    /// may be declared.
    pub open spec fn in_impl_block(self) -> ContextView {
        ContextView {
            const_shadowing_mode: ConstShadowingMode::ItemStyle,
            disallow_functions: false,
            ..self
        }
    }

    /// The same context with monomorphization put off.
    pub open spec fn deferring(self) -> ContextView {
        ContextView { defer_monomorphization: true, ..self }
    }
}

impl Context {
    /// An equal context.
    pub fn duplicate(&self) -> (copy: Context)
        ensures
            copy@ == self@,
    {
        Context {
            namespace: self.namespace,
            self_type: self.self_type,
            type_annotation: self.type_annotation,
            help_text: self.help_text,
            type_subst: self.type_subst.duplicate(),
            abi_mode: self.abi_mode.duplicate(),
            const_shadowing_mode: self.const_shadowing_mode,
            disallow_functions: self.disallow_functions,
            defer_monomorphization: self.defer_monomorphization,
            key: self.key,
        }
    }

    /// The same context in another namespace.
    pub fn scoped(&self, namespace: u64) -> (ctx: Context)
        ensures
            ctx@ == self@.scoped(namespace),
    {
        let mut ctx = self.duplicate();
        ctx.namespace = namespace;
        ctx
    }

    /// The same context with another self type.
    pub fn with_self_type(&self, self_type: TypeId) -> (ctx: Context)
        ensures
            ctx@ == self@.with_self_type(self_type),
    {
        let mut ctx = self.duplicate();
        ctx.self_type = self_type;
        ctx
    }

    /// The same context with a type to expect, and no help text.
    pub fn expecting(&self, type_annotation: TypeId) -> (ctx: Context)
        ensures
            ctx@ == self@.expecting(type_annotation),
    {
        let mut ctx = self.duplicate();
        ctx.type_annotation = type_annotation;
        ctx.help_text = None;
        ctx
    }

    /// The same context under another substitution.
    pub fn with_type_subst(&self, type_subst: &TypeSubstMap) -> (ctx: Context)
        ensures
            ctx@ == self@.with_type_subst(type_subst@),
    {
        let mut ctx = self.duplicate();
        ctx.type_subst = type_subst.duplicate();
        ctx
    }

    /// The same context inside the implementation of an ABI.
    pub fn with_abi(&self, name: &Ident) -> (ctx: Context)
        ensures
            ctx@ == self@.with_abi(*name),
    {
        let mut ctx = self.duplicate();
        ctx.abi_mode = AbiMode::ImplAbiFn(name.duplicate());
        ctx
    }

    /// The same context inside an impl block.
    pub fn in_impl_block(&self) -> (ctx: Context)
        ensures
            ctx@ == self@.in_impl_block(),
    {
        let mut ctx = self.duplicate();
        ctx.const_shadowing_mode = ConstShadowingMode::ItemStyle;
        ctx.disallow_functions = false;
        ctx
    }

    /// The same context with monomorphization put off.
    pub fn deferring(&self) -> (ctx: Context)
        ensures
            ctx@ == self@.deferring(),
    {
        let mut ctx = self.duplicate();
        ctx.defer_monomorphization = true;
        ctx
    }
}

/// Which declaration takes the place of which: items of an interface are replaced by the
/// implementations of the same name and type.
#[derive(Debug, PartialEq, Eq)]
pub struct DeclMapping {
    pub interface_items: InterfaceItemMap,
    pub items: ItemMap,
    pub impld_items: ItemMap,
}

/// A declaration mapping as a mathematical value.
pub struct DeclMappingView {
    pub interface_items: Seq<(ItemKey, TyTraitInterfaceItem)>,
    pub items: Seq<(ItemKey, TyTraitItem)>,
    pub impld_items: Seq<(ItemKey, TyTraitItem)>,
}

impl View for DeclMapping {
    type V = DeclMappingView;

    open spec fn view(&self) -> DeclMappingView {
        DeclMappingView {
            interface_items: self.interface_items@,
            items: self.items@,
            impld_items: self.impld_items@,
        }
    }
}

impl DeclMapping {
    /// An equal mapping.
    pub fn duplicate(&self) -> (copy: DeclMapping)
        ensures
            copy@ == self@,
    {
        DeclMapping {
            interface_items: self.interface_items.duplicate(),
            items: self.items.duplicate(),
            impld_items: self.impld_items.duplicate(),
        }
    }
}

/// A piece of work that only the compiler can do.
#[derive(Debug, PartialEq, Eq)]
pub enum Query {
    /// Copy a namespace. Answered by `Namespace`.
    CloneNamespace { namespace: u64 },
    /// Make a type. Answered by `Type`.
    InsertType { info: TypeInfo },
    /// Apply a substitution to a type. Answered by `Type`.
    SubstType { type_id: TypeId, type_subst: TypeSubstMap },
    /// Compare two types. Answered by `Flag`.
    TypesEqual { left: TypeId, right: TypeId },
    /// Write a type out. Answered by `Text`.
    DescribeType { type_id: TypeId },
    /// Resolve a type that is not `Self`. Answered by `Type` or `Failed`.
    ResolveType { ctx: Context, type_id: TypeId, span: Span },
    /// Check that a type may have an impl block. Answered by `Done` or `Failed`.
    CheckSupportedInImplBlocks { type_id: TypeId, span: Span },
    /// The last name of the path that a type was written by. Answered by `Name`.
    CustomTypeName { type_id: TypeId },
    /// The declaration of an enum or a struct. Answered by `MaybeSymbol`.
    TypeDeclaration { type_id: TypeId },
    /// Whether a type is the contract type. Answered by `Flag`.
    IsContract { type_id: TypeId },
    /// The generic type that a type parameter stands for. Answered by `Generic`.
    DescribeGeneric { type_id: TypeId },
    /// The generic types inside a type. Answered by `Generics`.
    NestedGenerics { type_id: TypeId },
    /// Check a type against the constraints of a type parameter, or against none.
    /// Answered by `Done` or `Failed`.
    CheckTypeParameterBounds {
        ctx: Context,
        type_id: TypeId,
        span: Span,
        constraints_of: Option<TypeParameter>,
    },
    /// Check type parameters. Answered by `TypeParameters` or `Failed`.
    TypeCheckTypeParameters { ctx: Context, parameters: TypeParameterList },
    /// Make a type parameter known. Answered by `Done` or `Failed`.
    InsertTypeParameter { ctx: Context, parameter: TypeParameter },
    /// Make the supertraits of a trait known. Answered by `Done` or `Failed`.
    InsertSupertraits { ctx: Context, self_type: TypeId, supertraits: Vec<Supertrait> },
    /// Check that a type implements supertraits, looking for implementations elsewhere if
    /// need be. Answered by `Done` or `Failed`.
    CheckTraitConstraints {
        ctx: Context,
        type_id: TypeId,
        supertraits: Vec<Supertrait>,
        span: Span,
    },
    /// Look a path up. Answered by `Symbol` or `Failed`.
    ResolveCallPath { ctx: Context, path: CallPath },
    /// A trait by its number. Answered by `Trait`.
    GetTrait { id: u64 },
    /// An ABI by its number. Answered by `Abi`.
    GetAbi { id: u64 },
    /// Put type arguments into a trait; their number must fit. Answered by `Monomorphized`
    /// or `Failed`.
    Monomorphize {
        ctx: Context,
        trait_decl: TyTraitDecl,
        type_arguments: Vec<TypeArgument>,
        span: Span,
    },
    /// Make the items of an ABI known. Answered by `Done` or `Failed`.
    InsertAbiSurface { ctx: Context, abi_id: u64, type_id: TypeId },
    /// The items that a type has from a trait. Answered by `Items`.
    ItemsForTypeAndTrait { ctx: Context, type_id: TypeId, trait_name: CallPath },
    /// Make the items that a type has from a trait known. Answered by `Done` or `Failed`.
    InsertTraitImplementation {
        ctx: Context,
        trait_name: CallPath,
        type_arguments: Vec<TypeArgument>,
        type_id: TypeId,
        items: Vec<TyTraitItem>,
        impl_span: Span,
        trait_decl_span: Option<Span>,
        is_extending_existing_impl: bool,
    },
    /// Make a name known. Answered by `Done` or `Failed`.
    InsertSymbol { ctx: Context, name: Ident, decl: TyDecl },
    /// Check an associated type. Answered by `Decl` or `Failed`.
    TypeCheckTraitType { ctx: Context, parsed: TraitTypeDeclaration },
    /// Check a constant. Answered by `Decl` or `Failed`.
    TypeCheckConstant { ctx: Context, parsed: ConstantDeclaration },
    /// Check a signature in a trait. Answered by `Decl` or `Failed`.
    TypeCheckTraitFn { ctx: Context, parsed: TraitFn },
    /// Check a method. Answered by `Decl` or `Failed`.
    TypeCheckFunction { ctx: Context, parsed: FunctionDeclaration },
    /// Check the signature of a method of an `impl Type` block. Answered by `Decl` or
    /// `Failed`.
    TypeCheckFunctionSignature { ctx: Context, parsed: FunctionDeclaration },
    /// Check the body of a method whose signature was checked. Answered by `Decl` or
    /// `Failed`.
    TypeCheckFunctionBody { ctx: Context, parsed: FunctionDeclaration, decl: TyFunctionDecl },
    /// The declaration that takes the place of a method with errors. Answered by `Decl`.
    ErrorFunction { parsed: FunctionDeclaration },
    /// The declaration that takes the place of a constant with errors. Answered by `Decl`.
    ErrorConstant { parsed: ConstantDeclaration },
    /// The declaration that takes the place of an associated type with errors. Answered by
    /// `Decl`.
    ErrorTraitType { parsed: TraitTypeDeclaration },
    /// A declaration by its number. Answered by `Decl`.
    GetDecl { kind: DeclKind, id: u64 },
    /// Apply a substitution to a declaration. Answered by `Decl`.
    SubstDecl { decl: Decl, type_subst: TypeSubstMap },
    /// Put a type in the place of `Self`. Answered by `Decl`.
    ReplaceSelfType { decl: Decl, type_id: TypeId },
    /// Replace the declarations that a declaration uses. Answered by `Decl` or `Failed`.
    ReplaceDecls { ctx: Context, decl: Decl, mapping: DeclMapping },
    /// Keep a declaration. Answered by `DeclRef`.
    InsertDecl { decl: Decl, parent: Option<ParentId> },
    /// Keep a function without a body for a signature. Answered by `DeclRef`.
    InsertDummyFunction { trait_fn: TyTraitFn, parent: ParentId },
    /// Put a declaration in the place of one that is kept. Answered by `Done`.
    ReplaceDecl { id: u64, decl: Decl },
    /// Finish checking a declaration. Answered by `Decl`.
    FinalizeDecl { ctx: Context, decl: Decl },
    /// Finish checking an item. Answered by `Item`.
    FinalizeItem { ctx: Context, item: TyTraitItem },
}

/// A query as a mathematical value.
pub enum QueryView {
    CloneNamespace { namespace: u64 },
    InsertType { info: TypeInfo },
    SubstType { type_id: TypeId, type_subst: Seq<(TypeId, TypeId)> },
    TypesEqual { left: TypeId, right: TypeId },
    DescribeType { type_id: TypeId },
    ResolveType { ctx: ContextView, type_id: TypeId, span: Span },
    CheckSupportedInImplBlocks { type_id: TypeId, span: Span },
    CustomTypeName { type_id: TypeId },
    TypeDeclaration { type_id: TypeId },
    IsContract { type_id: TypeId },
    DescribeGeneric { type_id: TypeId },
    NestedGenerics { type_id: TypeId },
    CheckTypeParameterBounds {
        ctx: ContextView,
        type_id: TypeId,
        span: Span,
        constraints_of: Option<TypeParameter>,
    },
    TypeCheckTypeParameters { ctx: ContextView, parameters: TypeParameterList },
    InsertTypeParameter { ctx: ContextView, parameter: TypeParameter },
    InsertSupertraits { ctx: ContextView, self_type: TypeId, supertraits: Seq<Supertrait> },
    CheckTraitConstraints {
        ctx: ContextView,
        type_id: TypeId,
        supertraits: Seq<Supertrait>,
        span: Span,
    },
    ResolveCallPath { ctx: ContextView, path: CallPath },
    GetTrait { id: u64 },
    GetAbi { id: u64 },
    Monomorphize {
        ctx: ContextView,
        trait_decl: TraitView,
        type_arguments: Seq<TypeArgument>,
        span: Span,
    },
    InsertAbiSurface { ctx: ContextView, abi_id: u64, type_id: TypeId },
    ItemsForTypeAndTrait { ctx: ContextView, type_id: TypeId, trait_name: CallPath },
    InsertTraitImplementation {
        ctx: ContextView,
        trait_name: CallPath,
        type_arguments: Seq<TypeArgument>,
        type_id: TypeId,
        items: Seq<TyTraitItem>,
        impl_span: Span,
        trait_decl_span: Option<Span>,
        is_extending_existing_impl: bool,
    },
    InsertSymbol { ctx: ContextView, name: IdentView, decl: TyDecl },
    TypeCheckTraitType { ctx: ContextView, parsed: TraitTypeDeclaration },
    TypeCheckConstant { ctx: ContextView, parsed: ConstantDeclaration },
    TypeCheckTraitFn { ctx: ContextView, parsed: TraitFn },
    TypeCheckFunction { ctx: ContextView, parsed: FunctionDeclaration },
    TypeCheckFunctionSignature { ctx: ContextView, parsed: FunctionDeclaration },
    TypeCheckFunctionBody {
        ctx: ContextView,
        parsed: FunctionDeclaration,
        decl: FunctionView,
    },
    ErrorFunction { parsed: FunctionDeclaration },
    ErrorConstant { parsed: ConstantDeclaration },
    ErrorTraitType { parsed: TraitTypeDeclaration },
    GetDecl { kind: DeclKind, id: u64 },
    SubstDecl { decl: DeclView, type_subst: Seq<(TypeId, TypeId)> },
    ReplaceSelfType { decl: DeclView, type_id: TypeId },
    ReplaceDecls { ctx: ContextView, decl: DeclView, mapping: DeclMappingView },
    InsertDecl { decl: DeclView, parent: Option<ParentId> },
    InsertDummyFunction { trait_fn: TraitFnView, parent: ParentId },
    ReplaceDecl { id: u64, decl: DeclView },
    FinalizeDecl { ctx: ContextView, decl: DeclView },
    FinalizeItem { ctx: ContextView, item: TyTraitItem },
}

impl View for Query {
    type V = QueryView;

    open spec fn view(&self) -> QueryView {
        match *self {
            Query::CloneNamespace { namespace } => QueryView::CloneNamespace { namespace },
            Query::InsertType { info } => QueryView::InsertType { info },
            Query::SubstType { type_id, type_subst } => QueryView::SubstType {
                type_id,
                type_subst: type_subst@,
            },
            Query::TypesEqual { left, right } => QueryView::TypesEqual { left, right },
            Query::DescribeType { type_id } => QueryView::DescribeType { type_id },
            Query::ResolveType { ctx, type_id, span } => QueryView::ResolveType {
                ctx: ctx@,
                type_id,
                span,
            },
            Query::CheckSupportedInImplBlocks {
                type_id,
                span,
            } => QueryView::CheckSupportedInImplBlocks { type_id, span },
            Query::CustomTypeName { type_id } => QueryView::CustomTypeName { type_id },
            Query::TypeDeclaration { type_id } => QueryView::TypeDeclaration { type_id },
            Query::IsContract { type_id } => QueryView::IsContract { type_id },
            Query::DescribeGeneric { type_id } => QueryView::DescribeGeneric { type_id },
            Query::NestedGenerics { type_id } => QueryView::NestedGenerics { type_id },
            Query::CheckTypeParameterBounds {
                ctx,
                type_id,
                span,
                constraints_of,
            } => QueryView::CheckTypeParameterBounds { ctx: ctx@, type_id, span, constraints_of },
            Query::TypeCheckTypeParameters {
                ctx,
                parameters,
            } => QueryView::TypeCheckTypeParameters { ctx: ctx@, parameters },
            Query::InsertTypeParameter { ctx, parameter } => QueryView::InsertTypeParameter {
                ctx: ctx@,
                parameter,
            },
            Query::InsertSupertraits {
                ctx,
                self_type,
                supertraits,
            } => QueryView::InsertSupertraits {
                ctx: ctx@,
                self_type,
                supertraits: supertraits@,
            },
            Query::CheckTraitConstraints {
                ctx,
                type_id,
                supertraits,
                span,
            } => QueryView::CheckTraitConstraints {
                ctx: ctx@,
                type_id,
                supertraits: supertraits@,
                span,
            },
            Query::ResolveCallPath { ctx, path } => QueryView::ResolveCallPath { ctx: ctx@, path },
            Query::GetTrait { id } => QueryView::GetTrait { id },
            Query::GetAbi { id } => QueryView::GetAbi { id },
            Query::Monomorphize {
                ctx,
                trait_decl,
                type_arguments,
                span,
            } => QueryView::Monomorphize {
                ctx: ctx@,
                trait_decl: trait_decl@,
                type_arguments: type_arguments@,
                span,
            },
            Query::InsertAbiSurface { ctx, abi_id, type_id } => QueryView::InsertAbiSurface {
                ctx: ctx@,
                abi_id,
                type_id,
            },
            Query::ItemsForTypeAndTrait {
                ctx,
                type_id,
                trait_name,
            } => QueryView::ItemsForTypeAndTrait { ctx: ctx@, type_id, trait_name },
            Query::InsertTraitImplementation {
                ctx,
                trait_name,
                type_arguments,
                type_id,
                items,
                impl_span,
                trait_decl_span,
                is_extending_existing_impl,
            } => QueryView::InsertTraitImplementation {
                ctx: ctx@,
                trait_name,
                type_arguments: type_arguments@,
                type_id,
                items: items@,
                impl_span,
                trait_decl_span,
                is_extending_existing_impl,
            },
            Query::InsertSymbol { ctx, name, decl } => QueryView::InsertSymbol {
                ctx: ctx@,
                name: name@,
                decl,
            },
            Query::TypeCheckTraitType { ctx, parsed } => QueryView::TypeCheckTraitType {
                ctx: ctx@,
                parsed,
            },
            Query::TypeCheckConstant { ctx, parsed } => QueryView::TypeCheckConstant {
                ctx: ctx@,
                parsed,
            },
            Query::TypeCheckTraitFn { ctx, parsed } => QueryView::TypeCheckTraitFn {
                ctx: ctx@,
                parsed,
            },
            Query::TypeCheckFunction { ctx, parsed } => QueryView::TypeCheckFunction {
                ctx: ctx@,
                parsed,
            },
            Query::TypeCheckFunctionSignature {
                ctx,
                parsed,
            } => QueryView::TypeCheckFunctionSignature { ctx: ctx@, parsed },
            Query::TypeCheckFunctionBody {
                ctx,
                parsed,
                decl,
            } => QueryView::TypeCheckFunctionBody { ctx: ctx@, parsed, decl: decl@ },
            Query::ErrorFunction { parsed } => QueryView::ErrorFunction { parsed },
            Query::ErrorConstant { parsed } => QueryView::ErrorConstant { parsed },
            Query::ErrorTraitType { parsed } => QueryView::ErrorTraitType { parsed },
            Query::GetDecl { kind, id } => QueryView::GetDecl { kind, id },
            Query::SubstDecl { decl, type_subst } => QueryView::SubstDecl {
                decl: decl@,
                type_subst: type_subst@,
            },
            Query::ReplaceSelfType { decl, type_id } => QueryView::ReplaceSelfType {
                decl: decl@,
                type_id,
            },
            Query::ReplaceDecls { ctx, decl, mapping } => QueryView::ReplaceDecls {
                ctx: ctx@,
                decl: decl@,
                mapping: mapping@,
            },
            Query::InsertDecl { decl, parent } => QueryView::InsertDecl { decl: decl@, parent },
            Query::InsertDummyFunction { trait_fn, parent } => QueryView::InsertDummyFunction {
                trait_fn: trait_fn@,
                parent,
            },
            Query::ReplaceDecl { id, decl } => QueryView::ReplaceDecl { id, decl: decl@ },
            Query::FinalizeDecl { ctx, decl } => QueryView::FinalizeDecl {
                ctx: ctx@,
                decl: decl@,
            },
            Query::FinalizeItem { ctx, item } => QueryView::FinalizeItem { ctx: ctx@, item },
        }
    }
}

/// A generic type: equal generic types have equal keys.
#[derive(Clone, Debug, PartialEq, Eq)]
pub struct Generic {
    pub key: u64,
    pub text: String,
}

/// What came out of a piece of work.
#[derive(Clone, Debug, PartialEq, Eq)]
pub enum Answer {
    Done,
    Failed,
    Flag(bool),
    Namespace(u64),
    Type(TypeId),
    Text(String),
    Name(Option<Ident>),
    Generic(Generic),
    Generics(Vec<u64>),
    TypeParameters(Vec<TypeParameter>),
    Symbol(TyDecl),
    MaybeSymbol(Option<TyDecl>),
    Trait(TyTraitDecl),
    Abi(TyAbiDecl),
    Monomorphized(TyTraitDecl, Vec<TypeArgument>),
    Items(Vec<TyTraitItem>),
    Item(TyTraitItem),
    Decl(Decl),
    DeclRef(DeclRef),
}

/// The answer to a query, with the errors and warnings that came up on the way.
#[derive(Clone, Debug, PartialEq, Eq)]
pub struct Reply {
    pub errors: Vec<u64>,
    pub warnings: Vec<u64>,
    pub answer: Answer,
}

/// Whether a check runs, and why not.
#[derive(Debug, PartialEq, Eq)]
pub enum Stop {
    /// It runs, or has come to its end.
    Running,
    /// It needs the answer to this query.
    Asking(Query),
    /// It was given an answer of the wrong kind.
    Misfit,
    /// It cannot go on from the answers: an associated type stands for no type, or items were
    /// left out and the rest is not of the kinds that were parsed.
    Contradiction,
}

/// Why a check stopped, as a mathematical value.
pub enum StopView {
    Running,
    Asking(QueryView),
    Misfit,
    Contradiction,
}

impl View for Stop {
    type V = StopView;

    open spec fn view(&self) -> StopView {
        match *self {
            Stop::Running => StopView::Running,
            Stop::Asking(query) => StopView::Asking(query@),
            Stop::Misfit => StopView::Misfit,
            Stop::Contradiction => StopView::Contradiction,
        }
    }
}

/// The state of a check: the replies still to be read, the queries that the replies read so
/// far have answered, what it emitted, whether it runs.
pub struct Session {
    replies: VecDeque<Reply>,
    asked: Ghost<Seq<QueryView>>,
    errors: Vec<CompileError>,
    warnings: Vec<CompileWarning>,
    stop: Stop,
}

/// The state of a check as a mathematical value.
#[verifier::ext_equal]
pub struct World {
    pub replies: Seq<Reply>,
    pub asked: Seq<QueryView>,
    pub errors: Seq<ErrorView>,
    pub warnings: Seq<CompileWarning>,
    pub stop: StopView,
}

/// What a list of errors is as a mathematical value.
pub open spec fn error_views(errors: Seq<CompileError>) -> Seq<ErrorView> {
    errors.map_values(|e: CompileError| e@)
}

impl View for Session {
    type V = World;

    closed spec fn view(&self) -> World {
        World {
            replies: self.replies@,
            asked: self.asked@,
            errors: error_views(self.errors@),
            warnings: self.warnings@,
            stop: self.stop@,
        }
    }
}

/// What became of a part of a check: the state after it, and its result unless it stopped.
pub struct Run<T> {
    pub world: World,
    pub value: Option<T>,
}

/// A part of a check that came to its end.
pub open spec fn done<T>(world: World, value: T) -> Run<T> {
    Run { world, value: Some(value) }
}

/// A state and a result together.
pub open spec fn run<T>(world: World, value: Option<T>) -> Run<T> {
    Run { world, value }
}

/// One part of a check after another. What stopped stays as it is.
pub open spec fn chain<A, B>(first: Run<A>, next: spec_fn(World, A) -> Run<B>) -> Run<B> {
    match first.value {
        Some(value) => next(first.world, value),
        None => Run { world: first.world, value: None },
    }
}

/// One part of a check after another, the second only if the first succeeded.
pub open spec fn chain_ok<A, B>(
    first: Run<Result<A, ErrorEmitted>>,
    next: spec_fn(World, A) -> Run<Result<B, ErrorEmitted>>,
) -> Run<Result<B, ErrorEmitted>> {
    match first.value {
        Some(Ok(value)) => next(first.world, value),
        Some(Err(error)) => done(first.world, Err(error)),
        None => Run { world: first.world, value: None },
    }
}

/// A list that may be missing, as a mathematical value.
pub open spec fn list<T>(value: Option<Vec<T>>) -> Option<Seq<T>> {
    match value {
        Some(items) => Some(items@),
        None => None,
    }
}

/// A list that may be missing or refused, as a mathematical value.
pub open spec fn list_result<T>(value: Option<Result<Vec<T>, ErrorEmitted>>) -> Option<
    Result<Seq<T>, ErrorEmitted>,
> {
    match value {
        Some(Ok(items)) => Some(Ok(items@)),
        Some(Err(error)) => Some(Err(error)),
        None => None,
    }
}

impl World {
    /// The state at the start of a check on the given replies.
    pub open spec fn start(replies: Seq<Reply>) -> World {
        World {
            replies,
            asked: Seq::empty(),
            errors: Seq::empty(),
            warnings: Seq::empty(),
            stop: StopView::Running,
        }
    }

    /// The state after an error was emitted.
    pub open spec fn emit(self, error: ErrorView) -> World {
        World { errors: self.errors.push(error), ..self }
    }

    /// The state after an error without a list in it was emitted.
    pub open spec fn emit_plain(self, error: CompileError) -> World {
        self.emit(ErrorView::Plain(error))
    }

    /// The state after several errors were emitted.
    pub open spec fn emit_all(self, errors: Seq<ErrorView>) -> World {
        World { errors: self.errors + errors, ..self }
    }

    /// The state after a warning was emitted.
    pub open spec fn warn(self, warning: CompileWarning) -> World {
        World { warnings: self.warnings.push(warning), ..self }
    }

    /// The state after stopping.
    pub open spec fn stopped(self, stop: StopView) -> World {
        World { stop, ..self }
    }
}

/// The errors behind a reply.
pub open spec fn reported_errors(errors: Seq<u64>) -> Seq<ErrorView> {
    Seq::new(errors.len(), |i: int| ErrorView::Plain(CompileError::Reported(errors[i])))
}

/// The warnings behind a reply.
pub open spec fn reported_warnings(warnings: Seq<u64>) -> Seq<CompileWarning> {
    Seq::new(warnings.len(), |i: int| CompileWarning::Reported(warnings[i]))
}

/// Reads the next reply as the answer to a query. Without one the check stops and leaves the
/// query behind.
pub open spec fn ask(world: World, query: QueryView) -> Run<Answer> {
    if world.replies.len() == 0 {
        run(world.stopped(StopView::Asking(query)), None)
    } else {
        let reply = world.replies[0];
        done(
            World {
                replies: world.replies.drop_first(),
                asked: world.asked.push(query),
                errors: world.errors + reported_errors(reply.errors@),
                warnings: world.warnings + reported_warnings(reply.warnings@),
                stop: world.stop,
            },
            reply.answer,
        )
    }
}

/// Reads the next reply and drops the errors and warnings that came with it.
pub open spec fn ask_quietly(world: World, query: QueryView) -> Run<Answer> {
    if world.replies.len() == 0 {
        run(world.stopped(StopView::Asking(query)), None)
    } else {
        done(
            World {
                replies: world.replies.drop_first(),
                asked: world.asked.push(query),
                ..world
            },
            world.replies[0].answer,
        )
    }
}

/// An answer of the wrong kind stops the check.
pub open spec fn misfit<T>(world: World) -> Run<T> {
    run(world.stopped(StopView::Misfit), None)
}

/// Answers that a check cannot go on from stop it.
pub open spec fn contradiction<T>(world: World) -> Run<T> {
    run(world.stopped(StopView::Contradiction), None)
}

/// The result of a part of a check whose errors count as its own: an error inside makes
/// it an error.
pub open spec fn scoped<T>(before: World, inner: Run<Result<T, ErrorEmitted>>) -> Run<
    Result<T, ErrorEmitted>,
> {
    chain(
        inner,
        |world: World, value: Result<T, ErrorEmitted>|
            done(
                world,
                if world.errors.len() > before.errors.len() {
                    Err(ErrorEmitted)
                } else {
                    value
                },
            ),
    )
}

/// An answer read as nothing but that the work is done.
pub open spec fn to_done(asked: Run<Answer>) -> Run<()> {
    match asked.value {
        Some(Answer::Done) => done(asked.world, ()),
        Some(_) => misfit(asked.world),
        None => run(asked.world, None),
    }
}

/// An answer read as whether the work succeeded.
pub open spec fn to_outcome(asked: Run<Answer>) -> Run<Result<(), ErrorEmitted>> {
    match asked.value {
        Some(Answer::Done) => done(asked.world, Ok(())),
        Some(Answer::Failed) => done(asked.world, Err(ErrorEmitted)),
        Some(_) => misfit(asked.world),
        None => run(asked.world, None),
    }
}

/// An answer read as a yes or no.
pub open spec fn to_flag(asked: Run<Answer>) -> Run<bool> {
    match asked.value {
        Some(Answer::Flag(flag)) => done(asked.world, flag),
        Some(_) => misfit(asked.world),
        None => run(asked.world, None),
    }
}

/// An answer read as the number of a namespace.
pub open spec fn to_namespace(asked: Run<Answer>) -> Run<u64> {
    match asked.value {
        Some(Answer::Namespace(namespace)) => done(asked.world, namespace),
        Some(_) => misfit(asked.world),
        None => run(asked.world, None),
    }
}

/// An answer read as a type.
pub open spec fn to_type(asked: Run<Answer>) -> Run<TypeId> {
    match asked.value {
        Some(Answer::Type(type_id)) => done(asked.world, type_id),
        Some(_) => misfit(asked.world),
        None => run(asked.world, None),
    }
}

/// An answer read as a type, or that there is none.
pub open spec fn to_resolved_type(asked: Run<Answer>) -> Run<Result<TypeId, ErrorEmitted>> {
    match asked.value {
        Some(Answer::Type(type_id)) => done(asked.world, Ok(type_id)),
        Some(Answer::Failed) => done(asked.world, Err(ErrorEmitted)),
        Some(_) => misfit(asked.world),
        None => run(asked.world, None),
    }
}

/// An answer read as a text.
pub open spec fn to_text(asked: Run<Answer>) -> Run<String> {
    match asked.value {
        Some(Answer::Text(text)) => done(asked.world, text),
        Some(_) => misfit(asked.world),
        None => run(asked.world, None),
    }
}

/// An answer read as a name, if there is one.
pub open spec fn to_name(asked: Run<Answer>) -> Run<Option<Ident>> {
    match asked.value {
        Some(Answer::Name(name)) => done(asked.world, name),
        Some(_) => misfit(asked.world),
        None => run(asked.world, None),
    }
}

/// An answer read as a generic type.
pub open spec fn to_generic(asked: Run<Answer>) -> Run<Generic> {
    match asked.value {
        Some(Answer::Generic(generic)) => done(asked.world, generic),
        Some(_) => misfit(asked.world),
        None => run(asked.world, None),
    }
}

/// An answer read as the keys of generic types.
pub open spec fn to_generics(asked: Run<Answer>) -> Run<Vec<u64>> {
    match asked.value {
        Some(Answer::Generics(keys)) => done(asked.world, keys),
        Some(_) => misfit(asked.world),
        None => run(asked.world, None),
    }
}

/// An answer read as type parameters, or that they have errors.
pub open spec fn to_type_parameters(asked: Run<Answer>) -> Run<
    Result<Vec<TypeParameter>, ErrorEmitted>,
> {
    match asked.value {
        Some(Answer::TypeParameters(parameters)) => done(asked.world, Ok(parameters)),
        Some(Answer::Failed) => done(asked.world, Err(ErrorEmitted)),
        Some(_) => misfit(asked.world),
        None => run(asked.world, None),
    }
}

/// An answer read as what a path stands for, or that it stands for nothing.
pub open spec fn to_symbol(asked: Run<Answer>) -> Run<Result<TyDecl, ErrorEmitted>> {
    match asked.value {
        Some(Answer::Symbol(decl)) => done(asked.world, Ok(decl)),
        Some(Answer::Failed) => done(asked.world, Err(ErrorEmitted)),
        Some(_) => misfit(asked.world),
        None => run(asked.world, None),
    }
}

/// An answer read as a declaration, if there is one.
pub open spec fn to_maybe_symbol(asked: Run<Answer>) -> Run<Option<TyDecl>> {
    match asked.value {
        Some(Answer::MaybeSymbol(decl)) => done(asked.world, decl),
        Some(_) => misfit(asked.world),
        None => run(asked.world, None),
    }
}

/// An answer read as a trait.
pub open spec fn to_trait(asked: Run<Answer>) -> Run<TyTraitDecl> {
    match asked.value {
        Some(Answer::Trait(decl)) => done(asked.world, decl),
        Some(_) => misfit(asked.world),
        None => run(asked.world, None),
    }
}

/// An answer read as an ABI.
pub open spec fn to_abi(asked: Run<Answer>) -> Run<TyAbiDecl> {
    match asked.value {
        Some(Answer::Abi(decl)) => done(asked.world, decl),
        Some(_) => misfit(asked.world),
        None => run(asked.world, None),
    }
}

/// An answer read as a trait with type arguments, or that they do not fit.
pub open spec fn to_monomorphized(asked: Run<Answer>) -> Run<
    Result<(TyTraitDecl, Vec<TypeArgument>), ErrorEmitted>,
> {
    match asked.value {
        Some(Answer::Monomorphized(decl, arguments)) => done(asked.world, Ok((decl, arguments))),
        Some(Answer::Failed) => done(asked.world, Err(ErrorEmitted)),
        Some(_) => misfit(asked.world),
        None => run(asked.world, None),
    }
}

/// An answer read as items.
pub open spec fn to_items(asked: Run<Answer>) -> Run<Vec<TyTraitItem>> {
    match asked.value {
        Some(Answer::Items(items)) => done(asked.world, items),
        Some(_) => misfit(asked.world),
        None => run(asked.world, None),
    }
}

/// An answer read as an item.
pub open spec fn to_item(asked: Run<Answer>) -> Run<TyTraitItem> {
    match asked.value {
        Some(Answer::Item(item)) => done(asked.world, item),
        Some(_) => misfit(asked.world),
        None => run(asked.world, None),
    }
}

/// An answer read as where a declaration is kept.
pub open spec fn to_decl_ref(asked: Run<Answer>) -> Run<DeclRef> {
    match asked.value {
        Some(Answer::DeclRef(decl_ref)) => done(asked.world, decl_ref),
        Some(_) => misfit(asked.world),
        None => run(asked.world, None),
    }
}

/// An answer read as a function.
pub open spec fn to_function(asked: Run<Answer>) -> Run<TyFunctionDecl> {
    match asked.value {
        Some(Answer::Decl(Decl::Function(decl))) => done(asked.world, decl),
        Some(_) => misfit(asked.world),
        None => run(asked.world, None),
    }
}

/// An answer read as a function, or that it has errors.
pub open spec fn to_checked_function(asked: Run<Answer>) -> Run<
    Result<TyFunctionDecl, ErrorEmitted>,
> {
    match asked.value {
        Some(Answer::Decl(Decl::Function(decl))) => done(asked.world, Ok(decl)),
        Some(Answer::Failed) => done(asked.world, Err(ErrorEmitted)),
        Some(_) => misfit(asked.world),
        None => run(asked.world, None),
    }
}

/// An answer read as a constant.
pub open spec fn to_constant(asked: Run<Answer>) -> Run<TyConstantDecl> {
    match asked.value {
        Some(Answer::Decl(Decl::Constant(decl))) => done(asked.world, decl),
        Some(_) => misfit(asked.world),
        None => run(asked.world, None),
    }
}

/// An answer read as a constant, or that it has errors.
pub open spec fn to_checked_constant(asked: Run<Answer>) -> Run<
    Result<TyConstantDecl, ErrorEmitted>,
> {
    match asked.value {
        Some(Answer::Decl(Decl::Constant(decl))) => done(asked.world, Ok(decl)),
        Some(Answer::Failed) => done(asked.world, Err(ErrorEmitted)),
        Some(_) => misfit(asked.world),
        None => run(asked.world, None),
    }
}

/// An answer read as an associated type.
pub open spec fn to_trait_type(asked: Run<Answer>) -> Run<TyTraitType> {
    match asked.value {
        Some(Answer::Decl(Decl::TraitType(decl))) => done(asked.world, decl),
        Some(_) => misfit(asked.world),
        None => run(asked.world, None),
    }
}

/// An answer read as an associated type, or that it has errors.
pub open spec fn to_checked_trait_type(asked: Run<Answer>) -> Run<
    Result<TyTraitType, ErrorEmitted>,
> {
    match asked.value {
        Some(Answer::Decl(Decl::TraitType(decl))) => done(asked.world, Ok(decl)),
        Some(Answer::Failed) => done(asked.world, Err(ErrorEmitted)),
        Some(_) => misfit(asked.world),
        None => run(asked.world, None),
    }
}

/// An answer read as a signature.
pub open spec fn to_trait_fn(asked: Run<Answer>) -> Run<TyTraitFn> {
    match asked.value {
        Some(Answer::Decl(Decl::TraitFn(decl))) => done(asked.world, decl),
        Some(_) => misfit(asked.world),
        None => run(asked.world, None),
    }
}

/// An answer read as a signature, or that it has errors.
pub open spec fn to_checked_trait_fn(asked: Run<Answer>) -> Run<Result<TyTraitFn, ErrorEmitted>> {
    match asked.value {
        Some(Answer::Decl(Decl::TraitFn(decl))) => done(asked.world, Ok(decl)),
        Some(Answer::Failed) => done(asked.world, Err(ErrorEmitted)),
        Some(_) => misfit(asked.world),
        None => run(asked.world, None),
    }
}

impl Session {
    /// A check on the given replies, before it has read any of them.
    pub fn new(replies: VecDeque<Reply>) -> (session: Session)
        ensures
            session@ == World::start(replies@),
    {
        let session = Session {
            replies,
            asked: Ghost(Seq::empty()),
            errors: Vec::new(),
            warnings: Vec::new(),
            stop: Stop::Running,
        };
        assert(session@.errors =~= Seq::empty());
        session
    }

    /// The errors emitted so far.
    pub fn errors(&self) -> (errors: &Vec<CompileError>)
        ensures
            error_views(errors@) == self@.errors,
    {
        &self.errors
    }

    /// The warnings emitted so far.
    pub fn warnings(&self) -> (warnings: &Vec<CompileWarning>)
        ensures
            warnings@ == self@.warnings,
    {
        &self.warnings
    }

    /// Whether the check runs, and why not.
    pub fn stop(&self) -> (stop: &Stop)
        ensures
            stop@ == self@.stop,
    {
        &self.stop
    }

    /// How many replies are still to be read.
    pub fn unread(&self) -> (n: usize)
        ensures
            n == self@.replies.len(),
    {
        self.replies.len()
    }

    /// Emits an error.
    pub fn emit_err(&mut self, error: CompileError) -> (token: ErrorEmitted)
        ensures
            final(self)@ == old(self)@.emit(error@),
    {
        self.errors.push(error);
        assert(self@.errors =~= old(self)@.errors.push(error@));
        ErrorEmitted
    }

    /// Emits a warning.
    pub fn emit_warn(&mut self, warning: CompileWarning)
        ensures
            final(self)@ == old(self)@.warn(warning),
    {
        self.warnings.push(warning);
    }

    /// How many errors were emitted so far.
    pub fn error_count(&self) -> (n: usize)
        ensures
            n == self@.errors.len(),
    {
        self.errors.len()
    }

    /// Stops where the check cannot go on from the answers.
    pub fn stop_contradiction<T>(&mut self) -> (value: Option<T>)
        ensures
            run(final(self)@, value) == contradiction::<T>(old(self)@),
    {
        self.stop = Stop::Contradiction;
        None
    }

    /// The end of a part of a check whose errors count as its own.
    pub fn close_scope<T>(&self, errors_before: usize, value: Result<T, ErrorEmitted>) -> (result:
        Result<T, ErrorEmitted>)
        ensures
            result == if self@.errors.len() > errors_before {
                Err(ErrorEmitted)
            } else {
                value
            },
    {
        if self.errors.len() > errors_before {
            Err(ErrorEmitted)
        } else {
            value
        }
    }

    fn report_errors(&mut self, errors: &Vec<u64>)
        ensures
            final(self)@ == (World {
                errors: old(self)@.errors + reported_errors(errors@),
                ..old(self)@
            }),
    {
        let mut i: usize = 0;
        assert(self@.errors =~= old(self)@.errors + reported_errors(errors@.take(0)));
        while i < errors.len()
            invariant
                i <= errors@.len(),
                self@ == (World {
                    errors: old(self)@.errors + reported_errors(errors@.take(i as int)),
                    ..old(self)@
                }),
            decreases errors@.len() - i,
        {
            self.emit_err(CompileError::Reported(errors[i]));
            i = i + 1;
            assert(self@.errors =~= old(self)@.errors + reported_errors(errors@.take(i as int)));
        }
        assert(errors@.take(errors@.len() as int) =~= errors@);
    }

    fn report_warnings(&mut self, warnings: &Vec<u64>)
        ensures
            final(self)@ == (World {
                warnings: old(self)@.warnings + reported_warnings(warnings@),
                ..old(self)@
            }),
    {
        let mut i: usize = 0;
        assert(self@.warnings =~= old(self)@.warnings + reported_warnings(warnings@.take(0)));
        while i < warnings.len()
            invariant
                i <= warnings@.len(),
                self@ == (World {
                    warnings: old(self)@.warnings + reported_warnings(warnings@.take(i as int)),
                    ..old(self)@
                }),
            decreases warnings@.len() - i,
        {
            self.emit_warn(CompileWarning::Reported(warnings[i]));
            i = i + 1;
            assert(self@.warnings =~= old(self)@.warnings + reported_warnings(
                warnings@.take(i as int),
            ));
        }
        assert(warnings@.take(warnings@.len() as int) =~= warnings@);
    }

    /// Reads the next reply, or stops with the query.
    pub fn ask(&mut self, query: Query) -> (answer: Option<Answer>)
        ensures
            run(final(self)@, answer) == ask(old(self)@, query@),
    {
        match self.replies.pop_front() {
            None => {
                self.stop = Stop::Asking(query);
                None
            },
            Some(reply) => {
                self.asked = Ghost(self.asked@.push(query@));
                assert(self@.replies =~= old(self)@.replies.drop_first());
                self.report_errors(&reply.errors);
                self.report_warnings(&reply.warnings);
                Some(reply.answer)
            },
        }
    }

    /// Reads the next reply without its errors and warnings, or stops with the query.
    pub fn ask_quietly(&mut self, query: Query) -> (answer: Option<Answer>)
        ensures
            run(final(self)@, answer) == ask_quietly(old(self)@, query@),
    {
        match self.replies.pop_front() {
            None => {
                self.stop = Stop::Asking(query);
                None
            },
            Some(reply) => {
                self.asked = Ghost(self.asked@.push(query@));
                assert(self@.replies =~= old(self)@.replies.drop_first());
                Some(reply.answer)
            },
        }
    }

    /// Asks for nothing but that the work is done.
    pub fn ask_done(&mut self, query: Query) -> (value: Option<()>)
        ensures
            run(final(self)@, value) == to_done(ask(old(self)@, query@)),
    {
        match self.ask(query)? {
            Answer::Done => Some(()),
            _ => {
                self.stop = Stop::Misfit;
                None
            },
        }
    }

    /// Asks for whether the work succeeded.
    pub fn ask_outcome(&mut self, query: Query) -> (value: Option<Result<(), ErrorEmitted>>)
        ensures
            run(final(self)@, value) == to_outcome(ask(old(self)@, query@)),
    {
        match self.ask(query)? {
            Answer::Done => Some(Ok(())),
            Answer::Failed => Some(Err(ErrorEmitted)),
            _ => {
                self.stop = Stop::Misfit;
                None
            },
        }
    }

    /// Asks for whether the work succeeded. The errors and warnings that come with it are dropped.
    pub fn ask_outcome_quietly(&mut self, query: Query) -> (value: Option<Result<(), ErrorEmitted>>)
        ensures
            run(final(self)@, value) == to_outcome(ask_quietly(old(self)@, query@)),
    {
        match self.ask_quietly(query)? {
            Answer::Done => Some(Ok(())),
            Answer::Failed => Some(Err(ErrorEmitted)),
            _ => {
                self.stop = Stop::Misfit;
                None
            },
        }
    }

    /// Asks for a yes or no.
    pub fn ask_flag(&mut self, query: Query) -> (value: Option<bool>)
        ensures
            run(final(self)@, value) == to_flag(ask(old(self)@, query@)),
    {
        match self.ask(query)? {
            Answer::Flag(flag) => Some(flag),
            _ => {
                self.stop = Stop::Misfit;
                None
            },
        }
    }

    /// Asks for the number of a namespace.
    pub fn ask_namespace(&mut self, query: Query) -> (value: Option<u64>)
        ensures
            run(final(self)@, value) == to_namespace(ask(old(self)@, query@)),
    {
        match self.ask(query)? {
            Answer::Namespace(namespace) => Some(namespace),
            _ => {
                self.stop = Stop::Misfit;
                None
            },
        }
    }

    /// Asks for a type.
    pub fn ask_type(&mut self, query: Query) -> (value: Option<TypeId>)
        ensures
            run(final(self)@, value) == to_type(ask(old(self)@, query@)),
    {
        match self.ask(query)? {
            Answer::Type(type_id) => Some(type_id),
            _ => {
                self.stop = Stop::Misfit;
                None
            },
        }
    }

    /// Asks for a type, or that there is none.
    pub fn ask_resolved_type(&mut self, query: Query) -> (value:
        Option<Result<TypeId, ErrorEmitted>>)
        ensures
            run(final(self)@, value) == to_resolved_type(ask(old(self)@, query@)),
    {
        match self.ask(query)? {
            Answer::Type(type_id) => Some(Ok(type_id)),
            Answer::Failed => Some(Err(ErrorEmitted)),
            _ => {
                self.stop = Stop::Misfit;
                None
            },
        }
    }

    /// Asks for a text.
    pub fn ask_text(&mut self, query: Query) -> (value: Option<String>)
        ensures
            run(final(self)@, value) == to_text(ask(old(self)@, query@)),
    {
        match self.ask(query)? {
            Answer::Text(text) => Some(text),
            _ => {
                self.stop = Stop::Misfit;
                None
            },
        }
    }

    /// Asks for a name, if there is one.
    pub fn ask_name(&mut self, query: Query) -> (value: Option<Option<Ident>>)
        ensures
            run(final(self)@, value) == to_name(ask(old(self)@, query@)),
    {
        match self.ask(query)? {
            Answer::Name(name) => Some(name),
            _ => {
                self.stop = Stop::Misfit;
                None
            },
        }
    }

    /// Asks for a generic type.
    pub fn ask_generic(&mut self, query: Query) -> (value: Option<Generic>)
        ensures
            run(final(self)@, value) == to_generic(ask(old(self)@, query@)),
    {
        match self.ask(query)? {
            Answer::Generic(generic) => Some(generic),
            _ => {
                self.stop = Stop::Misfit;
                None
            },
        }
    }

    /// Asks for the keys of generic types.
    pub fn ask_generics(&mut self, query: Query) -> (value: Option<Vec<u64>>)
        ensures
            run(final(self)@, value) == to_generics(ask(old(self)@, query@)),
    {
        match self.ask(query)? {
            Answer::Generics(keys) => Some(keys),
            _ => {
                self.stop = Stop::Misfit;
                None
            },
        }
    }

    /// Asks for type parameters, or that they have errors.
    pub fn ask_type_parameters(&mut self, query: Query) -> (value:
        Option<Result<Vec<TypeParameter>, ErrorEmitted>>)
        ensures
            run(final(self)@, value) == to_type_parameters(ask(old(self)@, query@)),
    {
        match self.ask(query)? {
            Answer::TypeParameters(parameters) => Some(Ok(parameters)),
            Answer::Failed => Some(Err(ErrorEmitted)),
            _ => {
                self.stop = Stop::Misfit;
                None
            },
        }
    }

    /// Asks for what a path stands for, or that it stands for nothing.
    pub fn ask_symbol(&mut self, query: Query) -> (value: Option<Result<TyDecl, ErrorEmitted>>)
        ensures
            run(final(self)@, value) == to_symbol(ask(old(self)@, query@)),
    {
        match self.ask(query)? {
            Answer::Symbol(decl) => Some(Ok(decl)),
            Answer::Failed => Some(Err(ErrorEmitted)),
            _ => {
                self.stop = Stop::Misfit;
                None
            },
        }
    }

    /// Asks for a declaration, if there is one.
    pub fn ask_maybe_symbol(&mut self, query: Query) -> (value: Option<Option<TyDecl>>)
        ensures
            run(final(self)@, value) == to_maybe_symbol(ask(old(self)@, query@)),
    {
        match self.ask(query)? {
            Answer::MaybeSymbol(decl) => Some(decl),
            _ => {
                self.stop = Stop::Misfit;
                None
            },
        }
    }

    /// Asks for a trait.
    pub fn ask_trait(&mut self, query: Query) -> (value: Option<TyTraitDecl>)
        ensures
            run(final(self)@, value) == to_trait(ask(old(self)@, query@)),
    {
        match self.ask(query)? {
            Answer::Trait(decl) => Some(decl),
            _ => {
                self.stop = Stop::Misfit;
                None
            },
        }
    }

    /// Asks for an ABI.
    pub fn ask_abi(&mut self, query: Query) -> (value: Option<TyAbiDecl>)
        ensures
            run(final(self)@, value) == to_abi(ask(old(self)@, query@)),
    {
        match self.ask(query)? {
            Answer::Abi(decl) => Some(decl),
            _ => {
                self.stop = Stop::Misfit;
                None
            },
        }
    }

    /// Asks for a trait with type arguments, or that they do not fit.
    pub fn ask_monomorphized(&mut self, query: Query) -> (value:
        Option<Result<(TyTraitDecl, Vec<TypeArgument>), ErrorEmitted>>)
        ensures
            run(final(self)@, value) == to_monomorphized(ask(old(self)@, query@)),
    {
        match self.ask(query)? {
            Answer::Monomorphized(decl, arguments) => Some(Ok((decl, arguments))),
            Answer::Failed => Some(Err(ErrorEmitted)),
            _ => {
                self.stop = Stop::Misfit;
                None
            },
        }
    }

    /// Asks for items.
    pub fn ask_items(&mut self, query: Query) -> (value: Option<Vec<TyTraitItem>>)
        ensures
            run(final(self)@, value) == to_items(ask(old(self)@, query@)),
    {
        match self.ask(query)? {
            Answer::Items(items) => Some(items),
            _ => {
                self.stop = Stop::Misfit;
                None
            },
        }
    }

    /// Asks for an item.
    pub fn ask_item(&mut self, query: Query) -> (value: Option<TyTraitItem>)
        ensures
            run(final(self)@, value) == to_item(ask(old(self)@, query@)),
    {
        match self.ask(query)? {
            Answer::Item(item) => Some(item),
            _ => {
                self.stop = Stop::Misfit;
                None
            },
        }
    }

    /// Asks for where a declaration is kept.
    pub fn ask_decl_ref(&mut self, query: Query) -> (value: Option<DeclRef>)
        ensures
            run(final(self)@, value) == to_decl_ref(ask(old(self)@, query@)),
    {
        match self.ask(query)? {
            Answer::DeclRef(decl_ref) => Some(decl_ref),
            _ => {
                self.stop = Stop::Misfit;
                None
            },
        }
    }

    /// Asks for a function.
    pub fn ask_function(&mut self, query: Query) -> (value: Option<TyFunctionDecl>)
        ensures
            run(final(self)@, value) == to_function(ask(old(self)@, query@)),
    {
        match self.ask(query)? {
            Answer::Decl(Decl::Function(decl)) => Some(decl),
            _ => {
                self.stop = Stop::Misfit;
                None
            },
        }
    }

    /// Asks for a function, or that it has errors.
    pub fn ask_checked_function(&mut self, query: Query) -> (value:
        Option<Result<TyFunctionDecl, ErrorEmitted>>)
        ensures
            run(final(self)@, value) == to_checked_function(ask(old(self)@, query@)),
    {
        match self.ask(query)? {
            Answer::Decl(Decl::Function(decl)) => Some(Ok(decl)),
            Answer::Failed => Some(Err(ErrorEmitted)),
            _ => {
                self.stop = Stop::Misfit;
                None
            },
        }
    }

    /// Asks for a constant.
    pub fn ask_constant(&mut self, query: Query) -> (value: Option<TyConstantDecl>)
        ensures
            run(final(self)@, value) == to_constant(ask(old(self)@, query@)),
    {
        match self.ask(query)? {
            Answer::Decl(Decl::Constant(decl)) => Some(decl),
            _ => {
                self.stop = Stop::Misfit;
                None
            },
        }
    }

    /// Asks for a constant, or that it has errors.
    pub fn ask_checked_constant(&mut self, query: Query) -> (value:
        Option<Result<TyConstantDecl, ErrorEmitted>>)
        ensures
            run(final(self)@, value) == to_checked_constant(ask(old(self)@, query@)),
    {
        match self.ask(query)? {
            Answer::Decl(Decl::Constant(decl)) => Some(Ok(decl)),
            Answer::Failed => Some(Err(ErrorEmitted)),
            _ => {
                self.stop = Stop::Misfit;
                None
            },
        }
    }

    /// Asks for an associated type.
    pub fn ask_trait_type(&mut self, query: Query) -> (value: Option<TyTraitType>)
        ensures
            run(final(self)@, value) == to_trait_type(ask(old(self)@, query@)),
    {
        match self.ask(query)? {
            Answer::Decl(Decl::TraitType(decl)) => Some(decl),
            _ => {
                self.stop = Stop::Misfit;
                None
            },
        }
    }

    /// Asks for an associated type, or that it has errors.
    pub fn ask_checked_trait_type(&mut self, query: Query) -> (value:
        Option<Result<TyTraitType, ErrorEmitted>>)
        ensures
            run(final(self)@, value) == to_checked_trait_type(ask(old(self)@, query@)),
    {
        match self.ask(query)? {
            Answer::Decl(Decl::TraitType(decl)) => Some(Ok(decl)),
            Answer::Failed => Some(Err(ErrorEmitted)),
            _ => {
                self.stop = Stop::Misfit;
                None
            },
        }
    }

    /// Asks for a signature.
    pub fn ask_trait_fn(&mut self, query: Query) -> (value: Option<TyTraitFn>)
        ensures
            run(final(self)@, value) == to_trait_fn(ask(old(self)@, query@)),
    {
        match self.ask(query)? {
            Answer::Decl(Decl::TraitFn(decl)) => Some(decl),
            _ => {
                self.stop = Stop::Misfit;
                None
            },
        }
    }

    /// Asks for a signature, or that it has errors.
    pub fn ask_checked_trait_fn(&mut self, query: Query) -> (value:
        Option<Result<TyTraitFn, ErrorEmitted>>)
        ensures
            run(final(self)@, value) == to_checked_trait_fn(ask(old(self)@, query@)),
    {
        match self.ask(query)? {
            Answer::Decl(Decl::TraitFn(decl)) => Some(Ok(decl)),
            Answer::Failed => Some(Err(ErrorEmitted)),
            _ => {
                self.stop = Stop::Misfit;
                None
            },
        }
    }
}

} // verus!
