//! Declarations, before and after type checking, as far as the checks look into them.
//!
//! What the checks never read of a declaration stays with the compiler, which finds it
//! again by the `key` that the declaration carries here.
use crate::duplicate::{duplicate_all, Duplicate};
use crate::ident::{Ident, IdentView, Span};
use crate::ordered::SortedMap;
use crate::types::{ItemKey, TypeArgument, TypeParameter};
use vstd::prelude::*;

verus! {

/// The path a trait is named by. `prefixes` is the key of the part before the last name,
/// if there is one.
#[derive(Clone, Debug, PartialEq, Eq)]
pub struct CallPath {
    pub prefixes: Option<u64>,
    pub suffix: Ident,
    pub is_absolute: bool,
    pub span: Span,
}

impl Duplicate for CallPath {
    fn duplicate(&self) -> (copy: CallPath) {
        CallPath {
            prefixes: self.prefixes,
            suffix: self.suffix.duplicate(),
            is_absolute: self.is_absolute,
            span: self.span,
        }
    }
}

/// The path that is the name `suffix` alone.
pub open spec fn plain_path(suffix: Ident) -> CallPath {
    CallPath { prefixes: None, suffix, is_absolute: false, span: suffix.span }
}

impl CallPath {
    /// The path that is a name alone.
    pub fn plain(suffix: Ident) -> (path: CallPath)
        ensures
            path == plain_path(suffix),
    {
        let span = suffix.span;
        CallPath { prefixes: None, suffix, is_absolute: false, span }
    }
}

/// A supertrait named in the head of a trait or an ABI.
#[derive(Clone, Debug, PartialEq, Eq)]
pub struct Supertrait {
    pub name: CallPath,
    pub span: Span,
    pub key: u64,
}

impl Duplicate for Supertrait {
    fn duplicate(&self) -> (copy: Supertrait) {
        Supertrait { name: self.name.duplicate(), span: self.span, key: self.key }
    }
}

/// Parsed type parameters.
#[derive(Clone, Copy, Debug, PartialEq, Eq, Structural)]
pub struct TypeParameterList {
    pub key: u64,
}

/// A parsed function with a body.
#[derive(Clone, Copy, Debug, PartialEq, Eq, Structural)]
pub struct FunctionDeclaration {
    pub key: u64,
}

/// A parsed constant.
#[derive(Clone, Copy, Debug, PartialEq, Eq, Structural)]
pub struct ConstantDeclaration {
    pub key: u64,
}

/// A parsed associated type.
#[derive(Clone, Copy, Debug, PartialEq, Eq, Structural)]
pub struct TraitTypeDeclaration {
    pub key: u64,
}

/// A parsed function signature in a trait.
#[derive(Clone, Copy, Debug, PartialEq, Eq, Structural)]
pub struct TraitFn {
    pub key: u64,
}

/// A parsed item of a trait's interface surface.
#[derive(Clone, Copy, Debug, PartialEq, Eq, Structural)]
pub enum TraitItem {
    TraitFn(TraitFn),
    Constant(ConstantDeclaration),
    Type(TraitTypeDeclaration),
    Error,
}

/// A parsed item of an impl block.
#[derive(Clone, Copy, Debug, PartialEq, Eq, Structural)]
pub enum ImplItem {
    Fn(FunctionDeclaration),
    Constant(ConstantDeclaration),
    Type(TraitTypeDeclaration),
}

/// A parsed trait.
#[derive(Clone, Debug, PartialEq, Eq)]
pub struct TraitDeclaration {
    pub name: Ident,
    pub type_parameters: TypeParameterList,
    pub interface_surface: Vec<TraitItem>,
    pub methods: Vec<FunctionDeclaration>,
    pub supertraits: Vec<Supertrait>,
    pub span: Span,
    pub key: u64,
}

/// A parsed `impl Trait for Type` block.
#[derive(Clone, Debug, PartialEq, Eq)]
pub struct ImplTrait {
    pub impl_type_parameters: TypeParameterList,
    pub trait_name: CallPath,
    pub trait_type_arguments: Vec<TypeArgument>,
    pub implementing_for: TypeArgument,
    pub items: Vec<ImplItem>,
    pub block_span: Span,
}

/// A parsed `impl Type` block.
#[derive(Clone, Debug, PartialEq, Eq)]
pub struct ImplSelf {
    pub impl_type_parameters: TypeParameterList,
    pub implementing_for: TypeArgument,
    pub items: Vec<ImplItem>,
    pub block_span: Span,
}

/// How a function may touch storage.
#[derive(Clone, Copy, Debug, PartialEq, Eq, Structural)]
pub enum Purity {
    Pure,
    Reads,
    Writes,
    ReadsWrites,
}

/// A parameter of a function.
#[derive(Clone, Copy, Debug, PartialEq, Eq, Structural)]
pub struct TyFunctionParameter {
    pub is_reference: bool,
    pub is_mutable: bool,
    pub mutability_span: Span,
    pub type_argument: TypeArgument,
    pub key: u64,
}

impl Duplicate for TyFunctionParameter {
    fn duplicate(&self) -> (copy: TyFunctionParameter) {
        *self
    }
}

/// A type checked function.
#[derive(Clone, Debug, PartialEq, Eq)]
pub struct TyFunctionDecl {
    pub name: Ident,
    pub parameters: Vec<TyFunctionParameter>,
    pub parameters_span: Span,
    pub return_type: TypeArgument,
    pub purity: Purity,
    pub payable: bool,
    pub type_parameters: Vec<TypeParameter>,
    pub span: Span,
    pub key: u64,
}

/// A type checked function as a mathematical value.
pub struct FunctionView {
    pub name: Ident,
    pub parameters: Seq<TyFunctionParameter>,
    pub parameters_span: Span,
    pub return_type: TypeArgument,
    pub purity: Purity,
    pub payable: bool,
    pub type_parameters: Seq<TypeParameter>,
    pub span: Span,
    pub key: u64,
}

impl View for TyFunctionDecl {
    type V = FunctionView;

    open spec fn view(&self) -> FunctionView {
        FunctionView {
            name: self.name,
            parameters: self.parameters@,
            parameters_span: self.parameters_span,
            return_type: self.return_type,
            purity: self.purity,
            payable: self.payable,
            type_parameters: self.type_parameters@,
            span: self.span,
            key: self.key,
        }
    }
}

/// A type checked function signature of a trait.
#[derive(Clone, Debug, PartialEq, Eq)]
pub struct TyTraitFn {
    pub name: Ident,
    pub parameters: Vec<TyFunctionParameter>,
    pub return_type: TypeArgument,
    pub purity: Purity,
    pub payable: bool,
    pub key: u64,
}

/// A type checked function signature as a mathematical value.
pub struct TraitFnView {
    pub name: Ident,
    pub parameters: Seq<TyFunctionParameter>,
    pub return_type: TypeArgument,
    pub purity: Purity,
    pub payable: bool,
    pub key: u64,
}

impl View for TyTraitFn {
    type V = TraitFnView;

    open spec fn view(&self) -> TraitFnView {
        TraitFnView {
            name: self.name,
            parameters: self.parameters@,
            return_type: self.return_type,
            purity: self.purity,
            payable: self.payable,
            key: self.key,
        }
    }
}

impl TyTraitFn {
    /// An equal signature.
    pub fn duplicate(&self) -> (copy: TyTraitFn)
        ensures
            copy@ == self@,
    {
        TyTraitFn {
            name: self.name.duplicate(),
            parameters: duplicate_all(&self.parameters),
            return_type: self.return_type,
            purity: self.purity,
            payable: self.payable,
            key: self.key,
        }
    }
}

/// A type checked constant. `name` is the last name of its path.
#[derive(Clone, Debug, PartialEq, Eq)]
pub struct TyConstantDecl {
    pub name: Ident,
    pub type_ascription: TypeArgument,
    pub span: Span,
    pub key: u64,
}

impl Duplicate for TyConstantDecl {
    fn duplicate(&self) -> (copy: TyConstantDecl) {
        TyConstantDecl {
            name: self.name.duplicate(),
            type_ascription: self.type_ascription,
            span: self.span,
            key: self.key,
        }
    }
}

/// A type checked associated type, and the type it stands for where one is given.
#[derive(Clone, Debug, PartialEq, Eq)]
pub struct TyTraitType {
    pub name: Ident,
    pub ty: Option<TypeArgument>,
    pub key: u64,
}

impl Duplicate for TyTraitType {
    fn duplicate(&self) -> (copy: TyTraitType) {
        TyTraitType { name: self.name.duplicate(), ty: self.ty, key: self.key }
    }
}

/// A declaration that the declaration engine keeps, with its name and span at hand.
#[derive(Clone, Debug, PartialEq, Eq)]
pub struct DeclRef {
    pub name: Ident,
    pub id: u64,
    pub span: Span,
}

impl Duplicate for DeclRef {
    fn duplicate(&self) -> (copy: DeclRef) {
        DeclRef { name: self.name.duplicate(), id: self.id, span: self.span }
    }
}

/// An item that a trait asks its implementations for.
#[derive(Clone, Debug, PartialEq, Eq)]
pub enum TyTraitInterfaceItem {
    TraitFn(DeclRef),
    Constant(DeclRef),
    Type(DeclRef),
}

impl Duplicate for TyTraitInterfaceItem {
    fn duplicate(&self) -> (copy: TyTraitInterfaceItem) {
        match self {
            TyTraitInterfaceItem::TraitFn(r) => TyTraitInterfaceItem::TraitFn(r.duplicate()),
            TyTraitInterfaceItem::Constant(r) => TyTraitInterfaceItem::Constant(r.duplicate()),
            TyTraitInterfaceItem::Type(r) => TyTraitInterfaceItem::Type(r.duplicate()),
        }
    }
}

impl TyTraitInterfaceItem {
    /// The declaration behind the item.
    pub open spec fn decl_ref(&self) -> DeclRef {
        match *self {
            TyTraitInterfaceItem::TraitFn(r) => r,
            TyTraitInterfaceItem::Constant(r) => r,
            TyTraitInterfaceItem::Type(r) => r,
        }
    }
}

/// An item with an implementation: one that a trait provides or an impl block defines.
#[derive(Clone, Debug, PartialEq, Eq)]
pub enum TyTraitItem {
    Fn(DeclRef),
    Constant(DeclRef),
    Type(DeclRef),
}

/// The items of an impl block are of the kinds that a trait can provide.
pub type TyImplItem = TyTraitItem;

impl Duplicate for TyTraitItem {
    fn duplicate(&self) -> (copy: TyTraitItem) {
        match self {
            TyTraitItem::Fn(r) => TyTraitItem::Fn(r.duplicate()),
            TyTraitItem::Constant(r) => TyTraitItem::Constant(r.duplicate()),
            TyTraitItem::Type(r) => TyTraitItem::Type(r.duplicate()),
        }
    }
}

impl TyTraitItem {
    /// The declaration behind the item.
    pub open spec fn decl_ref(&self) -> DeclRef {
        match *self {
            TyTraitItem::Fn(r) => r,
            TyTraitItem::Constant(r) => r,
            TyTraitItem::Type(r) => r,
        }
    }
}

/// Interface items by name and type.
pub type InterfaceItemMap = SortedMap<ItemKey, TyTraitInterfaceItem>;

/// Implemented items by name and type.
pub type ItemMap = SortedMap<ItemKey, TyTraitItem>;

/// A type checked trait.
#[derive(Clone, Debug, PartialEq, Eq)]
pub struct TyTraitDecl {
    pub name: Ident,
    pub type_parameters: Vec<TypeParameter>,
    pub interface_surface: Vec<TyTraitInterfaceItem>,
    pub items: Vec<TyTraitItem>,
    pub supertraits: Vec<Supertrait>,
    pub span: Span,
    pub key: u64,
}

/// A type checked trait as a mathematical value.
pub struct TraitView {
    pub name: Ident,
    pub type_parameters: Seq<TypeParameter>,
    pub interface_surface: Seq<TyTraitInterfaceItem>,
    pub items: Seq<TyTraitItem>,
    pub supertraits: Seq<Supertrait>,
    pub span: Span,
    pub key: u64,
}

impl View for TyTraitDecl {
    type V = TraitView;

    open spec fn view(&self) -> TraitView {
        TraitView {
            name: self.name,
            type_parameters: self.type_parameters@,
            interface_surface: self.interface_surface@,
            items: self.items@,
            supertraits: self.supertraits@,
            span: self.span,
            key: self.key,
        }
    }
}

/// A type checked ABI.
#[derive(Clone, Debug, PartialEq, Eq)]
pub struct TyAbiDecl {
    pub name: Ident,
    pub interface_surface: Vec<TyTraitInterfaceItem>,
    pub items: Vec<TyTraitItem>,
    pub supertraits: Vec<Supertrait>,
    pub span: Span,
    pub key: u64,
}

/// The number of a trait or an ABI in the declaration engine.
#[derive(Clone, Copy, Debug, PartialEq, Eq, Structural)]
pub enum InterfaceDeclId {
    Trait(u64),
    Abi(u64),
}

/// The trait or ABI that an impl block implements.
#[derive(Clone, Debug, PartialEq, Eq)]
pub struct InterfaceDeclRef {
    pub name: Ident,
    pub id: InterfaceDeclId,
    pub span: Span,
}

/// A type checked impl block.
#[derive(Clone, Debug, PartialEq, Eq)]
pub struct TyImplTrait {
    pub impl_type_parameters: Vec<TypeParameter>,
    pub trait_name: CallPath,
    pub trait_type_arguments: Vec<TypeArgument>,
    pub items: Vec<TyImplItem>,
    pub trait_decl_ref: Option<InterfaceDeclRef>,
    pub implementing_for: TypeArgument,
    pub span: Span,
}

/// A type checked impl block as a mathematical value. Of the path it is named by, the name
/// counts as text.
pub struct ImplView {
    pub impl_type_parameters: Seq<TypeParameter>,
    pub trait_name: CallPathView,
    pub trait_type_arguments: Seq<TypeArgument>,
    pub items: Seq<TyImplItem>,
    pub trait_decl_ref: Option<InterfaceDeclRef>,
    pub implementing_for: TypeArgument,
    pub span: Span,
}

/// A path as a mathematical value.
pub struct CallPathView {
    pub prefixes: Option<u64>,
    pub suffix: IdentView,
    pub is_absolute: bool,
    pub span: Span,
}

impl View for CallPath {
    type V = CallPathView;

    open spec fn view(&self) -> CallPathView {
        CallPathView {
            prefixes: self.prefixes,
            suffix: self.suffix@,
            is_absolute: self.is_absolute,
            span: self.span,
        }
    }
}

impl View for TyImplTrait {
    type V = ImplView;

    open spec fn view(&self) -> ImplView {
        ImplView {
            impl_type_parameters: self.impl_type_parameters@,
            trait_name: self.trait_name@,
            trait_type_arguments: self.trait_type_arguments@,
            items: self.items@,
            trait_decl_ref: self.trait_decl_ref,
            implementing_for: self.implementing_for,
            span: self.span,
        }
    }
}

/// What a name stands for in a namespace.
#[derive(Clone, Debug, PartialEq, Eq)]
pub enum TyDecl {
    TraitDecl { decl_id: u64 },
    AbiDecl { decl_id: u64 },
    ConstantDecl { name: Ident, decl_id: u64, decl_span: Span },
    Other { key: u64 },
}

/// A declaration by value, of one of the kinds that can be an item.
#[derive(Clone, Debug, PartialEq, Eq)]
pub enum Decl {
    Function(TyFunctionDecl),
    Constant(TyConstantDecl),
    TraitType(TyTraitType),
    TraitFn(TyTraitFn),
}

/// A declaration by value, as a mathematical value.
pub enum DeclView {
    Function(FunctionView),
    Constant(TyConstantDecl),
    TraitType(TyTraitType),
    TraitFn(TraitFnView),
}

impl View for Decl {
    type V = DeclView;

    open spec fn view(&self) -> DeclView {
        match *self {
            Decl::Function(d) => DeclView::Function(d@),
            Decl::Constant(d) => DeclView::Constant(d),
            Decl::TraitType(d) => DeclView::TraitType(d),
            Decl::TraitFn(d) => DeclView::TraitFn(d@),
        }
    }
}

/// The kinds of declarations that can be items.
#[derive(Clone, Copy, Debug, PartialEq, Eq, Structural)]
pub enum DeclKind {
    Function,
    Constant,
    TraitType,
    TraitFn,
}

/// The declaration that another was made from.
#[derive(Clone, Copy, Debug, PartialEq, Eq, Structural)]
pub enum ParentId {
    Function(u64),
    TraitFn(u64),
}

} // verus!
