//! The errors and warnings that the checks give.
use crate::decl::Purity;
use crate::ident::{Ident, Span};
use vstd::prelude::*;

verus! {

/// The trait or the ABI that an error speaks of.
#[derive(Clone, Debug, PartialEq, Eq)]
pub enum InterfaceName {
    Abi(Ident),
    Trait(Ident),
}

/// The kind of declaration that an error about mismatched types speaks of.
#[derive(Clone, Copy, Debug, PartialEq, Eq, Structural)]
pub enum DeclType {
    Function,
    Constant,
}

/// An error. `Reported` stands for one that came up in work the compiler did on request,
/// and that it keeps under that number.
#[derive(Clone, Debug, PartialEq, Eq)]
pub enum CompileError {
    MultipleDefinitionsOfName { name: Ident, span: Span },
    MultipleDefinitionsOfFunction { name: Ident, span: Span },
    MultipleDefinitionsOfConstant { name: Ident, span: Span },
    MultipleDefinitionsOfType { name: Ident, span: Span },
    FunctionNotAPartOfInterfaceSurface { name: Ident, interface_name: InterfaceName, span: Span },
    ConstantNotAPartOfInterfaceSurface { name: Ident, interface_name: InterfaceName, span: Span },
    TypeNotAPartOfInterfaceSurface { name: Ident, interface_name: InterfaceName, span: Span },
    IncorrectNumberOfInterfaceSurfaceFunctionParameters {
        fn_name: Ident,
        interface_name: InterfaceName,
        num_parameters: usize,
        provided_parameters: usize,
        span: Span,
    },
    MutableParameterNotSupported { param_name: Ident, span: Span },
    ParameterRefMutabilityMismatch { span: Span },
    MismatchedTypeInInterfaceSurface {
        interface_name: InterfaceName,
        span: Span,
        decl_type: DeclType,
        given: String,
        expected: String,
    },
    TraitDeclPureImplImpure {
        fn_name: Ident,
        interface_name: InterfaceName,
        attrs: Purity,
        span: Span,
    },
    TraitImplPurityMismatch {
        fn_name: Ident,
        interface_name: InterfaceName,
        attrs: Purity,
        span: Span,
    },
    TraitImplPayabilityMismatch {
        fn_name: Ident,
        interface_name: InterfaceName,
        missing_impl_attribute: bool,
        span: Span,
    },
    MissingInterfaceSurfaceMethods { missing_functions: Vec<Ident>, span: Span },
    MissingInterfaceSurfaceConstants { missing_constants: Vec<Ident>, span: Span },
    MissingInterfaceSurfaceTypes { missing_types: Vec<Ident>, span: Span },
    UnconstrainedGenericParameter { ty: String, span: Span },
    Unimplemented(&'static str, Span),
    UnimplementedWithHelp(&'static str, &'static str, Span),
    TraitNotFound { name: String, span: Span },
    UnknownTrait { name: Ident, span: Span },
    ImplAbiForNonContract { span: Span, ty: String },
    Reported(u64),
}

/// An error as a mathematical value.
pub enum ErrorView {
    MissingMethods { missing: Seq<Ident>, span: Span },
    MissingConstants { missing: Seq<Ident>, span: Span },
    MissingTypes { missing: Seq<Ident>, span: Span },
    Plain(CompileError),
}

impl View for CompileError {
    type V = ErrorView;

    open spec fn view(&self) -> ErrorView {
        match *self {
            CompileError::MissingInterfaceSurfaceMethods {
                missing_functions,
                span,
            } => ErrorView::MissingMethods { missing: missing_functions@, span },
            CompileError::MissingInterfaceSurfaceConstants {
                missing_constants,
                span,
            } => ErrorView::MissingConstants { missing: missing_constants@, span },
            CompileError::MissingInterfaceSurfaceTypes {
                missing_types,
                span,
            } => ErrorView::MissingTypes { missing: missing_types@, span },
            error => ErrorView::Plain(error),
        }
    }
}

/// A warning. `Reported` stands for one that came up in work the compiler did on request,
/// and that it keeps under that number.
#[derive(Clone, Debug, PartialEq, Eq)]
pub enum CompileWarning {
    NonClassCaseTraitName { name: Ident, span: Span },
    Reported(u64),
}

/// The token that stands for an error that was emitted.
#[derive(Clone, Copy, Debug, PartialEq, Eq, Structural)]
pub struct ErrorEmitted;

} // verus!
