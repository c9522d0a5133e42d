//! The checks of traits and impl blocks in the Sway compiler.
//!
//! Each check is a function of its arguments and of the replies that the compiler gives to its
//! queries. See `session` for how the two talk to each other, and `laws` for what holds of all
//! checks together.
pub mod decl;
pub mod diagnostics;
pub mod duplicate;
pub mod generics;
pub mod ident;
pub mod impl_items;
pub mod impl_trait;
pub mod implementation;
pub mod laws;
pub mod ordered;
pub mod session;
pub mod style;
pub mod supertraits;
pub mod surface;
pub mod trait_decl;
pub mod types;
