//! What holds of the checks as a whole.
//!
//! `dialogue`: what a query, a reply and an error do to the state of a check. `readings`: how
//! answers are read. `stops`: the queries that a check asks are those that it stops at when the
//! replies run out. `steady` and the modules named after it: no check takes back what it asked
//! or emitted, none looks beyond the replies it needs, and a refusal comes with an error.
//!
//! `head_queries` and `unconstrained`: which type parameters an impl block may have. `held` and
//! `agreement`: what an item has in common with what its interface asks for. `inherit`: what
//! comes from supertraits. `copying`: what becomes of the items of a trait for a type.
//! `fulfilled` and `complete`: how an interface is implemented, and when nothing is left out.
//! `declared`, `declaration` and `styles`: how a trait is declared, and what is kept of it.
//! `impl_blocks` and `blocks`: how an impl block is checked, and what is kept of it. `once`:
//! each item has its turn. `maps` and `orders`: the collections in between.
pub mod agreement;
pub mod blocks;
pub mod complete;
pub mod copying;
pub mod declaration;
pub mod declared;
pub mod dialogue;
pub mod fulfilled;
pub mod head_queries;
pub mod held;
pub mod impl_blocks;
pub mod inherit;
pub mod maps;
pub mod once;
pub mod orders;
pub mod readings;
pub mod steady;
pub mod steady_impl_trait;
pub mod steady_implementation;
pub mod steady_items;
pub mod steady_surface;
pub mod steady_trait;
pub mod stops;
pub mod styles;
pub mod unconstrained;
