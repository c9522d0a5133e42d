# sway_traits

The checks that the Sway compiler runs on traits and on impl blocks, verified with
[Verus](https://github.com/verus-lang/verus).

A check needs work that only the compiler can do: resolving names and types, checking bodies,
keeping declarations. It asks for it by a `Query` and goes on with the `Reply`. A check is run on
the replies given so far; where it needs one that is not there yet it stops, leaves the query
behind, and is run again once the reply was added. What a check does is thereby a function of its
arguments and of the replies, and each contract says which.

## Layout

- `src/session.rs`: queries, replies, and the state of a check.
- `src/decl.rs`, `src/types.rs`, `src/ident.rs`, `src/diagnostics.rs`: the data.
- `src/ordered.rs`: maps that are walked in the order of their keys.
- `src/style.rs`: how names are written.
- `src/trait_decl.rs`, `src/surface.rs`: the declaration of a trait, and its items.
- `src/impl_trait.rs`: impl blocks.
- `src/implementation.rs`, `src/impl_items.rs`: an impl block held against its interface.
- `src/supertraits.rs`, `src/generics.rs`: supertraits, and type parameters that are not used.
- `src/laws.rs`, `src/laws/`: what holds of the checks as a whole.
- `app/`: the loop between the checks and a compiler, and its errors and warnings.

For each part of a check there is a spec function, most often with a name that ends in `_run`. It
takes the state before, and gives the state after and the result.
