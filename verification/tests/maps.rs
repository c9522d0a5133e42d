use sway_traits::ident::{Ident, Span};
use sway_traits::ordered::{Key, Order, SortedMap};
use sway_traits::types::{
    from_type_parameters_and_type_arguments, ItemKey, TypeArgument, TypeId, TypeParameter,
};

fn span(start: u64) -> Span {
    Span { source: 1, start, end: start + 1 }
}

fn ident(name: &str, start: u64) -> Ident {
    Ident { name: name.to_string(), span: span(start) }
}

fn ty(index: u64) -> TypeId {
    TypeId { index }
}

fn names(map: &SortedMap<Ident, TypeId>) -> Vec<String> {
    map.keys().into_iter().map(|key| key.name).collect()
}

#[test]
fn a_map_is_walked_in_the_order_of_its_keys() {
    let mut map: SortedMap<Ident, TypeId> = SortedMap::new();
    map.insert(ident("transfer", 0), ty(1));
    map.insert(ident("burn", 1), ty(2));
    map.insert(ident("mint", 2), ty(3));
    assert_eq!(names(&map), vec!["burn", "mint", "transfer"]);
    assert_eq!(map.values(), vec![ty(2), ty(3), ty(1)]);
    assert_eq!(map.len(), 3);
    assert!(!map.is_empty());
    assert_eq!(map.entry(0).1, ty(2));
}

#[test]
fn the_last_value_counts_and_the_first_key_stays() {
    let mut map: SortedMap<Ident, TypeId> = SortedMap::new();
    map.insert(ident("mint", 4), ty(1));
    map.insert(ident("mint", 9), ty(2));
    assert_eq!(map.len(), 1);
    assert_eq!(map.get(&ident("mint", 0)), Some(&ty(2)));
    assert_eq!(map.entry(0).0.span, span(4));
}

#[test]
fn a_removed_key_is_gone_and_the_others_stay() {
    let mut map: SortedMap<Ident, TypeId> = SortedMap::new();
    map.insert(ident("a", 0), ty(1));
    map.insert(ident("b", 0), ty(2));
    map.remove(&ident("a", 7));
    map.remove(&ident("c", 0));
    assert!(!map.contains_key(&ident("a", 0)));
    assert!(map.contains_key(&ident("b", 0)));
    assert_eq!(map.get(&ident("a", 0)), None);
    map.remove(&ident("b", 0));
    assert!(map.is_empty());
}

#[test]
fn an_extended_map_prefers_the_other() {
    let mut map: SortedMap<Ident, TypeId> = SortedMap::new();
    map.insert(ident("a", 0), ty(1));
    map.insert(ident("b", 0), ty(2));
    let mut other: SortedMap<Ident, TypeId> = SortedMap::new();
    other.insert(ident("b", 5), ty(20));
    other.insert(ident("c", 5), ty(30));
    let copy = other.duplicate();
    map.extend(other);
    assert_eq!(names(&map), vec!["a", "b", "c"]);
    assert_eq!(map.values(), vec![ty(1), ty(20), ty(30)]);
    assert_eq!(names(&copy), vec!["b", "c"]);
}

#[test]
fn identifiers_are_compared_by_name() {
    assert_eq!(ident("x", 1), ident("x", 2));
    assert_ne!(ident("x", 1), ident("y", 1));
    assert_eq!(ident("ab", 0).compare(&ident("abc", 0)), Order::Less);
    assert_eq!(ident("b", 0).compare(&ident("abc", 0)), Order::Greater);
    assert_eq!(ident("Z", 0).compare(&ident("a", 0)), Order::Less);
    assert_eq!(ident("é", 0).compare(&ident("z", 0)), Order::Greater);
    assert_eq!(ident("", 0).compare(&ident("", 3)), Order::Equal);
}

#[test]
fn items_are_ordered_by_name_and_by_type_after_that() {
    let key = |name: &str, index: u64| ItemKey { name: ident(name, 0), type_id: ty(index) };
    assert_eq!(key("a", 9).compare(&key("ab", 1)), Order::Less);
    assert_eq!(key("b", 1).compare(&key("a", 2)), Order::Greater);
    assert_eq!(key("a", 1).compare(&key("a", 2)), Order::Less);
    assert_eq!(key("a", 2).compare(&key("a", 2)), Order::Equal);
    assert_eq!(ty(3).compare(&ty(2)), Order::Greater);
}

#[test]
fn type_parameters_are_replaced_by_the_arguments_in_their_places() {
    let parameter = |index: u64| TypeParameter {
        type_id: ty(index),
        span: span(0),
        is_from_parent: false,
        key: 0,
    };
    let argument = |index: u64| TypeArgument { type_id: ty(index), span: span(0), key: 0 };
    let map = from_type_parameters_and_type_arguments(
        &vec![parameter(5), parameter(4), parameter(3)],
        &vec![argument(50), argument(40)],
    );
    assert_eq!(map.get(&ty(5)), Some(&ty(50)));
    assert_eq!(map.get(&ty(4)), Some(&ty(40)));
    assert_eq!(map.get(&ty(3)), None);
    assert_eq!(map.keys(), vec![ty(4), ty(5)]);
}
