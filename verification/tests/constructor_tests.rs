//! Tests of the convenience constructors and of the shared collection types.
use typeset::{
    brackets, comma, comp, compile, fix_pad, fix_unpad, format_layout, join_with,
    join_with_commas, join_with_lines, join_with_spaces, pad, parens, render, semicolon, space,
    text, text_str, unpad, List, OrdMap, Order,
};

#[test]
fn text_str_matches_text() {
    let a = render(compile(text_str("abc")), 2, 80);
    let b = render(compile(text("abc".to_string())), 2, 80);
    assert_eq!(a, b);
    assert_eq!(a, "abc");
}

#[test]
fn pad_and_unpad_render_as_expected() {
    let padded = pad(text_str("a"), text_str("b"));
    assert_eq!(render(compile(padded), 2, 80), "a b");
    let unpadded = unpad(text_str("a"), text_str("b"));
    assert_eq!(render(compile(unpadded), 2, 80), "ab");
}

#[test]
fn fixed_compositions_stay_on_one_line() {
    let padded = fix_pad(text_str("aaa"), text_str("bbb"));
    assert_eq!(render(compile(padded), 2, 2), "aaa bbb");
    let unpadded = fix_unpad(text_str("aaa"), text_str("bbb"));
    assert_eq!(render(compile(unpadded), 2, 2), "aaabbb");
}

#[test]
fn punctuation_constructors_render_their_characters() {
    assert_eq!(render(compile(space()), 2, 80), " ");
    assert_eq!(render(compile(comma()), 2, 80), ",");
    assert_eq!(render(compile(semicolon()), 2, 80), ";");
}

#[test]
fn bracket_constructors_wrap_their_content() {
    assert_eq!(render(compile(parens(text_str("x"))), 2, 80), "(x)");
    assert_eq!(render(compile(brackets(text_str("x"))), 2, 80), "[x]");
    assert_eq!(render(compile(typeset::braces(text_str("x"))), 2, 80), "{x}");
}

#[test]
fn join_with_inserts_the_separator() {
    let joined = join_with(
        vec![text_str("a"), text_str("b"), text_str("c")],
        text_str("-"),
    );
    assert_eq!(render(compile(joined), 2, 80), "a-b-c");

    let none: Vec<Box<typeset::Layout>> = vec![];
    assert_eq!(render(compile(join_with(none, text_str("-"))), 2, 80), "");

    let one = join_with(vec![text_str("a")], text_str("-"));
    assert_eq!(render(compile(one), 2, 80), "a");
}

#[test]
fn join_with_spaces_and_commas() {
    let spaced = join_with_spaces(vec![text_str("a"), text_str("b")]);
    assert_eq!(render(compile(spaced), 2, 80), "a b");
    let commas = join_with_commas(vec![text_str("a"), text_str("b")]);
    assert_eq!(render(compile(commas), 2, 80), "a, b");
}

#[test]
fn join_with_lines_breaks_hard() {
    let lined = join_with_lines(vec![text_str("a"), text_str("b"), text_str("c")]);
    assert_eq!(render(compile(lined), 2, 80), "a\nb\nc");
}

#[test]
fn format_layout_compiles_and_renders() {
    let layout = pad(text_str("hello"), text_str("world"));
    assert_eq!(format_layout(layout, 2, 80), "hello world");
}

#[test]
fn ordered_map_inserts_and_looks_up() {
    let m: OrdMap<u64> = typeset::OrdMap::Nil;
    let m = m.insert(4, 40).insert(2, 20).insert(9, 90);
    assert_eq!(m.size(), 3);
    assert_eq!(m.lookup(2), Some(20));
    assert_eq!(m.lookup(4), Some(40));
    assert_eq!(m.lookup(9), Some(90));
    assert_eq!(m.lookup(5), None);
    assert!(m.contains(9));
    let m = m.insert(4, 44);
    assert_eq!(m.size(), 3);
    assert_eq!(m.lookup(4), Some(44));
    let m = m.remove(2);
    assert_eq!(m.size(), 2);
    assert_eq!(m.lookup(2), None);
    assert_eq!(m.lookup_unsafe(9), 90);
}

#[test]
fn ordered_map_keeps_keys_ascending() {
    let m: OrdMap<u64> = typeset::OrdMap::Nil;
    let m = m.insert(7, 1).insert(3, 2).insert(5, 3);
    match m {
        OrdMap::Cons(k1, _, rest1) => {
            assert_eq!(k1, 3);
            match *rest1 {
                OrdMap::Cons(k2, _, rest2) => {
                    assert_eq!(k2, 5);
                    match *rest2 {
                        OrdMap::Cons(k3, _, _) => assert_eq!(k3, 7),
                        OrdMap::Nil => panic!("missing third key"),
                    }
                }
                OrdMap::Nil => panic!("missing second key"),
            }
        }
        OrdMap::Nil => panic!("missing first key"),
    }
}

#[test]
fn list_get_and_length() {
    let l: List<u64> = List::Nil;
    let l = l.push(10).push(20).push(30);
    assert_eq!(l.length(), 3);
    assert_eq!(l.get(0), Some(&10));
    assert_eq!(l.get(2), Some(&30));
    assert_eq!(l.get(3), None);
    assert_eq!(*l.get_unsafe(1), 20);
    let l = l.set(1, 25);
    assert_eq!(l.get(1), Some(&25));
}

#[test]
fn total_orders_keys() {
    assert!(matches!(typeset::total(1, 2), Order::LT));
    assert!(matches!(typeset::total(2, 2), Order::EQ));
    assert!(matches!(typeset::total(3, 2), Order::GT));
}
