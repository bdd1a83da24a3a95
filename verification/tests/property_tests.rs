use reme::list::List;

#[test]
fn literal_has_length_one() {
    assert_eq!(1, List::lit("some text").length());
    assert_eq!(1, List::lit("").length());
}

#[test]
fn append_adds_lengths() {
    let a = List::lit("1").cons(List::lit("2").cons(List::empty()));
    let b = List::lit("3").cons(List::lit("4").cons(List::lit("5").cons(List::empty())));
    assert_eq!(2, a.length());
    assert_eq!(3, b.length());
    assert_eq!(5, a.append(b).length());
}

#[test]
fn append_empty_is_left_identity() {
    let b = List::lit("x").cons(List::lit("y").cons(List::empty()));
    let same = List::lit("x").cons(List::lit("y").cons(List::empty()));
    assert_eq!(same, List::empty().append(b));
}

#[test]
fn reverse_preserves_length() {
    let a = List::lit("1").cons(List::lit("2").cons(List::lit("3").cons(List::empty())));
    assert_eq!(3, a.length());
    assert_eq!(3, a.reverse().length());
}

#[test]
fn reverse_twice_is_identity() {
    let l = List::lit("1").cons(List::lit("2").cons(List::lit("3").cons(List::empty())));
    let same = List::lit("1").cons(List::lit("2").cons(List::lit("3").cons(List::empty())));
    assert_eq!(same, l.reverse().reverse());
}

#[test]
fn cons_car_cdr_roundtrip() {
    let x = List::lit("a").cons(List::empty());
    let y = List::lit("b").cons(List::lit("c").cons(List::empty()));
    let pair = x.cons(y);
    assert_eq!(List::lit("a").cons(List::empty()), pair.car());
    assert_eq!(List::lit("b").cons(List::lit("c").cons(List::empty())), pair.cdr());
}

#[test]
fn degrade_to_empty_policy() {
    assert_eq!(List::empty(), List::empty().car());
    assert_eq!(List::empty(), List::empty().cdr());
    assert_eq!(List::empty(), List::lit("x").car());
    assert_eq!(List::empty(), List::lit("x").cdr());
}

#[test]
fn is_empty_and_is_pair_report_the_variant() {
    assert!(List::empty().is_empty());
    assert!(!List::empty().is_pair());
    assert!(!List::lit("x").is_empty());
    assert!(!List::lit("x").is_pair());
    let p = List::lit("x").cons(List::empty());
    assert!(!p.is_empty());
    assert!(p.is_pair());
}

#[test]
fn display_single_element_list() {
    let l = List::lit("1").cons(List::empty());
    assert_eq!("('1')", l.display());
}

#[test]
fn display_two_elements_prepended() {
    let l = List::lit("2").cons(List::lit("1").cons(List::empty()));
    assert_eq!("('2' '1')", l.display());
}

#[test]
fn four_element_list_has_length_four() {
    let l = List::lit("this")
        .cons(List::lit("is").cons(List::lit("a").cons(List::lit("list").cons(List::empty()))));
    assert_eq!("('this' 'is' 'a' 'list')", l.display());
    assert_eq!(4, l.length());
}

#[test]
fn display_bare_literal() {
    assert_eq!("('q')", List::lit("q").display());
}

#[test]
fn nested_pair_renders_like_a_flat_list() {
    // A genuine tree, a pair in head position, renders without inner
    // parentheses: indistinguishable from the flat two-element list.
    let tree = (List::lit("a").cons(List::empty())).cons(List::lit("b").cons(List::empty()));
    assert_eq!("('a' 'b')", tree.display());
    let flat = List::lit("a").cons(List::lit("b").cons(List::empty()));
    assert_eq!("('a' 'b')", flat.display());
}

#[test]
fn improper_list_still_renders_and_counts() {
    // A literal in tail position, no terminating empty marker.
    let improper = List::lit("1").cons(List::lit("2"));
    assert_eq!("('1' '2')", improper.display());
    assert_eq!(2, improper.length());
}

#[test]
fn append_from_literal_degrades_head() {
    // Appending to a bare literal rebuilds it through car/cdr, which both
    // degrade to empty: the literal's payload is lost, not an error.
    let a = List::lit("1").append(List::lit("2"));
    assert_eq!("( '2')", a.display());
    assert_eq!(2, a.length());
}

#[test]
fn reverse_of_empty_is_empty() {
    let r = List::empty().reverse();
    assert!(r.is_empty());
    assert_eq!("()", r.display());
}
