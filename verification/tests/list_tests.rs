use reme::list::List;

#[test]
fn empty_list_is_size_0() {
    let l = List::empty();
    assert_eq!(0, l.length());
}

#[test]
fn empty_list_displays_correctly() {
    let l = List::empty();
    assert_eq!("()", l.display());
}

#[test]
fn list_marcro_works_for_empty() {
    let l = List::empty();
    assert_eq!("()", l.display());
}

#[test]
fn list_marcro_works_for_1() {
    let l = List::lit("1").cons(List::empty());
    assert_eq!("('1')", l.display());
}

#[test]
fn list_marcro_works_for_2() {
    let l = List::lit("1").cons(List::lit("2").cons(List::empty()));
    assert_eq!("('1' '2')", l.display());
}

#[test]
fn append_1_to_empty() {
    let l = List::empty();
    let n = List::lit("1").cons(List::empty());
    let a = l.append(n);
    assert_eq!("('1')", a.display())
}

#[test]
fn append_2_to_1() {
    let l = List::lit("1").cons(List::empty());
    let n = List::lit("2").cons(List::empty());
    let a = l.append(n);
    assert_eq!("('1' '2')", a.display());
    assert_eq!(List::lit("1"), a.car());
}

#[test]
fn real_worldy_list() {
    let l = List::lit("this")
        .cons(List::lit("is").cons(List::lit("a").cons(List::lit("list").cons(List::empty()))));
    assert_eq!("('this' 'is' 'a' 'list')", l.display())
}

#[test]
fn car_returns_first_element() {
    let l = List::lit("1").cons(List::empty());
    let c = l.car();
    assert_eq!("('1')", c.display())
}

#[test]
fn cdr_return_rest_of_list() {
    let l = List::lit("1").cons(List::lit("2").cons(List::lit("3").cons(List::empty())));
    let c = l.cdr();
    assert_eq!("('2' '3')", c.display())
}

#[test]
fn reverse_reverts_a_lists_order() {
    let l = List::lit("1").cons(List::lit("2").cons(List::lit("3").cons(List::empty())));
    let c = l.reverse();
    assert_eq!("('3' '2' '1')", c.display())
}
