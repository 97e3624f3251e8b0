use basics::options::fallback_choice;
use basics::options::Foo;
use basics::options::{
    count_item_error_message, get_count_item, retry_with_loop, retry_with_while_let, CountItemError,
};

#[test]
fn count_item_three_chairs() {
    assert_eq!(get_count_item("3 chairs"), Ok((3, "chairs")));
}

#[test]
fn count_item_keeps_the_remainder() {
    assert_eq!(get_count_item("12 big chairs"), Ok((12, "big chairs")));
    assert_eq!(get_count_item("7 "), Ok((7, "")));
}

#[test]
fn count_item_errors() {
    assert_eq!(get_count_item("chairs"), Err(CountItemError::Unsegmented));
    assert_eq!(get_count_item(""), Err(CountItemError::Unsegmented));
    assert_eq!(get_count_item("x chairs"), Err(CountItemError::BadCount));
    assert_eq!(get_count_item(" chairs"), Err(CountItemError::BadCount));
    assert_eq!(
        count_item_error_message("chairs", CountItemError::Unsegmented),
        "Can't segment count item pair: 'chairs'"
    );
    assert_eq!(
        count_item_error_message("x chairs", CountItemError::BadCount),
        "Can't parse integer: 'x'"
    );
}

#[test]
fn retry_loops_print_the_same() {
    let a = retry_with_loop(Some(0));
    let b = retry_with_while_let(Some(0));
    assert_eq!(a, b);
    assert_eq!(a.len(), 11);
    assert_eq!(a[0], "i is 0. Try again!");
    assert_eq!(a[9], "i is 9. Try again!");
    assert_eq!(a[10], "Greater than 9, quit!");
}

#[test]
fn retry_loops_edge_starts() {
    assert!(retry_with_loop(None).is_empty());
    assert!(retry_with_while_let(None).is_empty());
    assert_eq!(retry_with_loop(Some(42)), vec!["Greater than 9, quit!"]);
    assert_eq!(retry_with_while_let(Some(9)), vec!["i is 9. Try again!", "Greater than 9, quit!"]);
}

#[test]
fn if_let_fallback_branches() {
    assert_eq!(fallback_choice(Some(7), false), "Matched 7");
    assert_eq!(fallback_choice(None, true), "Didn't match a number. Let's go with a letter!");
    assert_eq!(fallback_choice(None, false), "I don't like letters. Let's go with an emoticon");
    assert_eq!(fallback_choice(Some(-3), true), "Matched -3");
}

#[test]
fn if_let_on_enum_variants() {
    assert!(Foo::Bar.is_bar());
    assert!(!Foo::Baz.is_bar());
    assert_eq!(Foo::Qux(100).qux_value(), Some(100));
    assert_eq!(Foo::Baz.qux_value(), None);
    assert!(Foo::Qux(100).is_qux_hundred());
    assert!(!Foo::Qux(99).is_qux_hundred());
}
