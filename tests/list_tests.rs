use basics::list::List;

#[test]
fn list_of_three_has_length_three() {
    let mut list = List::new();
    list = list.prepend(1);
    list = list.prepend(2);
    list = list.prepend(3);
    assert_eq!(list.len(), 3);
    assert_eq!(list.stringify(), "3, 2, 1, Nil");
}

#[test]
fn empty_list_renders_nil() {
    let list = List::new();
    assert_eq!(list.len(), 0);
    assert_eq!(list.stringify(), "Nil");
}

#[test]
fn list_renders_large_elements() {
    let list = List::new().prepend(u32::MAX).prepend(0).prepend(10);
    assert_eq!(list.len(), 3);
    assert_eq!(list.stringify(), "10, 0, 4294967295, Nil");
}
