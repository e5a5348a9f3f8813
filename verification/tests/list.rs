use lox_ast::list::List;

#[test]
fn basics() {
    let mut list: List<i32> = List::new();
    assert_eq!(list.pop(), None);
    assert_eq!(list.peek(), None);

    list.push(1);
    list.push(2);
    list.push(3);
    assert_eq!(list.peek(), Some(&3));
    assert_eq!(list.pop(), Some(3));
    assert_eq!(list.pop(), Some(2));

    list.push(4);
    list.push(5);
    assert_eq!(list.peek(), Some(&5));
    list.peek_mut().map(|val| {
        *val = 42;
    });
    assert_eq!(list.pop(), Some(42));
    assert_eq!(list.pop(), Some(4));
    assert_eq!(list.pop(), Some(1));

    assert_eq!(list.pop(), None);
    assert_eq!(list.pop(), None);
    assert_eq!(list.peek(), None);
}

#[test]
fn iter() {
    let list: List<i32> = List::new();
    let mut iter = list.into_iter();
    assert_eq!(iter.next(), None);
}

#[test]
fn try_map() {
    let maybe_string = Some(String::from("I'm here!"));
    let maybe_len = maybe_string.map(|v| v.len());
    println!("{}", maybe_len.unwrap());
}

#[test]
fn iter_hands_out_head_first() {
    let mut list: List<i32> = List::new();
    list.push(1);
    list.push(2);
    list.push(3);
    let mut walk = list.iter();
    assert_eq!(walk.next(), Some(&3));
    assert_eq!(walk.next(), Some(&2));
    assert_eq!(walk.next(), Some(&1));
    assert_eq!(walk.next(), None);
    // the list is only borrowed: it still holds its elements
    assert_eq!(list.peek(), Some(&3));
}

#[test]
fn into_iter_drains_head_first() {
    let mut list: List<i32> = List::new();
    list.push(1);
    list.push(2);
    list.push(3);
    let mut walk = list.into_iter();
    assert_eq!(walk.next(), Some(3));
    assert_eq!(walk.next(), Some(2));
    assert_eq!(walk.next(), Some(1));
    assert_eq!(walk.next(), None);
}

#[test]
fn iter_mut_writes_reach_the_list() {
    let mut list: List<i32> = List::new();
    list.push(1);
    list.push(2);
    list.push(3);
    let mut walk = list.IterMut();
    while let Some(elem) = walk.next() {
        *elem += 10;
    }
    assert_eq!(list.pop(), Some(13));
    assert_eq!(list.pop(), Some(12));
    assert_eq!(list.pop(), Some(11));
    assert_eq!(list.pop(), None);
}

#[test]
fn peek_mut_replaces_only_the_head() {
    let mut list: List<i32> = List::new();
    assert!(list.peek_mut().is_none());
    list.push(7);
    list.push(8);
    if let Some(head) = list.peek_mut() {
        *head = 80;
    }
    assert_eq!(list.pop(), Some(80));
    assert_eq!(list.pop(), Some(7));
    assert_eq!(list.pop(), None);
}
