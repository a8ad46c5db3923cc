//! The doubly-ended list: pushing, popping and removal by value.

use secure_chat::list::DoublyLinkedList;

#[test]
fn push_back_and_len() {
    let mut list: DoublyLinkedList<i32> = DoublyLinkedList::new();
    assert_eq!(list.len(), 0);
    list.push_back(10);
    list.push_back(20);
    list.push_back(30);
    list.push_back(40);
    assert_eq!(list.len(), 4);
}

#[test]
fn remove_middle_then_ends() {
    let mut list = DoublyLinkedList::new();
    list.push_back(10);
    list.push_back(20);
    list.push_back(30);
    list.push_back(40);

    // Middle removal.
    assert!(list.remove(20));
    // Boundary removals: head, then tail.
    assert!(list.remove(10));
    assert!(list.remove(40));

    assert_eq!(list.len(), 1);
    assert_eq!(list.pop_front(), Some(30));
    assert_eq!(list.pop_front(), None);
}

#[test]
fn remove_missing_value() {
    let mut list = DoublyLinkedList::new();
    list.push_back(1);
    list.push_back(2);
    assert!(!list.remove(7));
    assert_eq!(list.len(), 2);
}

#[test]
fn remove_takes_first_match_only() {
    let mut list = DoublyLinkedList::new();
    list.push_back(5);
    list.push_back(6);
    list.push_back(5);
    assert!(list.remove(5));
    assert_eq!(list.pop_front(), Some(6));
    assert_eq!(list.pop_front(), Some(5));
    assert_eq!(list.pop_front(), None);
}

#[test]
fn push_front_reverses_order() {
    let mut list = DoublyLinkedList::new();
    list.push_front("b");
    list.push_front("a");
    list.push_back("c");
    assert_eq!(list.pop_front(), Some("a"));
    assert_eq!(list.pop_front(), Some("b"));
    assert_eq!(list.pop_front(), Some("c"));
}

#[test]
fn pop_back_returns_last() {
    let mut list = DoublyLinkedList::new();
    assert_eq!(list.pop_back(), None);
    list.push_back(1);
    list.push_back(2);
    assert_eq!(list.pop_back(), Some(2));
    assert_eq!(list.pop_back(), Some(1));
    assert_eq!(list.pop_back(), None);
}
