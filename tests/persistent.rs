use linked_lists::third::List;

#[test]
fn third_basics() {
    let list = List::new();
    assert_eq!(list.head(), None);

    let list = list.prepend(1).prepend(2).prepend(3);
    assert_eq!(list.head(), Some(&3));

    let list = list.tail();
    assert_eq!(list.head(), Some(&2));

    let list = list.tail();
    assert_eq!(list.head(), Some(&1));

    let list = list.tail();
    assert_eq!(list.head(), None);

    // Make sure empty tail works
    let list = list.tail();
    assert_eq!(list.head(), None);
}

#[test]
fn prepend_three_then_tail_down_to_empty() {
    let list = List::new().prepend(3).prepend(2).prepend(1);
    assert_eq!(list.head(), Some(&1));
    let list = list.tail();
    assert_eq!(list.head(), Some(&2));
    let list = list.tail();
    assert_eq!(list.head(), Some(&3));
    let list = list.tail();
    assert_eq!(list.head(), None);
    let list = list.tail();
    assert_eq!(list.head(), None);
    assert_eq!(list.iter().next(), None);
}

#[test]
fn prepend_leaves_the_original() {
    let original = List::new().prepend(7);
    let derived = original.prepend(8);
    assert_eq!(original.head(), Some(&7));
    assert_eq!(derived.head(), Some(&8));
    assert_eq!(derived.tail().head(), Some(&7));
    let empty: List<i32> = List::new();
    assert_eq!(empty.tail().head(), None);
}

#[test]
fn persistent_iter_visits_front_first() {
    let list = List::new().prepend(1).prepend(2).prepend(3);
    let mut iter = list.iter();
    assert_eq!(iter.next(), Some(&3));
    assert_eq!(iter.next(), Some(&2));
    assert_eq!(iter.next(), Some(&1));
    assert_eq!(iter.next(), None);
    let mut again = list.iter();
    assert_eq!(again.next(), Some(&3));
}

#[test]
fn lists_sharing_a_suffix_survive_each_other() {
    let shared = List::new().prepend(String::from("c")).prepend(String::from("b"));
    let left = shared.prepend(String::from("x"));
    let right = shared.prepend(String::from("y"));
    drop(shared);
    drop(left);
    let mut seen = Vec::new();
    let mut iter = right.iter();
    while let Some(s) = iter.next() {
        seen.push(s.clone());
    }
    assert_eq!(seen, vec!["y", "b", "c"]);
}

#[test]
fn long_persistent_list_is_torn_down() {
    let mut list = List::new();
    for i in 0..100_000u32 {
        list = list.prepend(i);
    }
    let kept = list.tail().tail();
    drop(list);
    assert_eq!(kept.head(), Some(&99_997));
    drop(kept);
}
