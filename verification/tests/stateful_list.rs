use tui_launcher::components::stateful_list::StatefulList;

#[test]
fn with_items_selects_the_first_item() {
    let list = StatefulList::with_items(vec!["a", "b", "c"]);
    assert_eq!(list.selected(), Some(0));
    assert_eq!(list.selected_item(), Some(&"a"));
    assert_eq!(list.items(), &vec!["a", "b", "c"]);
}

#[test]
fn with_items_of_nothing_selects_nothing() {
    let list: StatefulList<u8> = StatefulList::with_items(vec![]);
    assert_eq!(list.selected(), None);
    assert_eq!(list.selected_item(), None);
    assert!(list.items().is_empty());
}

#[test]
fn next_and_previous_on_an_empty_list_do_nothing() {
    let mut list: StatefulList<u8> = StatefulList::with_items(vec![]);
    list.next();
    assert_eq!(list.selected(), None);
    list.previous();
    assert_eq!(list.selected(), None);
    list.previous();
    list.next();
    assert_eq!(list.selected(), None);
    assert_eq!(list.selected_item(), None);
}

#[test]
fn next_advances_and_wraps_to_the_first_item() {
    let mut list = StatefulList::with_items(vec![10, 20, 30]);
    list.next();
    assert_eq!(list.selected(), Some(1));
    assert_eq!(list.selected_item(), Some(&20));
    list.next();
    assert_eq!(list.selected(), Some(2));
    assert_eq!(list.selected_item(), Some(&30));
    list.next();
    assert_eq!(list.selected(), Some(0));
    assert_eq!(list.selected_item(), Some(&10));
}

#[test]
fn previous_retreats_and_wraps_to_the_last_item() {
    let mut list = StatefulList::with_items(vec![10, 20, 30]);
    list.previous();
    assert_eq!(list.selected(), Some(2));
    assert_eq!(list.selected_item(), Some(&30));
    list.previous();
    assert_eq!(list.selected(), Some(1));
    list.previous();
    assert_eq!(list.selected(), Some(0));
}

#[test]
fn a_single_item_stays_selected() {
    let mut list = StatefulList::with_items(vec!['x']);
    list.next();
    assert_eq!(list.selected(), Some(0));
    list.previous();
    assert_eq!(list.selected(), Some(0));
    assert_eq!(list.selected_item(), Some(&'x'));
}

#[test]
fn next_once_for_every_item_returns_to_the_start() {
    for len in 1..8usize {
        for start in 0..len {
            let mut list = StatefulList::with_items((0..len).collect::<Vec<usize>>());
            for _ in 0..start {
                list.next();
            }
            assert_eq!(list.selected(), Some(start));
            for _ in 0..len {
                list.next();
            }
            assert_eq!(list.selected(), Some(start));
        }
    }
}

#[test]
fn previous_undoes_next_and_next_undoes_previous() {
    for len in 0..6usize {
        let mut list = StatefulList::with_items((0..len).collect::<Vec<usize>>());
        for _ in 0..=len {
            let before = list.selected();
            list.next();
            list.previous();
            assert_eq!(list.selected(), before);
            list.previous();
            list.next();
            assert_eq!(list.selected(), before);
            list.next();
        }
    }
}

#[test]
fn moving_keeps_the_items() {
    let mut list = StatefulList::with_items(vec![1, 2]);
    list.next();
    list.previous();
    list.previous();
    assert_eq!(list.items(), &vec![1, 2]);
}
