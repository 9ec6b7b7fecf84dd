use thread_pool::linked_list::LinkedList;

#[test]
fn test_push() {
    let mut list = LinkedList::new();
    list.push("1");
    assert_eq!(list.get_size(), 1);
}

#[test]
fn test_pop() {
    let mut list = LinkedList::new();
    list.push("1".to_string());
    list.push("2".to_string());
    for _ in 1..=3 {
        let data = list.pop();
        println!("{:?}", data);
    }
}

#[test]
fn test_add() {
    let mut list = LinkedList::new();
    list.add("1".to_string());
    list.add("2".to_string());
}

#[test]
fn test_get() {
    let mut list = LinkedList::new();
    list.push("1".to_string());
    list.push("2".to_string());
    list.push("3".to_string());
    match list.get(1) {
        Ok(Some(x)) => {
            assert_eq!(*x, "2".to_string());

            let _i = x;
        }
        _ => assert!(false),
    }
}

#[test]
fn test_for() {
    let mut list = LinkedList::new();
    list.add(1);
    list.add(2);
    list.add(3);
    while let Some(x) = list.next() {
        println!("{}", x);
    }
}

#[test]
fn test_ptr() {
    let mut x = vec![1, 2, 3];
    let p: &mut Vec<i32> = &mut x;
    p.push(2);
    let q = x.as_slice();
    println!("{:p} {:?}", q, q)
}

#[test]
fn pop_on_empty_list_gives_none() {
    let mut list: LinkedList<u8> = LinkedList::new();
    assert_eq!(list.pop(), None);
    assert_eq!(list.get_size(), 0);
    assert_eq!(list.peek(), None);
}

#[test]
fn push_puts_values_in_front() {
    let mut list = LinkedList::new();
    list.push(1);
    list.push(2);
    list.push(3);
    assert_eq!(list.peek(), Some(&3));
    assert_eq!(list.pop(), Some(3));
    assert_eq!(list.pop(), Some(2));
    assert_eq!(list.pop(), Some(1));
    assert_eq!(list.pop(), None);
}

#[test]
fn add_puts_values_at_the_back() {
    let mut list = LinkedList::new();
    list.add(1);
    list.add(2);
    list.push(0);
    list.add(3);
    assert_eq!(list.get_size(), 4);
    assert_eq!(list.next(), Some(0));
    assert_eq!(list.next(), Some(1));
    assert_eq!(list.next(), Some(2));
    assert_eq!(list.next(), Some(3));
    assert_eq!(list.next(), None);
}

#[test]
fn get_past_the_end_is_refused() {
    let mut list = LinkedList::new();
    list.push(10);
    list.push(20);
    assert_eq!(list.get(0), Ok(Some(&20)));
    assert_eq!(list.get(1), Ok(Some(&10)));
    assert_eq!(list.get(3), Err("out of range".to_string()));
    assert_eq!(list.get(100), Err("out of range".to_string()));
}

#[test]
fn pop_undoes_push_on_values() {
    let mut list = LinkedList::new();
    list.add(5);
    list.add(6);
    list.push(7);
    assert_eq!(list.pop(), Some(7));
    assert_eq!(list.get_size(), 2);
    assert_eq!(list.get(0), Ok(Some(&5)));
    assert_eq!(list.get(1), Ok(Some(&6)));
}

#[test]
fn get_after_push_shifts_index() {
    let mut list = LinkedList::new();
    list.add('a');
    list.add('b');
    assert_eq!(list.get(1), Ok(Some(&'b')));
    list.push('z');
    assert_eq!(list.get(2), Ok(Some(&'b')));
}

#[test]
fn push_push_add_order() {
    let mut list = LinkedList::new();
    list.push(1);
    list.push(2);
    list.add(3);
    assert_eq!(list.get(0), Ok(Some(&2)));
    assert_eq!(list.get(1), Ok(Some(&1)));
    assert_eq!(list.get(2), Ok(Some(&3)));
    assert_eq!(list.get_size(), 3);
    list.pop();
    list.pop();
    assert_eq!(list.get_size(), 1);
    assert_eq!(list.pop(), Some(3));
    assert_eq!(list.pop(), None);
    assert_eq!(list.get_size(), 0);
}
