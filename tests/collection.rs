use webru::materialize;

#[test]
fn materialize_takes_every_present_item_in_order() {
    let items = vec![10u32, 20, 30, 40];
    let r = materialize(|i: u32| items.get(i as usize).copied());
    assert_eq!(r, vec![10, 20, 30, 40]);
}

#[test]
fn materialize_empty_collection_gives_empty_vec() {
    let r: Vec<u8> = materialize(|_i: u32| None);
    assert!(r.is_empty());
}

#[test]
fn materialize_stops_at_first_absent_index() {
    let probes = vec![Some('a'), Some('b'), None, Some('d')];
    let r = materialize(|i: u32| probes.get(i as usize).copied().flatten());
    assert_eq!(r, vec!['a', 'b']);
}

#[test]
fn materialize_single_item() {
    let r = materialize(|i: u32| if i == 0 { Some(String::from("only")) } else { None });
    assert_eq!(r, vec![String::from("only")]);
}

#[test]
fn materialize_asks_indices_from_zero_upward() {
    let asked = std::cell::RefCell::new(Vec::new());
    let r = materialize(|i: u32| {
        asked.borrow_mut().push(i);
        if i < 3 { Some(i * 2) } else { None }
    });
    assert_eq!(r, vec![0, 2, 4]);
    assert_eq!(*asked.borrow(), vec![0, 1, 2, 3]);
}

#[test]
fn materialize_keeps_host_order_of_many_items() {
    let n: u32 = 1000;
    let r = materialize(|i: u32| if i < n { Some(n - i) } else { None });
    assert_eq!(r.len(), 1000);
    assert_eq!(r[0], 1000);
    assert_eq!(r[999], 1);
}
