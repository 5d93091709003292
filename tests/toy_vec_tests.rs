use toy_vec::ToyVec;

#[test]
fn new_is_empty_with_no_capacity() {
    let v: ToyVec<u64> = ToyVec::new();
    assert_eq!(v.len(), 0);
    assert_eq!(v.capacity(), 0);
}

#[test]
fn with_capacity_allocates_slots_but_holds_nothing() {
    let v: ToyVec<u64> = ToyVec::with_capacity(3);
    assert_eq!(v.len(), 0);
    assert_eq!(v.capacity(), 3);
    assert_eq!(v.get(0), None);
}

#[test]
fn length_counts_appends_and_capacity_covers_it() {
    let mut v: ToyVec<u32> = ToyVec::new();
    for k in 0..20u32 {
        v.push(k * 3);
        assert_eq!(v.len(), (k + 1) as usize);
        assert!(v.capacity() >= v.len());
    }
}

#[test]
fn get_returns_values_in_append_order_across_growth() {
    let mut v: ToyVec<String> = ToyVec::new();
    for k in 0..9 {
        v.push(format!("item{}", k));
    }
    for k in 0..9 {
        assert_eq!(v.get(k), Some(&format!("item{}", k)));
    }
}

#[test]
fn append_then_remove_last_round_trips() {
    let mut v: ToyVec<i32> = ToyVec::new();
    v.push(1);
    v.push(2);
    v.push(3);
    v.push(42);
    assert_eq!(v.pop(), Some(42));
    assert_eq!(v.len(), 3);
    assert_eq!(v.get(0), Some(&1));
    assert_eq!(v.get(1), Some(&2));
    assert_eq!(v.get(2), Some(&3));
    assert_eq!(v.get(3), None);
}

#[test]
fn get_out_of_range_is_absent() {
    let empty: ToyVec<i32> = ToyVec::new();
    assert_eq!(empty.get(0), None);
    let mut v: ToyVec<i32> = ToyVec::with_capacity(8);
    v.push(5);
    assert_eq!(v.get(1), None);
    assert_eq!(v.get(7), None);
    assert_eq!(v.get(usize::MAX), None);
}

#[test]
fn remove_last_on_empty_is_absent_repeatedly() {
    let mut v: ToyVec<u8> = ToyVec::new();
    assert_eq!(v.pop(), None);
    assert_eq!(v.pop(), None);
    assert_eq!(v.len(), 0);
    v.push(9);
    assert_eq!(v.pop(), Some(9));
    assert_eq!(v.pop(), None);
    assert_eq!(v.capacity(), 1);
}

#[test]
fn growth_sequence_doubles_capacity() {
    let mut v: ToyVec<u64> = ToyVec::new();
    assert_eq!(v.capacity(), 0);
    v.push(100);
    assert_eq!(v.capacity(), 1);
    v.push(200);
    assert_eq!(v.capacity(), 2);
    v.push(300);
    v.push(400);
    assert_eq!(v.capacity(), 4);
    v.push(500);
    assert_eq!(v.len(), 5);
    assert_eq!(v.capacity(), 8);
    let expected = [100, 200, 300, 400, 500];
    for (i, e) in expected.iter().enumerate() {
        assert_eq!(v.get(i), Some(e));
    }
}

#[test]
fn growth_from_initial_capacity_doubles_it() {
    let mut v: ToyVec<u64> = ToyVec::with_capacity(3);
    v.push(1);
    v.push(2);
    v.push(3);
    assert_eq!(v.capacity(), 3);
    v.push(4);
    assert_eq!(v.capacity(), 6);
    assert_eq!(v.get(3), Some(&4));
}

#[test]
fn cursor_yields_in_order_then_stays_exhausted() {
    let mut v: ToyVec<i32> = ToyVec::new();
    v.push(10);
    v.push(20);
    v.push(30);
    let mut it = v.iter();
    assert_eq!(it.next(), Some(&10));
    assert_eq!(it.next(), Some(&20));
    assert_eq!(it.next(), Some(&30));
    assert_eq!(it.next(), None);
    assert_eq!(it.next(), None);
    assert_eq!(it.next(), None);
}

#[test]
fn cursor_over_empty_container_is_exhausted() {
    let v: ToyVec<i32> = ToyVec::with_capacity(4);
    let mut it = v.iter();
    assert_eq!(it.next(), None);
}

#[test]
fn get_or_falls_back_to_default_reference() {
    let mut v: ToyVec<String> = ToyVec::new();
    v.push("one".to_string());
    let fallback = "none".to_string();
    assert_eq!(v.get_or(0, &fallback), "one");
    assert_eq!(v.get_or(1, &fallback), "none");
}

#[test]
fn removed_slot_does_not_reappear() {
    let mut v: ToyVec<String> = ToyVec::new();
    v.push("a".to_string());
    v.push("b".to_string());
    assert_eq!(v.pop(), Some("b".to_string()));
    assert_eq!(v.get(1), None);
    v.push("c".to_string());
    assert_eq!(v.get(1), Some(&"c".to_string()));
    assert_eq!(v.capacity(), 2);
}
