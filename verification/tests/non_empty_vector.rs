use dges_extract::utils::non_empty_vector::{AsSmallAsPossible, NonEmptyVector};

#[test]
fn new_vector_has_one_element() {
    let v = NonEmptyVector::new(7u32);
    assert_eq!(v.len(), 1);
    assert_eq!(*v.last(), 7);
    assert_eq!(*v.get(0), 7);
}

#[test]
fn pushes_grow_length_one_by_one() {
    let mut v = NonEmptyVector::new(0u32);
    for k in 1..=5u32 {
        v.push(k);
        assert_eq!(v.len(), 1 + k as usize);
        assert_eq!(*v.last(), k);
    }
    assert_eq!(v.into_vec(), vec![0, 1, 2, 3, 4, 5]);
}

#[test]
fn pop_fails_only_at_one_element() {
    let mut v = NonEmptyVector::new(1u32);
    v.push(2);
    v.push(3);
    assert_eq!(v.pop(), Ok(3));
    assert_eq!(v.len(), 2);
    assert_eq!(v.pop(), Ok(2));
    assert_eq!(v.len(), 1);
    assert_eq!(v.pop(), Err(AsSmallAsPossible));
    assert_eq!(v.len(), 1);
    assert_eq!(*v.last(), 1);
}

#[test]
fn pop_never_shrinks_below_one() {
    let mut v = NonEmptyVector::new(10u32);
    v.push(20);
    for _ in 0..5 {
        let _ = v.pop();
        assert!(v.len() >= 1);
    }
    assert_eq!(v.len(), 1);
    assert_eq!(*v.last(), 10);
}

#[test]
fn last_mut_edits_the_final_element() {
    let mut v = NonEmptyVector::new(String::from("a"));
    v.push(String::from("b"));
    *v.last_mut() = String::from("c");
    assert_eq!(*v.last(), "c");
    assert_eq!(*v.get(0), "a");
}

#[test]
fn underflow_condition_describes_itself() {
    assert_eq!(
        AsSmallAsPossible.message(),
        "NonEmptyVector only has 1 element"
    );
}
