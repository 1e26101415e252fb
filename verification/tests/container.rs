use smacktivity::NonFunctional;

#[test]
fn absent_holds_nothing() {
    let nothing: NonFunctional<u32> = NonFunctional::Absent;
    assert!(nothing.is_none());
    let mut values = nothing.iter();
    assert_eq!(values.next(), None);
}

#[test]
fn empty_list_holds_nothing_like_absent() {
    let empty: NonFunctional<u32> = NonFunctional::Many(Vec::new());
    assert!(empty.is_none());
    let mut values = empty.iter();
    assert_eq!(values.next(), None);
    assert_eq!(values.next(), None);
}

#[test]
fn one_value_is_present() {
    let one = NonFunctional::One(7u32);
    assert!(!one.is_none());
    let mut values = one.iter();
    assert_eq!(values.next(), Some(&7));
    assert_eq!(values.next(), None);
    assert_eq!(values.next(), None);
}

#[test]
fn many_values_come_in_order() {
    let many = NonFunctional::Many(vec![3u32, 1, 2]);
    assert!(!many.is_none());
    let mut values = many.iter();
    assert_eq!(values.next(), Some(&3));
    assert_eq!(values.next(), Some(&1));
    assert_eq!(values.next(), Some(&2));
    assert_eq!(values.next(), None);
}

#[test]
fn traversal_can_be_started_again() {
    let many = NonFunctional::Many(vec![10u32, 20]);
    let mut first = many.iter();
    assert_eq!(first.next(), Some(&10));
    assert_eq!(first.next(), Some(&20));
    assert_eq!(first.next(), None);
    let mut second = many.iter();
    assert_eq!(second.next(), Some(&10));
    assert_eq!(second.index, 1);
}

#[test]
fn mutable_traversal_changes_values_in_place() {
    let mut many = NonFunctional::Many(vec![1u32, 2, 3]);
    let mut values = many.iter_mut();
    while let Some(value) = values.next() {
        *value = *value * 10;
    }
    assert_eq!(many, NonFunctional::Many(vec![10, 20, 30]));
}

#[test]
fn mutable_traversal_of_one_value() {
    let mut one = NonFunctional::One(String::from("a"));
    let mut values = one.iter_mut();
    match values.next() {
        Some(value) => value.push('b'),
        None => panic!("a value was expected"),
    }
    assert!(values.next().is_none());
    assert_eq!(one, NonFunctional::One(String::from("ab")));
}

#[test]
fn mutable_traversal_of_nothing() {
    let mut nothing: NonFunctional<u32> = NonFunctional::Absent;
    let mut values = nothing.iter_mut();
    assert!(values.next().is_none());
    assert_eq!(nothing, NonFunctional::Absent);
}

#[test]
fn from_vec_collapses_an_empty_list() {
    let nothing: NonFunctional<u32> = NonFunctional::from_vec(Vec::new());
    assert_eq!(nothing, NonFunctional::Absent);
    assert_eq!(NonFunctional::from_vec(vec![5u32]), NonFunctional::Many(vec![5]));
    assert_eq!(NonFunctional::from_vec(vec![5u32, 6]), NonFunctional::Many(vec![5, 6]));
}

#[test]
fn normalize_collapses_an_empty_list_only() {
    let mut empty: NonFunctional<u32> = NonFunctional::Many(Vec::new());
    empty.normalize();
    assert_eq!(empty, NonFunctional::Absent);
    let mut one = NonFunctional::One(1u32);
    one.normalize();
    assert_eq!(one, NonFunctional::One(1));
    let mut many = NonFunctional::Many(vec![1u32]);
    many.normalize();
    assert_eq!(many, NonFunctional::Many(vec![1]));
}

#[test]
fn default_container_holds_nothing() {
    let nothing: NonFunctional<String> = NonFunctional::default();
    assert_eq!(nothing, NonFunctional::Absent);
}

#[test]
fn only_an_empty_list_is_not_normal() {
    assert!(NonFunctional::<u32>::Absent.is_normalized());
    assert!(NonFunctional::One(1u32).is_normalized());
    assert!(NonFunctional::Many(vec![1u32]).is_normalized());
    assert!(!NonFunctional::<u32>::Many(Vec::new()).is_normalized());
}
