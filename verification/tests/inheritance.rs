use matrix_mul::errors::ErrorCategory;
use matrix_mul::inheritance::{BaseClass, SubClassA};

#[test]
fn derived_built_with_two() {
    let derived = SubClassA::new(2).unwrap();
    assert_eq!(derived.get_id(), Ok(68));
    assert_eq!(derived.methoda(), Ok(2));
    assert_eq!(BaseClass::new(2).methoda(), Ok(2));
}

#[test]
fn base_returns_its_id() {
    for id in [0, 1, -1, 34, i32::MAX, i32::MIN] {
        assert_eq!(BaseClass::new(id).methoda(), Ok(id));
    }
}

#[test]
fn derived_answers_as_its_base_does() {
    for id in [0, 1, -1, 2, 1000, -1000, 63161283, -63161283] {
        let derived = SubClassA::new(id).unwrap();
        let base = BaseClass::new(id);
        assert_eq!(derived.methoda(), base.methoda());
        assert_eq!(derived.as_super().methoda(), base.methoda());
        assert_eq!(*derived.as_super(), base);
        assert_eq!(derived.methoda(), Ok(id));
    }
}

#[test]
fn derived_field_is_thirty_four_times_the_id() {
    assert_eq!(SubClassA::new(0).unwrap().get_id(), Ok(0));
    assert_eq!(SubClassA::new(1).unwrap().get_id(), Ok(34));
    assert_eq!(SubClassA::new(-3).unwrap().get_id(), Ok(-102));
    assert_eq!(SubClassA::new(63161283).unwrap().get_id(), Ok(2147483622));
    assert_eq!(SubClassA::new(-63161283).unwrap().get_id(), Ok(-2147483622));
}

#[test]
fn constructor_rejects_an_id_out_of_range() {
    for id in [63161284, -63161284, 100000000, i32::MAX, i32::MIN] {
        let error = SubClassA::new(id).unwrap_err();
        assert_eq!(error.category(), ErrorCategory::InvalidArgument);
        assert_eq!(error.declared_category(), Some(ErrorCategory::InvalidArgument));
        assert_eq!(error.message(), "id is out of range");
    }
}

#[test]
fn set_then_get_returns_the_written_value() {
    let mut derived = SubClassA::new(2).unwrap();
    for value in [0, 5, -5, 68, i32::MAX, i32::MIN] {
        assert_eq!(derived.set_id(value), Ok(()));
        assert_eq!(derived.get_id(), Ok(value));
        assert_eq!(derived.get_id(), Ok(value));
    }
}

#[test]
fn writing_the_same_value_twice_changes_nothing() {
    let mut once = SubClassA::new(3).unwrap();
    once.set_id(11).unwrap();
    let mut twice = SubClassA::new(3).unwrap();
    twice.set_id(11).unwrap();
    twice.set_id(11).unwrap();
    assert_eq!(once, twice);
}

#[test]
fn set_id_leaves_the_base_alone() {
    let mut derived = SubClassA::new(2).unwrap();
    derived.set_id(-9).unwrap();
    assert_eq!(derived.methoda(), Ok(2));
    assert_eq!(*derived.as_super(), BaseClass::new(2));
}
