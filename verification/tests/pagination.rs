use rust_at_one::services::{PageWindow, Pagination};

fn pagination(number: Option<i64>, count: Option<i64>) -> Pagination {
    Pagination { number, count }
}

fn window(input: Pagination) -> (i64, i64) {
    let w = input.as_find_options();
    (w.skip, w.limit)
}

#[test]
fn pagination_as_find_options() {
    assert_eq!(window(pagination(None, None)), (0, 10));
    assert_eq!(window(pagination(Some(0), None)), (0, 10));
    assert_eq!(window(pagination(Some(1), None)), (10, 10));
    assert_eq!(window(pagination(Some(0), Some(100))), (0, 100));
    assert_eq!(window(pagination(Some(1), Some(100))), (100, 100));
    assert_eq!(window(pagination(None, Some(10))), (0, 10));
}

#[test]
fn defaults_apply_when_nothing_is_given() {
    let w = pagination(None, None).as_find_options();
    assert_eq!(w, PageWindow { skip: 0, limit: 10 });
}

#[test]
fn page_number_multiplies_the_resolved_size() {
    assert_eq!(window(pagination(Some(3), Some(7))), (21, 7));
    assert_eq!(window(pagination(Some(2), Some(1))), (2, 1));
    assert_eq!(window(pagination(Some(1), Some(2))), (2, 2));
}

#[test]
fn negative_size_falls_back_to_default() {
    assert_eq!(window(pagination(None, Some(-1))), (0, 10));
    assert_eq!(window(pagination(Some(2), Some(-5))), (20, 10));
    assert_eq!(window(pagination(Some(2), Some(i64::MIN))), (20, 10));
}

#[test]
fn negative_number_falls_back_to_default() {
    assert_eq!(window(pagination(Some(-1), None)), (0, 10));
    assert_eq!(window(pagination(Some(-3), Some(25))), (0, 25));
}

#[test]
fn zero_size_gives_zero_skip() {
    assert_eq!(window(pagination(Some(9), Some(0))), (0, 0));
}

#[test]
fn checked_window_agrees_where_it_fits() {
    let cases = vec![
        (None, None),
        (Some(1), None),
        (Some(1), Some(100)),
        (Some(-4), Some(-4)),
        (Some(i64::MAX), Some(1)),
        (Some(1), Some(i64::MAX)),
    ];
    for (number, count) in cases {
        let p = pagination(number, count);
        assert_eq!(p.checked_find_options(), Some(p.as_find_options()));
    }
}

#[test]
fn checked_window_refuses_an_offset_that_does_not_fit() {
    assert_eq!(pagination(Some(i64::MAX), Some(2)).checked_find_options(), None);
    assert_eq!(pagination(Some(i64::MAX), None).checked_find_options(), None);
    assert_eq!(pagination(Some(2), Some(i64::MAX)).checked_find_options(), None);
}
