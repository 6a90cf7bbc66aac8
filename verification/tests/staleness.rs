use cbuild::stale::{earlier, is_stale, StalenessCheck};

fn s(text: &str) -> String {
    String::from(text)
}

#[test]
fn object_newer_than_everything_is_fresh() {
    assert!(!is_stale(Some(10), Some(20), &vec![Some(5), Some(19)]));
    assert!(!is_stale(Some(10), Some(11), &Vec::new()));
}

#[test]
fn object_as_new_as_its_source_is_fresh() {
    assert!(!is_stale(Some(10), Some(10), &Vec::new()));
    assert!(!is_stale(Some(10), Some(10), &vec![Some(9)]));
    assert!(!is_stale(Some(0), Some(0), &Vec::new()));
}

#[test]
fn missing_object_is_stale() {
    assert!(is_stale(Some(10), None, &Vec::new()));
    assert!(is_stale(None, None, &Vec::new()));
    assert!(is_stale(Some(0), None, &vec![Some(1)]));
    assert!(is_stale(Some(-5), None, &vec![None]));
}

#[test]
fn backdated_object_is_stale() {
    assert!(is_stale(Some(10), Some(9), &Vec::new()));
    assert!(is_stale(Some(-10), Some(-11), &Vec::new()));
}

#[test]
fn missing_source_makes_nothing_stale() {
    assert!(!is_stale(None, Some(0), &Vec::new()));
    assert!(!is_stale(None, Some(-7), &vec![None]));
}

#[test]
fn touched_header_makes_stale() {
    assert!(!is_stale(Some(10), Some(20), &vec![Some(5), Some(6)]));
    assert!(is_stale(Some(10), Some(20), &vec![Some(5), Some(21)]));
    assert!(is_stale(Some(10), Some(20), &vec![Some(20), Some(6)]));
}

#[test]
fn missing_header_never_makes_stale() {
    assert!(!is_stale(Some(10), Some(20), &vec![None, Some(6), None]));
    assert!(!is_stale(Some(-3), Some(0), &vec![None]));
    assert!(!is_stale(Some(-3), Some(-2), &vec![None]));
}

#[test]
fn missing_file_is_older_than_any_file() {
    assert!(earlier(None, Some(i128::MIN)));
    assert!(earlier(None, Some(0)));
    assert!(!earlier(None, None));
    assert!(!earlier(Some(0), None));
    assert!(earlier(Some(-1), Some(0)));
    assert!(!earlier(Some(7), Some(7)));
    assert!(!earlier(Some(8), Some(7)));
}

#[test]
fn judgement_asks_source_object_and_headers_in_turn() {
    let mut check = StalenessCheck::new(s("a.c"), s("a.o"), vec![s("x.h"), s("y.h")]);
    assert_eq!(check.verdict(), None);
    assert_eq!(check.next_path(), Some(&s("a.c")));
    check.observe(Some(10));
    assert_eq!(check.next_path(), Some(&s("a.o")));
    check.observe(Some(20));
    assert_eq!(check.verdict(), None);
    assert_eq!(check.next_path(), Some(&s("x.h")));
    check.observe(Some(3));
    assert_eq!(check.next_path(), Some(&s("y.h")));
    check.observe(None);
    assert_eq!(check.verdict(), Some(false));
    assert_eq!(check.next_path(), None);
}

#[test]
fn judgement_stops_at_the_first_header_that_is_not_older() {
    let mut check = StalenessCheck::new(s("a.c"), s("a.o"), vec![s("x.h"), s("y.h")]);
    check.observe(Some(10));
    check.observe(Some(20));
    check.observe(Some(20));
    assert_eq!(check.verdict(), Some(true));
    assert_eq!(check.next_path(), None);
    check.observe(Some(0));
    assert_eq!(check.verdict(), Some(true));
}

#[test]
fn judgement_skips_the_headers_of_a_missing_object() {
    let mut check = StalenessCheck::new(s("a.c"), s("a.o"), vec![s("x.h")]);
    check.observe(Some(10));
    check.observe(None);
    assert_eq!(check.verdict(), Some(true));
    assert_eq!(check.next_path(), None);
}

#[test]
fn judgement_skips_the_headers_of_an_old_object() {
    let mut check = StalenessCheck::new(s("a.c"), s("a.o"), vec![s("x.h")]);
    check.observe(Some(10));
    check.observe(Some(9));
    assert_eq!(check.verdict(), Some(true));
}

#[test]
fn judgement_without_headers_ends_with_the_object() {
    let mut check = StalenessCheck::new(s("a.c"), s("a.o"), Vec::new());
    check.observe(Some(10));
    assert_eq!(check.verdict(), None);
    check.observe(Some(10));
    assert_eq!(check.verdict(), Some(false));
}
