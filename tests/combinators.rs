use std::cell::Cell;

use bool_ext::BoolExt;
use bool_ext::Error;

#[test]
fn contains_two_gives_present_and_success() {
    let v = vec![1, 2, 3];
    assert_eq!(v.contains(&2).as_option(), Some(()));
    assert_eq!(v.contains(&2).ok_or_err("Foo", "Err"), Ok("Foo"));
}

#[test]
fn contains_four_gives_absent_and_failure() {
    let v = vec![1, 2, 3];
    assert_eq!(v.contains(&4).as_option(), None);
    assert_eq!(v.contains(&4).ok_or_err("Foo", "Err"), Err("Err"));
}

#[test]
fn map_on_true_never_calls_false_thunk() {
    let true_calls = Cell::new(0u32);
    let false_calls = Cell::new(0u32);
    let r = true.map(
        || {
            true_calls.set(true_calls.get() + 1);
            "yes"
        },
        || {
            false_calls.set(false_calls.get() + 1);
            "no"
        },
    );
    assert_eq!(r, "yes");
    assert_eq!(true_calls.get(), 1);
    assert_eq!(false_calls.get(), 0);
}

#[test]
fn map_on_false_never_calls_true_thunk() {
    let true_calls = Cell::new(0u32);
    let r = false.map(
        || {
            true_calls.set(true_calls.get() + 1);
            1
        },
        || 2,
    );
    assert_eq!(r, 2);
    assert_eq!(true_calls.get(), 0);
}

#[test]
fn some_is_present_iff_true() {
    assert_eq!(true.some(42), Some(42));
    assert_eq!(false.some(42), None);
    assert_eq!(true.some("v"), Some("v"));
    assert_eq!(false.some(String::from("v")), None);
}

#[test]
fn option_false_variants_negate() {
    for b in [true, false] {
        assert_eq!(b.as_option_false(), (!b).as_option());
        assert_eq!(b.some_false(7), (!b).some(7));
        assert_eq!(b.some_with_false(|| 7), (!b).some_with(|| 7));
    }
    assert_eq!(true.as_option_false(), None);
    assert_eq!(false.as_option_false(), Some(()));
    assert_eq!(false.some_false('x'), Some('x'));
    assert_eq!(true.some_with_false(|| 'x'), None);
}

#[test]
fn result_false_variants_negate() {
    for b in [true, false] {
        assert_eq!(b.as_result_false(), (!b).as_result());
        assert_eq!(b.ok_or_err_false(1, "e"), (!b).ok_or_err(1, "e"));
        assert_eq!(
            b.ok_or_err_false_with(|| 1, || "e"),
            (!b).ok_or_err_with(|| 1, || "e")
        );
    }
    assert_eq!(true.as_result_false(), Err(()));
    assert_eq!(false.as_result_false(), Ok(()));
    assert_eq!(true.ok_or_err_false(1, "e"), Err("e"));
    assert_eq!(false.ok_or_err_false_with(|| 1, || "e"), Ok(1));
}

#[test]
fn ok_false_polarities_as_observed() {
    assert_eq!(true.ok_false("e"), Err("e"));
    assert_eq!(false.ok_false("e"), Ok(()));
    assert_eq!(true.ok_false_with(|| "e"), Ok(()));
    assert_eq!(false.ok_false_with(|| "e"), Err("e"));
}

#[test]
fn result_adapters_on_both_values() {
    assert_eq!(true.as_result(), Ok(()));
    assert_eq!(false.as_result(), Err(()));
    assert_eq!(true.ok(5u8), Ok(5u8));
    assert_eq!(false.ok(5u8), Err(()));
    assert_eq!(true.ok_with(|| 5u8), Ok(5u8));
    assert_eq!(false.ok_with(|| 5u8), Err(()));
    assert_eq!(true.ok_or_err_with(|| 1, || "e"), Ok(1));
    assert_eq!(false.ok_or_err_with(|| 1, || "e"), Err("e"));
    assert_eq!(true.some_with(|| 3), Some(3));
    assert_eq!(false.some_with(|| 3), None);
}

fn counted(calls: &Cell<u32>) -> u32 {
    calls.set(calls.get() + 1);
    calls.get()
}

#[test]
fn lazy_thunks_run_once_on_their_branch_only() {
    let calls = Cell::new(0u32);
    let _ = true.some_with(|| counted(&calls));
    assert_eq!(calls.get(), 1);
    let _ = false.some_with(|| counted(&calls));
    assert_eq!(calls.get(), 1);
    let _ = false.some_with_false(|| counted(&calls));
    assert_eq!(calls.get(), 2);
    let _ = true.some_with_false(|| counted(&calls));
    assert_eq!(calls.get(), 2);
    let _ = true.ok_with(|| counted(&calls));
    assert_eq!(calls.get(), 3);
    let _ = false.ok_with(|| counted(&calls));
    assert_eq!(calls.get(), 3);
    let _ = false.ok_false_with(|| counted(&calls));
    assert_eq!(calls.get(), 4);
    let _ = true.ok_false_with(|| counted(&calls));
    assert_eq!(calls.get(), 4);
}

#[test]
fn paired_thunks_run_only_the_selected_one() {
    let ok_calls = Cell::new(0u32);
    let err_calls = Cell::new(0u32);
    let r = true.ok_or_err_with(|| counted(&ok_calls), || counted(&err_calls));
    assert_eq!(r, Ok(1));
    assert_eq!((ok_calls.get(), err_calls.get()), (1, 0));
    let r = false.ok_or_err_with(|| counted(&ok_calls), || counted(&err_calls));
    assert_eq!(r, Err(1));
    assert_eq!((ok_calls.get(), err_calls.get()), (1, 1));
    let r = true.ok_or_err_false_with(|| counted(&ok_calls), || counted(&err_calls));
    assert_eq!(r, Err(2));
    assert_eq!((ok_calls.get(), err_calls.get()), (1, 2));
    let r = false.ok_or_err_false_with(|| counted(&ok_calls), || counted(&err_calls));
    assert_eq!(r, Ok(2));
    assert_eq!((ok_calls.get(), err_calls.get()), (2, 2));
}

#[test]
fn do_true_runs_action_once_iff_true() {
    let mut runs = 0u32;
    assert!(true.do_true(|| runs += 1));
    assert_eq!(runs, 1);
    assert!(!false.do_true(|| runs += 1));
    assert_eq!(runs, 1);
}

#[test]
fn do_false_runs_action_once_iff_false() {
    let mut runs = 0u32;
    assert!(!false.do_false(|| runs += 1));
    assert_eq!(runs, 1);
    assert!(true.do_false(|| runs += 1));
    assert_eq!(runs, 1);
}

#[test]
fn do_true_mutates_captured_state() {
    let mut v = vec![1, 2, 3];
    let found = v.contains(&2);
    assert!(found.do_true(|| v.iter_mut().for_each(|el| *el = -*el)));
    assert_eq!(v, vec![-1, -2, -3]);
    let missing = v.contains(&4);
    assert!(!missing.do_false(|| v.push(4)));
    assert_eq!(v, vec![-1, -2, -3, 4]);
}

#[test]
fn expect_passes_on_holding_conditions() {
    true.expect("expected true");
    false.expect_false("expected false");
    let v = vec![1, 2, 3];
    v.contains(&2).expect("2 is in the vector");
    v.contains(&42).expect_false("42 is not in the vector");
}

#[test]
fn error_kind_compares_equal_to_itself() {
    let e = Error::SampleError;
    assert_eq!(e, Error::SampleError);
    assert_eq!(format!("{:?}", e), "SampleError");
}
