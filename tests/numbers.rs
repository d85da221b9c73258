use cons_list::numbers::{is_big, Operations, VeryVerboseEnumOfThingsToDoWithNumbers, THRESHOLD};

#[test]
fn threshold_test() {
    assert!(is_big(16));
    assert!(is_big(11));
    assert!(!is_big(THRESHOLD));
    assert!(!is_big(-5));
    assert!(!is_big(i32::MIN));
    assert!(is_big(i32::MAX));
}

#[test]
fn operations_run() {
    assert_eq!(Operations::Add.run(3, 4), 7);
    assert_eq!(VeryVerboseEnumOfThingsToDoWithNumbers::Subtract.run(3, 4), -1);
    assert_eq!(Operations::Add.run(i32::MAX - 1, 1), i32::MAX);
    assert_eq!(Operations::Subtract.run(i32::MIN + 1, 1), i32::MIN);
}
