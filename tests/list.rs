use cons_list::decimal::push_decimal;
use cons_list::list::List;

fn built_from(values: &[u32]) -> List {
    let mut list = List::new();
    for &v in values {
        list = list.prepend(v);
    }
    list
}

#[test]
fn empty_list() {
    let list = List::new();
    assert_eq!(list.len(), 0);
    assert_eq!(list.stringify(), "Nil");
}

#[test]
fn three_values_in_order() {
    let list = built_from(&[1, 2, 3]);
    assert_eq!(list.stringify(), "3, 2, 1, Nil");
    assert_eq!(list.len(), 3);
}

#[test]
fn single_value() {
    let list = List::new().prepend(5);
    assert_eq!(list.stringify(), "5, Nil");
    assert_eq!(list.len(), 1);
}

#[test]
fn length_counts_prepends() {
    for n in 0..50u32 {
        let values: Vec<u32> = (0..n).map(|i| i.wrapping_mul(2654435761)).collect();
        assert_eq!(built_from(&values).len(), n);
    }
}

#[test]
fn prepend_adds_one() {
    let list = built_from(&[7, 8, 9, 10]);
    let before = list.len();
    let after = list.prepend(11).len();
    assert_eq!(after, 1 + before);
}

#[test]
fn queries_are_repeatable() {
    let list = built_from(&[4, 40, 400]);
    let first_len = list.len();
    let first_text = list.stringify();
    assert_eq!(list.len(), first_len);
    assert_eq!(list.stringify(), first_text);
    assert_eq!(first_text, "400, 40, 4, Nil");
    let longer = list.prepend(1);
    assert_eq!(longer.len(), 4);
    assert_eq!(longer.stringify(), "1, 400, 40, 4, Nil");
}

#[test]
fn extreme_values() {
    let list = built_from(&[u32::MAX, 0, 10]);
    assert_eq!(list.stringify(), "10, 0, 4294967295, Nil");
}

#[test]
fn long_list() {
    let values: Vec<u32> = (0..5_000u32).collect();
    let list = built_from(&values);
    assert_eq!(list.len(), 5_000);
    let text = list.stringify();
    assert!(text.starts_with("4999, 4998, "));
    assert!(text.ends_with("1, 0, Nil"));
}

#[test]
fn decimal_digits() {
    let cases: [(u32, &str); 6] = [
        (0, "0"),
        (9, "9"),
        (10, "10"),
        (1203, "1203"),
        (1_000_000, "1000000"),
        (u32::MAX, "4294967295"),
    ];
    for (n, expected) in cases {
        let mut out = String::from("x");
        push_decimal(&mut out, n);
        assert_eq!(out, format!("x{}", expected));
    }
}
