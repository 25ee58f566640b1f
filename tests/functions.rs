use rust_basics::functions::{
    add, array_sum, calculate, check_positive, create_greeting, divide, increment, max, multiply,
};

#[test]
fn add_five_and_three() {
    assert_eq!(add(5, 3), 8);
}

#[test]
fn add_negative_values() {
    assert_eq!(add(-7, 2), -5);
}

#[test]
fn multiply_four_by_seven() {
    assert_eq!(multiply(4, 7), 28);
}

#[test]
fn calculate_product_plus_offset() {
    assert_eq!(calculate(10, 5, 2), 52);
}

#[test]
fn check_positive_rejects_negative() {
    assert_eq!(check_positive(-5), None);
}

#[test]
fn check_positive_keeps_positive_and_zero() {
    assert_eq!(check_positive(10), Some(10));
    assert_eq!(check_positive(0), Some(0));
}

#[test]
fn divide_seventeen_by_five() {
    assert_eq!(divide(17, 5), (3, 2));
}

#[test]
fn divide_rounds_toward_zero() {
    assert_eq!(divide(-17, 5), (-3, -2));
    assert_eq!(divide(17, -5), (-3, 2));
    assert_eq!(divide(-17, -5), (3, -2));
    assert_eq!(divide(i32::MIN, 1), (i32::MIN, 0));
}

#[test]
fn increment_twice() {
    let mut counter = 0;
    increment(&mut counter);
    increment(&mut counter);
    assert_eq!(counter, 2);
}

#[test]
fn greeting_for_bob() {
    assert_eq!(create_greeting("Bob"), "   Greeting: Hello, Bob! Welcome to Rust!");
}

#[test]
fn nested_calls() {
    assert_eq!(add(multiply(2, 3), multiply(4, 5)), 26);
}

#[test]
fn max_picks_larger() {
    assert_eq!(max(15, 23), 23);
    assert_eq!(max(100, 50), 100);
    assert_eq!(max(4, 4), 4);
}

#[test]
fn array_sum_one_to_five() {
    assert_eq!(array_sum(&[1, 2, 3, 4, 5]), 15);
}

#[test]
fn array_sum_empty_and_negative() {
    assert_eq!(array_sum(&[]), 0);
    assert_eq!(array_sum(&[-4, 10, -3]), 3);
}
