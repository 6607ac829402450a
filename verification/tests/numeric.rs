use matrix_mul::numeric::{sum_as_string, to_decimal, triple, version};

#[test]
fn sum_is_written_in_decimal() {
    assert_eq!(sum_as_string(1, 2), Ok(String::from("3")));
    assert_eq!(sum_as_string(0, 0), Ok(String::from("0")));
    assert_eq!(sum_as_string(5, 7), Ok(String::from("12")));
    assert_eq!(sum_as_string(999, 1), Ok(String::from("1000")));
    assert_eq!(sum_as_string(123456, 654321), Ok(String::from("777777")));
}

#[test]
fn sum_up_to_the_largest_word() {
    assert_eq!(sum_as_string(usize::MAX, 0), Ok(usize::MAX.to_string()));
    assert_eq!(sum_as_string(usize::MAX - 1, 1), Ok(usize::MAX.to_string()));
}

#[test]
fn decimal_of_single_digits() {
    let digits = ["0", "1", "2", "3", "4", "5", "6", "7", "8", "9"];
    for (n, text) in digits.iter().enumerate() {
        assert_eq!(to_decimal(n), *text);
    }
}

#[test]
fn decimal_has_no_leading_zero() {
    assert_eq!(to_decimal(10), "10");
    assert_eq!(to_decimal(100), "100");
    assert_eq!(to_decimal(1009), "1009");
    assert_eq!(to_decimal(90210), "90210");
}

#[test]
fn decimal_agrees_with_the_standard_rendering() {
    let mut n: usize = 1;
    for _ in 0..18 {
        assert_eq!(to_decimal(n), n.to_string());
        assert_eq!(to_decimal(n - 1), (n - 1).to_string());
        n *= 10;
    }
    assert_eq!(to_decimal(usize::MAX), usize::MAX.to_string());
}

#[test]
fn triple_multiplies_by_three() {
    assert_eq!(triple(0), 0);
    assert_eq!(triple(1), 3);
    assert_eq!(triple(14), 42);
    assert_eq!(triple(usize::MAX / 3), usize::MAX / 3 * 3);
}

#[test]
fn version_is_one() {
    assert_eq!(version(), 1);
}
