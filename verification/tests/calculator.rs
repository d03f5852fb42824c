use rig_tool_macro::calculator::{
    add, answer_secret_question, divide, how_many_rs, multiply, power, subtract, sum_numbers,
    PowInput, PowResult,
};

#[test]
fn add_gives_the_sum() {
    assert_eq!(add(5, 2), Ok(7));
    assert_eq!(add(0, 0), Ok(0));
    assert_eq!(add(u64::MAX, 0), Ok(u64::MAX));
}

#[test]
fn add_fails_on_overflow() {
    assert_eq!(add(u64::MAX, 1), Err("attempt to add with overflow".to_string()));
}

#[test]
fn subtract_gives_the_difference() {
    assert_eq!(subtract(5, 2), Ok(3));
    assert_eq!(subtract(2, 5), Ok(-3));
    assert_eq!(subtract(i64::MIN, 1), Err("attempt to subtract with overflow".to_string()));
}

#[test]
fn multiply_gives_the_product() {
    assert_eq!(multiply(5, 2), Ok(10));
    assert_eq!(multiply(-5, 2), Ok(-10));
    assert_eq!(multiply(i64::MAX, 2), Err("attempt to multiply with overflow".to_string()));
}

#[test]
fn divide_rounds_toward_zero() {
    assert_eq!(divide(5, 2), Ok(2));
    assert_eq!(divide(-5, 2), Ok(-2));
    assert_eq!(divide(5, -2), Ok(-2));
    assert_eq!(divide(-5, -2), Ok(2));
    assert_eq!(divide(0, -7), Ok(0));
}

#[test]
fn divide_fails_on_zero() {
    assert_eq!(divide(5, 0), Err("attempt to divide by zero".to_string()));
    assert_eq!(divide(0, 0), Err("attempt to divide by zero".to_string()));
}

#[test]
fn divide_fails_on_overflow() {
    assert_eq!(divide(i64::MIN, -1), Err("attempt to divide with overflow".to_string()));
    assert_eq!(divide(i64::MIN, 1), Ok(i64::MIN));
}

#[test]
fn power_gives_the_power() {
    assert_eq!(power(PowInput { a: 2, b: 10 }), Ok(PowResult { input: (2, 10), result: 1024 }));
    assert_eq!(power(PowInput { a: -2, b: 3 }), Ok(PowResult { input: (-2, 3), result: -8 }));
    assert_eq!(power(PowInput { a: 7, b: 0 }), Ok(PowResult { input: (7, 0), result: 1 }));
    assert_eq!(power(PowInput { a: 0, b: 0 }), Ok(PowResult { input: (0, 0), result: 1 }));
    assert_eq!(power(PowInput { a: 0, b: 5 }), Ok(PowResult { input: (0, 5), result: 0 }));
    assert_eq!(
        power(PowInput { a: -2, b: 63 }),
        Ok(PowResult { input: (-2, 63), result: i64::MIN })
    );
}

#[test]
fn power_fails_on_overflow() {
    assert_eq!(
        power(PowInput { a: 2, b: 63 }),
        Err("attempt to multiply with overflow".to_string())
    );
    assert_eq!(
        power(PowInput { a: 10, b: 4_000_000_000 }),
        Err("attempt to multiply with overflow".to_string())
    );
}

#[test]
fn power_reads_the_low_bits_of_the_exponent() {
    assert_eq!(power(PowInput { a: 1, b: -1 }), Ok(PowResult { input: (1, -1), result: 1 }));
    assert_eq!(power(PowInput { a: -1, b: -1 }), Ok(PowResult { input: (-1, -1), result: -1 }));
    assert_eq!(power(PowInput { a: -1, b: -2 }), Ok(PowResult { input: (-1, -2), result: 1 }));
    assert_eq!(
        power(PowInput { a: 3, b: 4_294_967_298 }),
        Ok(PowResult { input: (3, 4_294_967_298), result: 9 })
    );
}

#[test]
fn how_many_rs_counts_both_cases() {
    assert_eq!(how_many_rs("strawberry".to_string()), Ok(3));
    assert_eq!(how_many_rs("RrRr".to_string()), Ok(4));
    assert_eq!(how_many_rs("".to_string()), Ok(0));
    assert_eq!(how_many_rs("no such lette\u{158}".to_string()), Ok(0));
}

#[test]
fn the_secret_answer() {
    assert_eq!(answer_secret_question(), Ok((false, false, true, false, false)));
}

#[test]
fn sum_numbers_gives_the_sum() {
    assert_eq!(sum_numbers(vec![1, 2, 3, 4, 5]), Ok(15));
    assert_eq!(sum_numbers(vec![]), Ok(0));
    assert_eq!(sum_numbers(vec![-4]), Ok(-4));
}

#[test]
fn sum_numbers_fails_where_a_sum_on_the_way_overflows() {
    assert_eq!(
        sum_numbers(vec![i64::MAX, 1, -1]),
        Err("attempt to add with overflow".to_string())
    );
    assert_eq!(sum_numbers(vec![i64::MAX, -1, 1]), Ok(i64::MAX));
}
