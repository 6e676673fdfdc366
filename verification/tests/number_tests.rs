use service_kit::number::Number;

#[test]
fn even_numbers_are_tagged_even() {
    assert_eq!(Number::from_i64(0), Number::Even(0));
    assert_eq!(Number::from_i64(2), Number::Even(2));
    assert_eq!(Number::from_i64(-4), Number::Even(-4));
    assert_eq!(Number::from_i64(i64::MIN), Number::Even(i64::MIN));
}

#[test]
fn odd_numbers_are_tagged_odd() {
    assert_eq!(Number::from_i64(1), Number::Odd(1));
    assert_eq!(Number::from_i64(-1), Number::Odd(-1));
    assert_eq!(Number::from_i64(-3), Number::Odd(-3));
    assert_eq!(Number::from_i64(i64::MAX), Number::Odd(i64::MAX));
}

#[test]
fn tag_keeps_the_number() {
    for num in [-7i64, -2, 0, 5, 10] {
        match Number::from_i64(num) {
            Number::Odd(v) => {
                assert_eq!(v, num);
                assert_ne!(v % 2, 0);
            }
            Number::Even(v) => {
                assert_eq!(v, num);
                assert_eq!(v % 2, 0);
            }
        }
    }
}
