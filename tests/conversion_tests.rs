use basics::conversion::{int_to_string, parse_i32, parse_u64, Circle, EvenNumber, Number};
use basics::text::ParseIntError;

#[test]
fn number_from_integer() {
    let num = Number::from(19);
    assert_eq!(num.value, 19);
    let int: i32 = 5;
    let num: Number = int.into();
    assert_eq!(num, Number { value: 5 });
}

#[test]
fn even_number_try_from() {
    assert_eq!(EvenNumber::try_from(8), Ok(EvenNumber(8)));
    assert_eq!(EvenNumber::try_from(5), Err(()));
}

#[test]
fn even_number_try_into() {
    let result: Result<EvenNumber, ()> = 8i32.try_into();
    assert_eq!(result, Ok(EvenNumber(8)));
    let result: Result<EvenNumber, ()> = 5i32.try_into();
    assert_eq!(result, Err(()));
}

#[test]
fn even_number_negative_and_extremes() {
    assert_eq!(EvenNumber::try_from(-4), Ok(EvenNumber(-4)));
    assert_eq!(EvenNumber::try_from(-3), Err(()));
    assert_eq!(EvenNumber::try_from(0), Ok(EvenNumber(0)));
    assert_eq!(EvenNumber::try_from(i32::MIN), Ok(EvenNumber(i32::MIN)));
    assert_eq!(EvenNumber::try_from(i32::MAX), Err(()));
}

#[test]
fn circle_renders_radius() {
    let circle = Circle { radius: 6 };
    assert_eq!(circle.to_string(), "Circle of radius 6");
    assert_eq!(Circle { radius: -12 }.to_string(), "Circle of radius -12");
}

#[test]
fn parse_five_and_ten() {
    let parsed: i32 = parse_i32("5").unwrap();
    let turbo_parsed = parse_i32("10").unwrap();
    assert_eq!(parsed, 5);
    assert_eq!(turbo_parsed, 10);
    assert_eq!(parsed + turbo_parsed, 15);
}

#[test]
fn parse_round_trip() {
    for n in [0, 5, 10, -7, 123456, i32::MAX, i32::MIN] {
        assert_eq!(parse_i32(&int_to_string(n)), Ok(n));
    }
    assert_eq!(int_to_string(-2147483648), "-2147483648");
}

#[test]
fn parse_errors() {
    assert_eq!(parse_i32(""), Err(ParseIntError::Empty));
    assert_eq!(parse_i32("-"), Err(ParseIntError::InvalidDigit));
    assert_eq!(parse_i32("+"), Err(ParseIntError::InvalidDigit));
    assert_eq!(parse_i32("1a"), Err(ParseIntError::InvalidDigit));
    assert_eq!(parse_i32(" 1"), Err(ParseIntError::InvalidDigit));
    assert_eq!(parse_i32("2147483648"), Err(ParseIntError::PosOverflow));
    assert_eq!(parse_i32("-2147483649"), Err(ParseIntError::NegOverflow));
    assert_eq!(parse_i32("+42"), Ok(42));
    assert_eq!(parse_i32("-0007"), Ok(-7));
}

#[test]
fn parse_unsigned() {
    assert_eq!(parse_u64("18446744073709551615"), Ok(u64::MAX));
    assert_eq!(parse_u64("18446744073709551616"), Err(ParseIntError::PosOverflow));
    assert_eq!(parse_u64("-1"), Err(ParseIntError::InvalidDigit));
    assert_eq!(parse_u64("+3"), Ok(3));
    assert_eq!(parse_u64(""), Err(ParseIntError::Empty));
}
