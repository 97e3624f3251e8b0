use basics::matching::describe_u8;
use basics::matching::{add_ten, value_by_dereference};
use basics::matching::{
    age, binary_of, classify_array, classify_triple, describe_age, describe_answer, describe_number,
    some_number, ArrayArm, Color, Foo, Temperature, TripleArm,
};

#[test]
fn thirteen_is_a_teen() {
    assert_eq!(describe_number(13), "A teen");
    assert_eq!(describe_number(1), "One!");
    assert_eq!(describe_number(11), "This is a prime!");
    assert_eq!(describe_number(20), "Ain't special");
    assert_eq!(binary_of(true), 1);
    assert_eq!(binary_of(false), 0);
}

#[test]
fn triple_last_is_two_wins() {
    let arm = classify_triple((5, 6, 2));
    assert_eq!(arm, TripleArm::LastTwo);
    assert_eq!(arm.message(), "Last is 2 and the rest doesn't matter");
}

#[test]
fn triple_arm_order() {
    assert_eq!(classify_triple((0, 6, 2)), TripleArm::FirstZero { y: 6, z: 2 });
    assert_eq!(classify_triple((1, 6, 2)), TripleArm::FirstOne);
    assert_eq!(classify_triple((3, 6, 4)), TripleArm::FirstThreeLastFour);
    assert_eq!(classify_triple((3, 6, 2)), TripleArm::LastTwo);
    assert_eq!(classify_triple((9, 9, 9)), TripleArm::Other);
    assert_eq!(
        classify_triple((0, -1, 7)).message(),
        "First is 0, y is -1 and z is 7"
    );
}

#[test]
fn array_starting_with_one() {
    let arm = classify_array([1, -2, 6]);
    assert_eq!(arm, ArrayArm::StartsOne { third: 6 });
    assert_eq!(arm.message(), "array[0] = 1, array[2] = 6 and array[1] was ignored");
    assert_eq!(
        classify_array([3, 5, 8]).message(),
        "array[0] = 3, array[1] = 5 and the other elements were [8]"
    );
    assert_eq!(
        classify_array([7, 5, 8]).message(),
        "array[0] = 7, middle = [5], array[2] = 8"
    );
}

#[test]
fn rgb_colour_message() {
    assert_eq!(Color::RGB(122, 17, 40).describe(), "Red: 122, green: 17, and blue: 40!");
    assert_eq!(Color::Green.describe(), "The color is green");
    assert_eq!(
        Color::CMYK(1, 2, 3, 4).describe(),
        "Cyan: 1, magenta: 2, yellow: 3, key (black): 4!"
    );
}

#[test]
fn guarded_temperature() {
    assert_eq!(Temperature::Celsius(35).describe(), "35C is above 30 Celsius");
    assert_eq!(Temperature::Celsius(30).describe(), "30C is equal to or below 30 Celsius");
    assert_eq!(Temperature::Fahrenheit(87).describe(), "87F is above 86 Fahrenheit");
    assert_eq!(Temperature::Fahrenheit(-40).describe(), "-40F is equal to or below 86 Fahrenheit");
}

#[test]
fn binding_ages_and_answers() {
    assert_eq!(describe_age(age()), "I'm a teen of age 15");
    assert_eq!(describe_age(0), "I haven't celebrated my first birthday yet");
    assert_eq!(describe_age(12), "I'm a child of age 12");
    assert_eq!(describe_age(20), "I'm an old person of age 20");
    assert_eq!(describe_answer(some_number()), Some("Not interesting... 40".to_string()));
    assert_eq!(describe_answer(Some(42)), Some("The answer is 42".to_string()));
    assert_eq!(describe_answer(None), None);
}

#[test]
fn struct_destructuring() {
    let foo = Foo { x: (1, 2), y: 3 };
    assert_eq!(foo.describe(), "First of x is 1, b = 2, y = 3");
    let foo = Foo { x: (2, 2), y: 3 };
    assert_eq!(foo.describe(), "y = 3, we don't care about x");
}

#[test]
fn guarded_u8_arms() {
    assert_eq!(describe_u8(4), "Greater than zero");
    assert_eq!(describe_u8(0), "Zero");
    assert_eq!(describe_u8(255), "Greater than zero");
}

#[test]
fn reference_patterns() {
    assert_eq!(value_by_dereference(&4), 4);
    let mut mut_value = 6;
    add_ten(&mut mut_value);
    assert_eq!(mut_value, 16);
}
