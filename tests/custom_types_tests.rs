use basics::custom_types::{
    inspect, is_big, Number, Operations, Person, Stage, VeryVerboseEnumOfThingsToDoWithNumbers,
    WebEvent, LANGUAGE, THRESHOLD,
};

#[test]
fn inspect_events() {
    assert_eq!(inspect(&WebEvent::KeyPress('x')), "pressed 'x'");
    assert_eq!(inspect(&WebEvent::Paste("my text".to_owned())), "pasted \"my text\"");
    assert_eq!(inspect(&WebEvent::Click { x: 20, y: 80 }), "clicked at x=20, y=80");
    assert_eq!(inspect(&WebEvent::PageLoad), "page loaded");
    assert_eq!(inspect(&WebEvent::PageUnload), "page unloaded");
    assert_eq!(
        inspect(&WebEvent::Click { x: i64::MIN, y: -1 }),
        "clicked at x=-9223372036854775808, y=-1"
    );
}

#[test]
fn operations_run() {
    let add = Operations::Add;
    assert_eq!(add.run(2, 3), 5);
    assert_eq!(VeryVerboseEnumOfThingsToDoWithNumbers::Subtract.run(2, 3), -1);
}

#[test]
fn stage_messages() {
    assert_eq!(Stage::Beginner.message(), "Beginners are starting their learning journey!");
    assert_eq!(Stage::Advanced.message(), "Advanced learners are mastering their subjects");
}

#[test]
fn c_like_enum_values() {
    assert_eq!(Number::Zero.to_i32(), 0);
    assert_eq!(Number::One.to_i32(), 1);
    assert_eq!(Number::Two.to_i32(), 2);
}

#[test]
fn constants_and_threshold() {
    assert_eq!(LANGUAGE, "Rust");
    assert_eq!(THRESHOLD, 10);
    assert!(is_big(16));
    assert!(!is_big(10));
    assert!(is_big(11));
}

#[test]
fn person_fields() {
    let name = String::from("Peter");
    let age = 27;
    let peter = Person { name, age };
    assert_eq!(peter.age, 27);
    assert_eq!(peter.name, "Peter");
}
