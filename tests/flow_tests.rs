use basics::flow::{
    block_value, doubled_at_ten, fizzbuzz, fizzbuzz_for, fizzbuzz_while, greet, hail_all, scale,
    sign_phrase,
};

#[test]
fn sign_and_scale_of_nine() {
    assert_eq!(sign_phrase(9), "is positive");
    assert_eq!(sign_phrase(-3), "is negative");
    assert_eq!(sign_phrase(0), "is zero");
    assert_eq!(scale(9), 90);
}

#[test]
fn scale_of_big_numbers_halves_toward_zero() {
    assert_eq!(scale(10), 5);
    assert_eq!(scale(-10), -5);
    assert_eq!(scale(-11), -5);
    assert_eq!(scale(-9), -90);
    assert_eq!(scale(i32::MIN), -1073741824);
    assert_eq!(scale(i32::MAX), 1073741823);
}

#[test]
fn block_of_five_is_155() {
    assert_eq!(block_value(5), 155);
    assert_eq!(block_value(-2), -6);
}

#[test]
fn loop_result_is_twenty() {
    assert_eq!(doubled_at_ten(), 20);
}

#[test]
fn fizzbuzz_samples() {
    assert_eq!(fizzbuzz(15), "fizzbuzz");
    assert_eq!(fizzbuzz(9), "fizz");
    assert_eq!(fizzbuzz(10), "buzz");
    assert_eq!(fizzbuzz(7), "7");
    assert_eq!(fizzbuzz(100), "buzz");
}

#[test]
fn fizzbuzz_loops_agree() {
    let a = fizzbuzz_while(100);
    let b = fizzbuzz_for(100);
    assert_eq!(a.len(), 100);
    assert_eq!(a, b);
    assert_eq!(a[14], "fizzbuzz");
    assert_eq!(a[8], "fizz");
    assert_eq!(a[9], "buzz");
    assert_eq!(a[6], "7");
    assert_eq!(a[0], "1");
    assert!(fizzbuzz_while(0).is_empty());
    assert!(fizzbuzz_for(0).is_empty());
}

#[test]
fn greetings_by_borrow() {
    let names = vec!["Bob", "Frank", "Ferris"];
    let lines: Vec<String> = names.iter().map(|n| greet(n)).collect();
    assert_eq!(lines, vec!["Hello Bob", "Hello Frank", "There is a rustacean among us!"]);
    assert_eq!(names.len(), 3);
    assert_eq!(greet("Ferr"), "Hello Ferr");
}

#[test]
fn mutable_iteration_rewrites_names() {
    let mut names = vec!["Bob", "Frank", "Ferris"];
    hail_all(&mut names);
    assert_eq!(names, vec!["Hello", "Hello", "There is a rustacean among us!"]);
}

#[test]
fn counting_loop_skips_three_and_stops_at_five() {
    assert_eq!(
        basics::flow::count_to_five(),
        vec!["1", "2", "Three...", "4", "5", "OK, that's enough"]
    );
}

#[test]
fn labelled_break_leaves_both_loops() {
    assert_eq!(
        basics::flow::nested_loops(),
        vec!["Entered the outer loop", "Entered the inner loop", "Exited the outer loop"]
    );
}

#[test]
fn greetings_by_value() {
    let names = vec!["Bob", "Frank", "Ferris"];
    let lines: Vec<String> = names.into_iter().map(greet).collect();
    assert_eq!(lines, vec!["Hello Bob", "Hello Frank", "There is a rustacean among us!"]);
}
