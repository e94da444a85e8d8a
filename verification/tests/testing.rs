use thread_pool::testing::{add_two, greeting, internal_adder, Guess, Rectangle};

#[test]
fn exploration() {
    assert_eq!(2 + 2, 4);
}

#[test]
fn larger_can_hold_smaller() {
    let larger = Rectangle {
        width: 8,
        height: 7,
    };
    let smaller = Rectangle {
        width: 5,
        height: 1,
    };

    assert!(larger.can_hold(&smaller));
}

#[test]
fn smaller_cannot_hold_larger() {
    let larger = Rectangle {
        width: 8,
        height: 7,
    };
    let smaller = Rectangle {
        width: 5,
        height: 1,
    };

    assert!(!smaller.can_hold(&larger));
}

#[test]
fn mod_it_adds_two() {
    assert_eq!(4, add_two(2));
}

#[test]
fn greeting_contains_name() {
    let result = greeting("Carol");
    assert!(
        result.contains("Carol"),
        "Greeeting did not contain name, value was `{}`",
        result
    );
}

#[test]
fn greeting_is_exact() {
    assert_eq!(greeting("Carol"), "Hello Carol!");
    assert_eq!(greeting(""), "Hello !");
}

#[test]
fn it_works() -> Result<(), String> {
    if 2 + 2 == 4 {
        Ok(())
    } else {
        Err(String::from("two plus two does not equal four"))
    }
}

#[test]
fn add_two_and_two() {
    assert_eq!(4, add_two(2));
}

#[test]
fn add_three_and_two() {
    assert_eq!(5, add_two(3));
}

#[test]
fn one_hundred() {
    assert_eq!(102, add_two(100));
}

#[test]
fn internal() {
    assert_eq!(4, internal_adder(2, 2));
}

#[test]
fn guess_keeps_its_value() {
    assert_eq!(Guess::new(1).value(), 1);
    assert_eq!(Guess::new(57).value(), 57);
    assert_eq!(Guess::new(100).value(), 100);
}

#[test]
fn integration_test_it_adds_two() {
    assert_eq!(4, thread_pool::add_two(2));
}
