use greeter::{entry_line, greeting, greeting_line};

#[test]
fn greets_rustacean() {
    assert_eq!(greeting("Rustacean"), "Hello, Rustacean!");
}

#[test]
fn line_for_rustacean_ends_with_newline() {
    assert_eq!(greeting_line("Rustacean"), "Hello, Rustacean!\n");
}

#[test]
fn greets_other_names_exactly() {
    assert_eq!(greeting("world"), "Hello, world!");
    assert_eq!(greeting("a"), "Hello, a!");
    assert_eq!(greeting_line("crab"), "Hello, crab!\n");
}

#[test]
fn empty_name_keeps_the_frame() {
    assert_eq!(greeting(""), "Hello, !");
    assert_eq!(greeting_line(""), "Hello, !\n");
}

#[test]
fn repeated_calls_give_the_same_line() {
    let first = greeting("Rustacean");
    let second = greeting("Rustacean");
    assert_eq!(first, second);
    let once = greeting_line("crab");
    let twice = greeting_line("crab");
    assert_eq!(once, twice);
}

#[test]
fn entry_line_is_the_fixed_rustacean_line() {
    assert_eq!(entry_line(), "Hello, Rustacean!\n");
    assert_eq!(entry_line(), greeting_line("Rustacean"));
}
