use chat_relay::greet;

#[test]
fn greet_formats_the_name() {
    assert_eq!(greet("Bob"), "Hello, Bob! You've been greeted from Rust!");
}

#[test]
fn greet_with_empty_name() {
    assert_eq!(greet(""), "Hello, ! You've been greeted from Rust!");
}
