use desktop_shell::greeting::greet;

#[test]
fn greets_by_name() {
    assert_eq!(greet("World"), "Hello, World! You've been greeted from Rust!");
}

#[test]
fn greets_the_empty_name() {
    assert_eq!(greet(""), "Hello, ! You've been greeted from Rust!");
}

#[test]
fn greeting_keeps_the_name_as_it_is() {
    assert_eq!(greet("{} \u{3053}\u{3093}"), "Hello, {} \u{3053}\u{3093}! You've been greeted from Rust!");
    assert_eq!(greet(" a b "), "Hello,  a b ! You've been greeted from Rust!");
}
