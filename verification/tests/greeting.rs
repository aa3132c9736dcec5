use window_controls::greet;

#[test]
fn greets_world_exactly() {
    assert_eq!(greet("World"), "Hello, World! You've been greeted from Rust!");
}

#[test]
fn greeting_is_repeatable() {
    assert_eq!(greet("World"), greet("World"));
}

#[test]
fn greets_the_empty_name() {
    assert_eq!(greet(""), "Hello, ! You've been greeted from Rust!");
}

#[test]
fn greets_a_name_with_spaces() {
    assert_eq!(
        greet("Ada Lovelace"),
        "Hello, Ada Lovelace! You've been greeted from Rust!"
    );
}
