use pomodoro_client::greeting::greet;

#[test]
fn greet_names_the_guest() {
    assert_eq!(greet("World"), "Hello, World! You've been greeted from Rust!");
}

#[test]
fn greet_with_an_empty_name_keeps_both_fixed_parts() {
    assert_eq!(greet(""), "Hello, ! You've been greeted from Rust!");
}

#[test]
fn greet_takes_the_name_as_given() {
    assert_eq!(
        greet("  Zoë {} \"x\"\n"),
        "Hello,   Zoë {} \"x\"\n! You've been greeted from Rust!"
    );
}

#[test]
fn greet_adds_the_fixed_parts_and_nothing_else() {
    let name = "番茄".repeat(100);
    let text = greet(&name);
    assert!(text.starts_with("Hello, "));
    assert!(text.ends_with("! You've been greeted from Rust!"));
    assert_eq!(
        text.chars().count(),
        "Hello, ".len() + 200 + "! You've been greeted from Rust!".len()
    );
    assert_eq!(&text["Hello, ".len()..text.len() - "! You've been greeted from Rust!".len()], name);
}

#[test]
fn greet_does_not_hand_the_name_back_unchanged() {
    assert_ne!(greet("Ada"), "Ada");
    assert_ne!(greet("Ada"), greet("Bob"));
}
