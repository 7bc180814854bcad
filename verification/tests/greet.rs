use greet_bootstrap::greet::{command_name, greet, invoke};

#[test]
fn greet_world() {
    assert_eq!(greet("World"), "Hello, World! You've been greeted from Rust!");
}

#[test]
fn greet_empty() {
    assert_eq!(greet(""), "Hello, ! You've been greeted from Rust!");
}

#[test]
fn greet_embedded_punctuation() {
    assert_eq!(
        greet("O'Brien, Jr."),
        "Hello, O'Brien, Jr.! You've been greeted from Rust!"
    );
}

#[test]
fn greet_non_ascii() {
    assert_eq!(greet("caf\u{e9} \u{4e16}\u{754c}"), "Hello, caf\u{e9} \u{4e16}\u{754c}! You've been greeted from Rust!");
}

#[test]
fn greet_no_trimming() {
    assert_eq!(greet("  spaced  "), "Hello,   spaced  ! You've been greeted from Rust!");
}

#[test]
fn greet_repeated_calls_identical() {
    let first = greet("World");
    let second = greet("World");
    assert_eq!(first, second);
}

#[test]
fn command_name_is_greet() {
    assert_eq!(command_name(), "greet");
}

#[test]
fn invoke_dispatches_greet() {
    assert_eq!(
        invoke("greet", "World"),
        Some(String::from("Hello, World! You've been greeted from Rust!"))
    );
}

#[test]
fn invoke_rejects_unknown_commands() {
    assert_eq!(invoke("status", "World"), None);
    assert_eq!(invoke("", "World"), None);
    assert_eq!(invoke("Greet", "World"), None);
    assert_eq!(invoke("greet ", "World"), None);
}
