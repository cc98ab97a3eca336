use voicelab::inject::{describe_failure, inject_text};

#[test]
fn empty_message_gets_fixed_description() {
    let description = describe_failure(String::new());
    assert_eq!(description, "input synthesis failed");
}

#[test]
fn given_message_passes_through() {
    let description = describe_failure(String::from("no display session"));
    assert_eq!(description, "no display session");
}

#[test]
fn inject_hello_succeeds_or_explains() {
    match inject_text(String::from("hello")) {
        Ok(()) => {}
        Err(message) => assert!(!message.is_empty()),
    }
}

#[test]
fn inject_empty_text_succeeds_or_explains() {
    match inject_text(String::new()) {
        Ok(()) => {}
        Err(message) => assert!(!message.is_empty()),
    }
}

#[test]
fn repeated_injection_is_accepted() {
    for _ in 0..2 {
        match inject_text(String::from("hello")) {
            Ok(()) => {}
            Err(message) => assert!(!message.is_empty()),
        }
    }
}
