use gateway_stub::report::{shutdown_message, startup_message};

#[test]
fn startup_message_is_the_fixed_line() {
    assert_eq!(startup_message(), "Foobar !!!");
}

#[test]
fn shutdown_message_after_a_clean_stop() {
    assert_eq!(shutdown_message(Ok(())), "Rocket shut down gracefully.");
}

#[test]
fn shutdown_message_names_the_error() {
    assert_eq!(
        shutdown_message(Err("address in use".to_string())),
        "Rocket had an error: address in use"
    );
    assert_eq!(shutdown_message(Err(String::new())), "Rocket had an error: ");
}
