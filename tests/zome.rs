use doc_site::zome::{
    check_age_for_18a_movie, hello_holo, init, say_hello, validate, validate_agent,
    ValidateCallbackResult, ZomeError,
};

#[test]
fn say_hello_greets_by_name() {
    match say_hello("Alice".to_string()) {
        Ok(s) => assert_eq!(s, "Hello Alice!"),
        Err(_) => panic!("say_hello failed"),
    }
}

#[test]
fn say_hello_empty_name() {
    match say_hello(String::new()) {
        Ok(s) => assert_eq!(s, "Hello !"),
        Err(_) => panic!("say_hello failed"),
    }
}

#[test]
fn hello_holo_is_fixed() {
    match hello_holo() {
        Ok(s) => assert_eq!(s, "Hello Holo"),
        Err(_) => panic!("hello_holo failed"),
    }
}

#[test]
fn adults_may_watch() {
    assert!(check_age_for_18a_movie(18).is_ok());
    assert!(check_age_for_18a_movie(40).is_ok());
    assert!(check_age_for_18a_movie(u32::MAX).is_ok());
}

#[test]
fn minors_may_not_watch() {
    for age in [0u32, 1, 17] {
        match check_age_for_18a_movie(age) {
            Err(ZomeError::Guest(m)) => assert_eq!(m, "You are too young to watch this movie."),
            Ok(()) => panic!("age {} admitted", age),
        }
    }
}

#[test]
fn hooks_accept_everything() {
    assert!(init().is_ok());
    assert!(validate_agent().is_ok());
    assert!(matches!(validate(), Ok(ValidateCallbackResult::Valid)));
}
