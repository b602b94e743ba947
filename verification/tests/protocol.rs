use rincon::arango::protocol::{Handle, HandleKey, HandleOption};

#[test]
fn get_handle_key_from_str() {
    let handle_key = HandleKey::from_string("index id", "12341".to_owned()).unwrap();
    assert_eq!(String::from("12341"), handle_key.deconstruct());
}

#[test]
fn get_handle_key_from_str_with_slash_character_in_the_middle() {
    let result = HandleKey::from_string("index id", "mine/12341".to_owned());
    assert_eq!(Err("A index id key must not contain any '/' character, but got: \"mine/12341\"".to_owned()), result);
}

#[test]
fn get_handle_key_from_str_with_slash_character_at_the_beginning() {
    let result = HandleKey::from_string("index id", "/12341".to_owned());
    assert_eq!(Err("A index id key must not contain any '/' character, but got: \"/12341\"".to_owned()), result);
}

#[test]
fn get_handle_key_from_str_with_slash_character_at_the_end() {
    let result = HandleKey::from_string("index id", "12341/".to_owned());
    assert_eq!(Err("A index id key must not contain any '/' character, but got: \"12341/\"".to_owned()), result);
}

#[test]
fn get_handle_from_str() {
    let handle = Handle::from_str("index id", "mine/12341").unwrap();
    assert_eq!("mine/12341", &handle.to_string());
    let (context, key) = handle.deconstruct();
    assert_eq!(String::from("mine"), context);
    assert_eq!(String::from("12341"), key);
}

#[test]
fn get_handle_from_str_without_context() {
    let result = Handle::from_str("index id", "12341");
    assert_eq!(Err("index id does not have a context: \"12341\"".to_owned()), result);
}

#[test]
fn get_handle_from_str_with_empty_context() {
    let result = Handle::from_str("index id", "/12341");
    assert_eq!(Err("Invalid index id: \"/12341\"".to_owned()), result);
}

#[test]
fn get_handle_from_str_with_empty_key() {
    let result = Handle::from_str("index id", "mine/");
    assert_eq!(Err("Invalid index id: \"mine/\"".to_owned()), result);
}

#[test]
fn get_handle_option_from_str_with_context_and_key() {
    let handle_option = HandleOption::from_str("index id", "mine/12341").unwrap();
    let handle = Handle::from_str("index id", "mine/12341").unwrap();
    assert_eq!(HandleOption::Qualified(handle), handle_option);
}

#[test]
fn get_handle_option_from_str_with_key_only() {
    let handle_option = HandleOption::from_str("index id", "12341").unwrap();
    let key = HandleKey::from_string("index id", "12341".to_owned()).unwrap();
    assert_eq!(HandleOption::Local(key), handle_option);
}

#[test]
fn handle_text_is_read_back_as_the_same_handle() {
    let handle = Handle::from_str("document id", "users/4711").unwrap();
    let again = Handle::from_str("document id", &handle.to_string()).unwrap();
    assert_eq!(handle, again);
}

#[test]
fn handle_with_two_slashes_is_refused() {
    let result = Handle::from_str("index id", "a/b/c");
    assert!(result.is_err());
}
