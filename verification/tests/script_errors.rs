use edge_runtime::errors::{get_error_class_name, DenoRuntimeError};

#[test]
fn errors_are_compared_by_their_message() {
    let a = DenoRuntimeError::new("boom".to_string());
    let b = DenoRuntimeError::new("boom".to_string());
    let c = DenoRuntimeError::new("bang".to_string());
    assert!(a == b);
    assert!(b == a);
    assert!(a != c);
    assert_eq!(a.debug_text(), b.debug_text());
    assert_ne!(a.debug_text(), c.debug_text());
}

#[test]
fn debug_output_names_the_script_error() {
    assert_eq!(DenoRuntimeError::new("boom".to_string()).debug_text(), "[Js Error] boom");
    assert_eq!(DenoRuntimeError::new(String::new()).debug_text(), "[Js Error] ");
}

#[test]
fn unknown_errors_are_plain_errors() {
    assert_eq!(get_error_class_name(Some("TypeError")), "TypeError");
    assert_eq!(get_error_class_name(None), "Error");
}
