use text_flow::utils::{b, slice_end_str};

#[test]
fn test_slice_end_str() {
    assert_eq!("asdf", slice_end_str("1asdf2".to_string(), 1, 1))
}

#[test]
fn test_b() {
    assert_eq!(Box::new("asdf"), b("asdf"))
}

#[test]
fn slice_end_str_keeps_whole_text() {
    assert_eq!("abc", slice_end_str("abc".to_string(), 0, 0));
    assert_eq!("", slice_end_str("abc".to_string(), 1, 2));
}
