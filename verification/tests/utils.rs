use movie_feed::serde_utils::{
    bool_false, bool_true, default_bool, default_u128, default_u16, default_u32, default_u64,
    default_u8, default_usize, deserialize_potentially_empty_string, vec_zero_size,
};
use movie_feed::size::{DEFAULT_SIZE, MAX_SIZE};

const DEFAULT_WITHIN_MAX: () = assert!(DEFAULT_SIZE <= MAX_SIZE);

const ALWAYS: () = assert!(true);

fn text_field(json: &str, name: &str) -> Option<String> {
    let value: serde_json::Value = serde_json::from_str(json).unwrap();
    let field = value.get(name).cloned().unwrap_or(serde_json::Value::Null);
    let text: Option<String> = serde_json::from_value(field).unwrap();
    deserialize_potentially_empty_string(text)
}

#[test]
fn test_const_assert() {
    let () = ALWAYS;
    let () = DEFAULT_WITHIN_MAX;
}

#[test]
fn test_default_unsized_ints() {
    assert_eq!(default_u8::<{ u8::MAX }>(), u8::MAX);
    assert_eq!(default_u16::<{ u16::MAX }>(), u16::MAX);
    assert_eq!(default_u32::<{ u32::MAX }>(), u32::MAX);
    assert_eq!(default_u64::<{ u64::MAX }>(), u64::MAX);
    assert_eq!(default_u128::<{ u128::MAX }>(), u128::MAX);
    assert_eq!(default_usize::<{ usize::MAX }>(), usize::MAX);
}

#[test]
fn test_default_bool() {
    assert!(default_bool::<true>());
    assert!(!default_bool::<false>());
}

#[test]
fn test_deserialize_potentially_empty_string() {
    let non_existent = text_field(r#"{}"#, "foo");
    assert_eq!(non_existent, None);

    let null = text_field(r#"{"foo": null}"#, "foo");
    assert_eq!(null, None);

    let empty_string = text_field(r#"{"foo": ""}"#, "foo");
    assert_eq!(empty_string, None);

    let non_empty_string = text_field(r#"{"foo": "bar"}"#, "foo");
    assert_eq!(non_empty_string, Some("bar".to_string()));
}

#[test]
fn flag_defaults_and_empty_list() {
    assert!(bool_true());
    assert!(!bool_false());
    let list: Vec<String> = vec_zero_size();
    assert!(list.is_empty());
    assert_eq!(list.capacity(), 0);
    assert_eq!(default_usize::<20>(), 20);
}

#[test]
fn blank_text_is_kept() {
    assert_eq!(
        deserialize_potentially_empty_string(Some(" ".to_string())),
        Some(" ".to_string())
    );
}
