use easy_gnome::error::SettingsError;
use easy_gnome::value::{find, DynValue};

#[test]
fn string_is_read_from_a_string_only() {
    assert_eq!(DynValue::Str("abc".to_string()).try_as_str(), Ok(&"abc".to_string()));
    assert_eq!(DynValue::Str(String::new()).try_as_str(), Ok(&String::new()));
    for value in [
        DynValue::Bool(true),
        DynValue::Int(1),
        DynValue::UInt(1),
        DynValue::Double(0),
        DynValue::Tuple(vec![]),
        DynValue::Dict(vec![]),
        DynValue::Other,
    ] {
        assert_eq!(value.try_as_str(), Err(SettingsError::DecodeFailure));
    }
}

#[test]
fn double_is_read_from_a_double_only() {
    assert_eq!(DynValue::Double(1.5f64.to_bits()).try_as_double_bits(), Ok(1.5f64.to_bits()));
    for value in [DynValue::Bool(true), DynValue::Int(1), DynValue::UInt(1), DynValue::Str("1.5".to_string())] {
        assert_eq!(value.try_as_double_bits(), Err(SettingsError::DecodeFailure));
    }
}

#[test]
fn find_gives_the_first_entry_with_the_key() {
    let entries = vec![
        ("a".to_string(), DynValue::Int(1)),
        ("b".to_string(), DynValue::Int(2)),
        ("a".to_string(), DynValue::Int(3)),
    ];
    assert_eq!(find(&entries, "a"), Some(&DynValue::Int(1)));
    assert_eq!(find(&entries, "b"), Some(&DynValue::Int(2)));
    assert_eq!(find(&entries, "c"), None);
    assert_eq!(find(&entries, "A"), None);
    assert_eq!(find(&Vec::new(), "a"), None);
}

#[test]
fn tuple_and_dict_are_read_from_their_own_shape_only() {
    let tuple = DynValue::Tuple(vec![DynValue::Int(1), DynValue::Bool(false)]);
    let dict = DynValue::Dict(vec![("k".to_string(), DynValue::Int(1))]);
    assert_eq!(tuple.try_as_tuple(), Ok(&vec![DynValue::Int(1), DynValue::Bool(false)]));
    assert_eq!(dict.try_as_dict(), Ok(&vec![("k".to_string(), DynValue::Int(1))]));
    assert_eq!(dict.try_as_tuple(), Err(SettingsError::DecodeFailure));
    assert_eq!(tuple.try_as_dict(), Err(SettingsError::DecodeFailure));
    assert_eq!(DynValue::Other.try_as_tuple(), Err(SettingsError::DecodeFailure));
    assert_eq!(DynValue::Str("x".to_string()).try_as_dict(), Err(SettingsError::DecodeFailure));
}
