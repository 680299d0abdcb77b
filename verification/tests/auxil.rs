use lorecore::c_api::auxil::{
    char_pointer_to_optional_string, char_pointer_to_string, char_ptr,
    optional_string_to_char_pointer, string_to_char_pointer, CharPointer,
};
use lorecore::errors::LoreCoreError;

fn null() -> CharPointer {
    CharPointer { target: None }
}

#[test]
fn auxil_test_char_pointer_to_string() {
    let string = "Eyjafjallajökull!";
    let char_pointer = string_to_char_pointer(string);
    let result = char_pointer_to_string(&char_pointer);
    assert_eq!(result.unwrap(), string);
}

#[test]
fn test_null_pointer_to_string_error() {
    let null_pointer = null();
    let result = char_pointer_to_string(&null_pointer);
    assert!(
        result.is_err(),
        "Expected an error when converting a null pointer to a string"
    );
}

#[test]
fn auxil_test_null_pointer_to_string() {
    let char_pointer = null();
    let result = char_pointer_to_string(&char_pointer);
    assert!(result.is_err());
}

#[test]
fn auxil_test_empty_string_to_char_pointer() {
    let string = "";
    let char_pointer = string_to_char_pointer(string);
    let result = char_pointer_to_string(&char_pointer);
    assert_eq!(result.unwrap(), string);
}

#[test]
fn test_char_pointer_to_optional_string() {
    let string = "Eyjafjallajökull!";
    let char_pointer = string_to_char_pointer(string);
    let result = char_pointer_to_optional_string(&char_pointer);
    assert_eq!(result.unwrap(), Some(string.to_string()));
}

#[test]
fn test_null_pointer_to_optional_string() {
    let char_pointer = null();
    let result = char_pointer_to_optional_string(&char_pointer);
    assert!(result.is_err());
}

#[test]
fn auxil_test_string_to_char_pointer() {
    let string = "Eyjafjallajökull!";
    let char_pointer = string_to_char_pointer(string);
    let result = char_pointer_to_string(&char_pointer);
    assert_eq!(result.unwrap(), string);
}

#[test]
fn test_optional_string_to_char_pointer() {
    let string_opt = Some("Eyjafjallajökull!".to_string());
    let char_pointer = optional_string_to_char_pointer(&string_opt);
    let result = char_pointer_to_optional_string(&char_pointer);
    assert_eq!(result.unwrap(), string_opt);
}

#[test]
fn test_empty_optional_string_to_char_pointer() {
    let string_opt = Some("".to_string());
    let char_pointer = optional_string_to_char_pointer(&string_opt);
    let result = char_pointer_to_optional_string(&char_pointer);
    assert_eq!(result.unwrap(), None);
}

#[test]
fn test_none_optional_string_to_char_pointer() {
    let string_opt = None;
    let char_pointer = optional_string_to_char_pointer(&string_opt);
    let result = char_pointer_to_optional_string(&char_pointer);
    assert_eq!(result.unwrap(), None);
}

#[test]
fn string_goes_out_as_its_utf8_bytes() {
    assert_eq!(
        string_to_char_pointer("aö€"),
        CharPointer {
            target: Some(vec![0x61, 0xc3, 0xb6, 0xe2, 0x82, 0xac])
        }
    );
    assert_eq!(char_ptr(""), CharPointer { target: Some(vec![]) });
    assert_eq!(
        optional_string_to_char_pointer(&None),
        CharPointer { target: Some(vec![]) }
    );
}

#[test]
fn string_with_a_zero_byte_goes_out_empty() {
    assert_eq!(
        string_to_char_pointer("ab\0cd"),
        CharPointer { target: Some(vec![]) }
    );
    assert_eq!(
        string_to_char_pointer("\0"),
        CharPointer { target: Some(vec![]) }
    );
}

#[test]
fn null_pointer_is_an_input_error_with_its_message() {
    match char_pointer_to_string(&null()) {
        Err(LoreCoreError::InputError(message)) => {
            assert_eq!(message, "Characterpointer is null.")
        }
        other => panic!("unexpected {:?}", other),
    }
    match char_pointer_to_optional_string(&null()) {
        Err(LoreCoreError::InputError(message)) => {
            assert_eq!(message, "Characterpointer is null.")
        }
        other => panic!("unexpected {:?}", other),
    }
}

#[test]
fn invalid_utf8_is_an_input_error_with_its_message() {
    let pointer = CharPointer {
        target: Some(vec![0x61, 0xff, 0x62]),
    };
    match char_pointer_to_string(&pointer) {
        Err(LoreCoreError::InputError(message)) => assert_eq!(
            message,
            "Could not convert characterpointer to string: invalid utf-8 sequence of 1 bytes from index 1"
        ),
        other => panic!("unexpected {:?}", other),
    }
    let truncated = CharPointer {
        target: Some(vec![0xe2, 0x82]),
    };
    match char_pointer_to_string(&truncated) {
        Err(LoreCoreError::InputError(message)) => assert_eq!(
            message,
            "Could not convert characterpointer to string: incomplete utf-8 byte sequence from index 0"
        ),
        other => panic!("unexpected {:?}", other),
    }
}

#[test]
fn bytes_come_in_as_the_text_they_encode() {
    let pointer = CharPointer {
        target: Some(vec![0x61, 0xc3, 0xb6, 0xe2, 0x82, 0xac]),
    };
    assert_eq!(char_pointer_to_string(&pointer).unwrap(), "aö€");
    assert_eq!(
        char_pointer_to_optional_string(&pointer).unwrap(),
        Some("aö€".to_string())
    );
    let empty = CharPointer {
        target: Some(vec![]),
    };
    assert_eq!(char_pointer_to_string(&empty).unwrap(), "");
    assert_eq!(char_pointer_to_optional_string(&empty).unwrap(), None);
}

#[test]
fn texts_with_quotes_backslashes_and_percent_signs_round_trip() {
    for text in ["\\_\"'%$&!{[]}", "100%", "a\\b", "\"quoted\"", "tab\there", "line\nbreak"] {
        let pointer = string_to_char_pointer(text);
        assert_eq!(char_pointer_to_string(&pointer).unwrap(), text);
    }
}
