//! Texts across the boundary: null-terminated byte strings in UTF-8.

use crate::errors::LoreCoreError;
use vstd::prelude::*;
use vstd::slice::slice_to_vec;
use vstd::utf8::decode_utf8;
use vstd::utf8::encode_utf8;
use vstd::utf8::encode_utf8_decode_utf8;
use vstd::utf8::encode_utf8_valid_utf8;
use vstd::utf8::valid_utf8;

verus! {

/// What a character pointer of the C interface points to: nothing, where it
/// is null, or the bytes of a C string, without the terminating zero.
///
/// Null never stands for an absent value. The absent text is the empty
/// string; null is the caller's mistake.
#[derive(Debug, PartialEq, Eq)]
pub struct CharPointer {
    pub target: Option<Vec<u8>>,
}

impl View for CharPointer {
    type V = Option<Seq<u8>>;

    open spec fn view(&self) -> Option<Seq<u8>> {
        match self.target {
            Some(bytes) => Some(bytes@),
            None => None,
        }
    }
}

impl Clone for CharPointer {
    fn clone(&self) -> (copy: Self)
        ensures
            copy@ == self@,
    {
        match &self.target {
            Some(bytes) => CharPointer { target: Some(slice_to_vec(bytes.as_slice())) },
            None => CharPointer { target: None },
        }
    }
}

/// Whether `text` can be a C string: it holds no zero byte, which would end
/// the string early.
pub open spec fn fits_c_string(text: Seq<char>) -> bool {
    !encode_utf8(text).contains(0u8)
}

/// The bytes of the C string for `text`: its UTF-8 encoding, and nothing
/// where it does not fit.
pub open spec fn c_bytes(text: Seq<char>) -> Seq<u8> {
    if fits_c_string(text) {
        encode_utf8(text)
    } else {
        Seq::empty()
    }
}

/// What the standard library says of bytes that are no UTF-8: where the
/// first invalid sequence stands and how long it is.
pub uninterp spec fn utf8_error_text(bytes: Seq<u8>) -> Seq<char>;

/// The text behind a character pointer, or the message that says why there
/// is none: the pointer is null, or the bytes are no UTF-8.
pub open spec fn native_text(pointer: Option<Seq<u8>>) -> Result<Seq<char>, Seq<char>> {
    match pointer {
        Some(bytes) => if valid_utf8(bytes) {
            Ok(decode_utf8(bytes))
        } else {
            Err("Could not convert characterpointer to string: "@ + utf8_error_text(bytes))
        },
        None => Err("Characterpointer is null."@),
    }
}

/// Whether `outcome` is `expected` as a result of the library: the value
/// with that view, or an input error with that message.
pub open spec fn is_input_outcome<T: View>(
    outcome: Result<T, LoreCoreError>,
    expected: Result<T::V, Seq<char>>,
) -> bool {
    match expected {
        Ok(value) => outcome is Ok && outcome->Ok_0@ == value,
        Err(message) => outcome is Err && outcome->Err_0 is InputError
            && outcome->Err_0.message() == message,
    }
}

/// `std::str::from_utf8`, with what it returns made owned: the text that
/// `bytes` encode where they are valid UTF-8, else the error's message, as
/// its `Display` writes it. The contract says that the text encodes to
/// `bytes` again, and gives the message a name.
#[verifier::external_body]
fn text_of_bytes(bytes: &[u8]) -> (text: Result<String, String>)
    ensures
        match text {
            Ok(text) => valid_utf8(bytes@) && encode_utf8(text@) == bytes@,
            Err(reason) => !valid_utf8(bytes@) && reason@ == utf8_error_text(bytes@),
        },
{
    match std::str::from_utf8(bytes) {
        Ok(text) => Ok(text.to_owned()),
        Err(error) => Err(error.to_string()),
    }
}

/// The text behind `string`, copied. A null pointer and bytes that are no
/// UTF-8 are input errors.
pub fn char_pointer_to_string(string: &CharPointer) -> (text: Result<String, LoreCoreError>)
    ensures
        is_input_outcome(text, native_text(string@)),
{
    match &string.target {
        None => Err(LoreCoreError::InputError(String::from_str("Characterpointer is null."))),
        Some(bytes) => match text_of_bytes(bytes.as_slice()) {
            Ok(text) => {
                proof {
                    encode_utf8_decode_utf8(text@);
                }
                Ok(text)
            },
            Err(reason) => {
                let mut message = String::from_str(
                    "Could not convert characterpointer to string: ",
                );
                message.append(reason.as_str());
                Err(LoreCoreError::InputError(message))
            },
        },
    }
}

/// The optional text behind a pointer: the empty string is the absent text.
pub open spec fn native_optional_text(pointer: Option<Seq<u8>>) -> Result<
    Option<Seq<char>>,
    Seq<char>,
> {
    match native_text(pointer) {
        Ok(text) => if text.len() == 0 {
            Ok(None)
        } else {
            Ok(Some(text))
        },
        Err(message) => Err(message),
    }
}

/// The optional text behind `string`: `None` for the empty string. A null
/// pointer is an input error here too.
pub fn char_pointer_to_optional_string(string: &CharPointer) -> (text: Result<
    Option<String>,
    LoreCoreError,
>)
    ensures
        match native_optional_text(string@) {
            Ok(expected) => text is Ok && crate::text::optional_text(text->Ok_0) == expected,
            Err(message) => text is Err && text->Err_0 is InputError && text->Err_0.message()
                == message,
        },
{
    match char_pointer_to_string(string) {
        Ok(text) => if text.as_str().is_empty() {
            Ok(None)
        } else {
            Ok(Some(text))
        },
        Err(error) => Err(error),
    }
}

/// The C string for `string`, newly allocated: its bytes in UTF-8. A text
/// with a zero byte in it cannot be a C string; the empty string goes out in
/// its place.
pub fn string_to_char_pointer(string: &str) -> (pointer: CharPointer)
    ensures
        pointer@ == Some(c_bytes(string@)),
{
    let bytes = string.as_bytes();
    let mut i: usize = 0;
    while i < bytes.len()
        invariant
            i <= bytes.len(),
            bytes@ == encode_utf8(string@),
            forall|k: int| 0 <= k < i ==> bytes@[k] != 0u8,
        decreases bytes.len() - i,
    {
        if bytes[i] == 0 {
            assert(bytes@.contains(0u8));
            return CharPointer { target: Some(Vec::new()) };
        }
        i += 1;
    }
    CharPointer { target: Some(slice_to_vec(bytes)) }
}

/// The C string for an optional text: the empty string for the absent one.
pub fn optional_string_to_char_pointer(string: &Option<String>) -> (pointer: CharPointer)
    ensures
        pointer@ == Some(
            c_bytes(
                match string {
                    Some(string) => string@,
                    None => Seq::empty(),
                },
            ),
        ),
{
    match string {
        Some(string) => string_to_char_pointer(string.as_str()),
        None => {
            let pointer = string_to_char_pointer("");
            proof {
                reveal_strlit("");
                assert(""@ =~= Seq::<char>::empty());
            }
            pointer
        },
    }
}

/// The C string for a message.
pub fn char_ptr(message: &str) -> (pointer: CharPointer)
    ensures
        pointer@ == Some(c_bytes(message@)),
{
    string_to_char_pointer(message)
}

/// A text that fits a C string comes back from the boundary as it went out.
pub proof fn lemma_text_round_trip(text: Seq<char>)
    requires
        fits_c_string(text),
    ensures
        native_text(Some(c_bytes(text))) == Ok::<Seq<char>, Seq<char>>(text),
{
    encode_utf8_valid_utf8(text);
    encode_utf8_decode_utf8(text);
}

/// The empty text fits a C string, and goes out as the empty string.
pub proof fn lemma_empty_text_fits()
    ensures
        fits_c_string(Seq::empty()),
        c_bytes(Seq::empty()) == Seq::<u8>::empty(),
{
    assert(encode_utf8(Seq::<char>::empty()) =~= Seq::<u8>::empty());
}

} // verus!
