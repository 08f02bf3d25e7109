//! Salt provisioning: a salt that the caller supplied is checked and taken
//! as it stands, a missing one is drawn from the operating system's random
//! source.

use argon2::password_hash::rand_core::OsRng;
use argon2::password_hash::SaltString;
use vstd::prelude::*;
use vstd::utf8::*;

verus! {

/// Whether `c` may stand in a salt string: a letter, a digit, or one of `/ + . -`.
pub open spec fn is_salt_char(c: char) -> bool {
    ||| 'a' <= c <= 'z'
    ||| 'A' <= c <= 'Z'
    ||| '0' <= c <= '9'
    ||| c == '/'
    ||| c == '+'
    ||| c == '.'
    ||| c == '-'
}

/// Whether `c` belongs to the alphabet of standard Base64.
pub open spec fn is_b64_char(c: char) -> bool {
    ||| 'a' <= c <= 'z'
    ||| 'A' <= c <= 'Z'
    ||| '0' <= c <= '9'
    ||| c == '/'
    ||| c == '+'
}

/// Why a text cannot be a salt string.
pub enum SaltFault {
    /// Fewer than 4 bytes.
    TooShort,
    /// More than 64 bytes.
    TooLong,
    /// A character outside the salt alphabet; the first such character.
    InvalidChar(char),
}

/// The first character of `text` that may not stand in a salt string.
pub open spec fn first_bad_char(text: Seq<char>) -> Option<char>
    decreases text.len(),
{
    if text.len() == 0 {
        None
    } else if !is_salt_char(text[0]) {
        Some(text[0])
    } else {
        first_bad_char(text.drop_first())
    }
}

/// The first reason, if any, for which `text` is no salt string. The length
/// is that of the UTF-8 encoding, and it is judged before the characters.
pub open spec fn salt_fault(text: Seq<char>) -> Option<SaltFault> {
    let length = encode_utf8(text).len();
    if length < 4 {
        Some(SaltFault::TooShort)
    } else if length > 64 {
        Some(SaltFault::TooLong)
    } else {
        match first_bad_char(text) {
            Some(c) => Some(SaltFault::InvalidChar(c)),
            None => None,
        }
    }
}

/// The message that reports a fault of a salt string.
pub open spec fn salt_fault_text(fault: SaltFault) -> Seq<char> {
    match fault {
        SaltFault::TooShort => "salt invalid: value to short"@,
        SaltFault::TooLong => "salt invalid: value to long"@,
        SaltFault::InvalidChar(c) => "salt invalid: contains invalid character: '"@.push(c).push(
            '\'',
        ),
    }
}

/// The bytes that a salt string stands for in unpadded standard Base64, or
/// `None` where it is no such encoding.
pub uninterp spec fn b64_decoded(text: Seq<char>) -> Option<Seq<u8>>;

/// The message with which a caller's salt is turned down, or `None` where
/// the salt is accepted: it has to be a salt string, and to decode.
pub open spec fn salt_rejection(text: Seq<char>) -> Option<Seq<char>> {
    match salt_fault(text) {
        Some(fault) => Some(salt_fault_text(fault)),
        None => if b64_decoded(text) is None {
            Some("invalid Base64 encoding"@)
        } else {
            None
        },
    }
}

/// What holds of every salt that is drawn afresh: 22 characters of the
/// Base64 alphabet, which is how 16 bytes are written.
pub open spec fn is_fresh_salt(text: Seq<char>) -> bool {
    &&& text.len() == 22
    &&& forall|i: int| 0 <= i < text.len() ==> is_b64_char(#[trigger] text[i])
}

/// Calls `SaltString::from_b64` of password-hash and reports its verdict.
/// The contract restates that function's checks in their order: the byte
/// length against 4 and 64, then each character against the salt alphabet;
/// the message is the error's `Display` text.
#[verifier::external_body]
fn parse_salt(text: &str) -> (outcome: Result<(), String>)
    ensures
        match outcome {
            Ok(()) => salt_fault(text@) is None,
            Err(message) => salt_fault(text@) matches Some(fault) && message@ == salt_fault_text(
                fault,
            ),
        },
{
    match SaltString::from_b64(text) {
        Ok(_) => Ok(()),
        Err(error) => Err(error.to_string()),
    }
}

/// Calls `SaltString::decode_b64` of password-hash on a buffer of 64 bytes,
/// which holds whatever 64 characters decode to. The decoder is base64ct's
/// constant-time one; its result is given the name `b64_decoded`, and the
/// message of its only error on such a buffer is stated.
#[verifier::external_body]
fn decode_salt(text: &str) -> (outcome: Result<Vec<u8>, String>)
    requires
        salt_fault(text@) is None,
    ensures
        match outcome {
            Ok(bytes) => b64_decoded(text@) == Some(bytes@),
            Err(message) => b64_decoded(text@) is None && message@ == "invalid Base64 encoding"@,
        },
{
    let salt = SaltString::from_b64(text).map_err(|error| error.to_string())?;
    let mut buffer = [0u8; 64];
    match salt.decode_b64(&mut buffer) {
        Ok(bytes) => Ok(bytes.to_vec()),
        Err(error) => Err(error.to_string()),
    }
}

/// Calls `SaltString::generate` of password-hash with the operating
/// system's random source: 16 random bytes written in Base64. Nothing is
/// said of which salt comes back, so two calls may differ. The call panics
/// if the operating system refuses to give random bytes.
#[verifier::external_body]
fn generate_salt() -> (salt: String)
    ensures
        is_fresh_salt(salt@),
{
    SaltString::generate(&mut OsRng).as_str().to_string()
}

/// A salt string with no character outside the salt alphabet has no bad
/// character to report.
proof fn lemma_no_bad_char(text: Seq<char>)
    requires
        forall|i: int| 0 <= i < text.len() ==> is_salt_char(#[trigger] text[i]),
    ensures
        first_bad_char(text) is None,
    decreases text.len(),
{
    if text.len() > 0 {
        let rest = text.drop_first();
        assert forall|i: int| 0 <= i < rest.len() implies is_salt_char(#[trigger] rest[i]) by {
            assert(rest[i] == text[i + 1]);
        }
        lemma_no_bad_char(rest);
    }
}

/// Every freshly drawn salt is a salt string.
pub proof fn lemma_fresh_salt_is_well_formed(text: Seq<char>)
    requires
        is_fresh_salt(text),
    ensures
        salt_fault(text) is None,
{
    assert(is_ascii_chars(text)) by {
        assert forall|i: int| 0 <= i < text.len() implies '\0' <= #[trigger] text[i]
            <= '\u{7f}' by {
            assert(is_b64_char(text[i]));
        }
    }
    is_ascii_chars_encode_utf8(text);
    assert forall|i: int| 0 <= i < text.len() implies is_salt_char(#[trigger] text[i]) by {
        assert(is_b64_char(text[i]));
    }
    lemma_no_bad_char(text);
}

/// Judges a salt that the caller supplied: `Ok` where it is a salt string
/// that decodes, else the message that says why not.
pub fn check_salt(text: &str) -> (outcome: Result<(), String>)
    ensures
        match outcome {
            Ok(()) => salt_rejection(text@) is None,
            Err(message) => salt_rejection(text@) == Some(message@),
        },
{
    match parse_salt(text) {
        Err(message) => Err(message),
        Ok(()) => match decode_salt(text) {
            Err(message) => Err(message),
            Ok(_) => Ok(()),
        },
    }
}

/// The salt of one request: the caller's own where one was supplied and is
/// accepted, a fresh one where none was supplied.
pub fn provision_salt(supplied: &Option<String>) -> (outcome: Result<String, String>)
    ensures
        match *supplied {
            Some(text) => match outcome {
                Ok(salt) => salt_rejection(text@) is None && salt@ == text@,
                Err(message) => salt_rejection(text@) == Some(message@),
            },
            None => outcome matches Ok(salt) && is_fresh_salt(salt@),
        },
        outcome matches Ok(salt) ==> salt_fault(salt@) is None,
{
    match supplied {
        Some(text) => match check_salt(text.as_str()) {
            Ok(()) => Ok(text.clone()),
            Err(message) => Err(message),
        },
        None => {
            let salt = generate_salt();
            proof {
                lemma_fresh_salt_is_well_formed(salt@);
            }
            Ok(salt)
        },
    }
}

} // verus!
