//! The server's favorites endpoint: removing a favorite names its title in
//! URL-safe base64 without padding, which is decoded to the title's text.
use vstd::prelude::*;
use vstd::utf8::{decode_utf8, encode_utf8, valid_utf8};

verus! {

/// `base64::DecodeError`, which `base64::decode_config` returns for input that is
/// not base64.
#[verifier::external_type_specification]
#[verifier::external_body]
pub struct ExDecodeError(base64::DecodeError);

/// `std::string::FromUtf8Error`, which `String::from_utf8` returns for bytes that
/// are not UTF-8.
#[verifier::external_type_specification]
#[verifier::external_body]
pub struct ExFromUtf8Error(std::string::FromUtf8Error);

/// The bytes that `input`, read as URL-safe base64 without padding, stands for;
/// none when it is not such base64.
pub uninterp spec fn base64_url_decoded(input: Seq<char>) -> Option<Seq<u8>>;

/// Calls `base64::decode_config(input, base64::URL_SAFE_NO_PAD)`.
/// Claimed: it succeeds exactly when `base64_url_decoded` names bytes for the
/// input, and then returns those bytes. The call panics when the byte length of
/// the input plus 7 overflows, which `requires` leaves out.
#[verifier::external_body]
fn decode_url_safe_no_pad(input: &str) -> (r: Result<Vec<u8>, base64::DecodeError>)
    requires
        decodable_length(input@),
    ensures
        r is Ok <==> base64_url_decoded(input@) is Some,
        r matches Ok(v) ==> v@ == base64_url_decoded(input@)->0,
{
    base64::decode_config(input, base64::URL_SAFE_NO_PAD)
}

/// Calls `String::from_utf8(bytes)`.
/// Claimed, as std documents it: it succeeds exactly when the bytes are UTF-8,
/// and the string then holds the characters they encode.
#[verifier::external_body]
fn string_from_utf8(bytes: Vec<u8>) -> (r: Result<String, std::string::FromUtf8Error>)
    ensures
        r is Ok <==> valid_utf8(bytes@),
        r matches Ok(s) ==> s@ == decode_utf8(bytes@),
{
    String::from_utf8(bytes)
}

/// The text of a favorite's title, given as URL-safe base64 without padding of
/// its UTF-8 bytes; none when it is not.
pub open spec fn decoded_title(encoded: Seq<char>) -> Option<Seq<char>> {
    match base64_url_decoded(encoded) {
        Some(bytes) => if valid_utf8(bytes) {
            Some(decode_utf8(bytes))
        } else {
            None
        },
        None => None,
    }
}

/// The input that the decoder takes without failing.
pub open spec fn decodable_length(encoded: Seq<char>) -> bool {
    encode_utf8(encoded).len() + 7 <= usize::MAX
}

/// The favorite a user asks to remove: the user, the source and the title.
#[derive(Clone, Debug, PartialEq, Eq)]
pub struct FavoriteRemoval {
    pub user: String,
    pub source: String,
    pub title: String,
}

/// The title named by `encoded`.
pub fn decode_title(encoded: &str) -> (t: String)
    requires
        decodable_length(encoded@),
        decoded_title(encoded@) is Some,
    ensures
        Some(t@) == decoded_title(encoded@),
{
    match decode_url_safe_no_pad(encoded) {
        Ok(bytes) => match string_from_utf8(bytes) {
            Ok(t) => t,
            Err(_) => vstd::pervasive::unreached(),
        },
        Err(_) => vstd::pervasive::unreached(),
    }
}

/// The favorite that `user` asks to remove, from source `source`, with title
/// `title` in URL-safe base64; none when the title is not UTF-8 text in that
/// encoding.
pub fn remove_favorites(user: String, source: String, title: String) -> (r: Option<
    FavoriteRemoval,
>)
    ensures
        r is Some <==> decodable_length(title@) && decoded_title(title@) is Some,
        r matches Some(f) ==> f.user == user && f.source == source && Some(f.title@)
            == decoded_title(title@),
{
    let encoded = title.as_str();
    if encoded.as_bytes().len() > usize::MAX - 7 {
        return None;
    }
    let readable = match decode_url_safe_no_pad(encoded) {
        Ok(bytes) => match string_from_utf8(bytes) {
            Ok(_) => true,
            Err(_) => false,
        },
        Err(_) => false,
    };
    if !readable {
        return None;
    }
    let title = decode_title(encoded);
    Some(FavoriteRemoval { user, source, title })
}

} // verus!
