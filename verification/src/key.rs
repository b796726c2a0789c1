//! The fixed-width key under which a named rate is kept.

use vstd::prelude::*;
use sixbit::EncodeError;
use sixbit::EncodeSixbit;
use crate::error::EsperaError;
use crate::error::EsperaResult;

verus! {

/// The most characters a rate's name can have.
pub const NAME_MAX_LEN: usize = 21;

/// The 128-bit key that the six-bit encoding gives `name`, or `None` where
/// the name cannot be encoded.
pub uninterp spec fn sixbit_key(name: Seq<char>) -> Option<u128>;

/// Whether `c` is an ASCII letter, an ASCII digit or the underscore.
pub open spec fn is_identifier_char(c: char) -> bool {
    ('0' <= c && c <= '9') || ('A' <= c && c <= 'Z') || ('a' <= c && c <= 'z') || c == '_'
}

/// Whether `name` is made of at most [`NAME_MAX_LEN`] ASCII letters, digits
/// and underscores.
pub open spec fn is_identifier(name: Seq<char>) -> bool {
    &&& name.len() <= NAME_MAX_LEN
    &&& forall|i: int| 0 <= i < name.len() ==> is_identifier_char(#[trigger] name[i])
}

/// `sixbit::EncodeSixbit::encode_sixbit` into a `u128`, on the characters of
/// `name`. The key is a function of the characters alone. The encoder's
/// first code page holds the ASCII digits, letters and the underscore, and a
/// `u128` has room for 21 six-bit codes: a name of at most 21 such
/// characters has a key, and no name of more than 21 characters has one.
#[verifier::external_body]
fn encode_name(name: &str) -> (r: Result<u128, EncodeError>)
    ensures
        r matches Ok(key) ==> sixbit_key(name@) == Some(key),
        r is Err ==> sixbit_key(name@) is None,
        is_identifier(name@) ==> r is Ok,
        name@.len() > NAME_MAX_LEN ==> r is Err,
{
    name.chars().encode_sixbit::<u128>()
}

/// The key of the rate named `name`.
///
/// A name of at most 21 ASCII letters, digits and underscores has a key;
/// a name of more than 21 characters has none.
pub fn rate_key(name: &str) -> (r: EsperaResult<u128>)
    ensures
        r matches Ok(key) ==> sixbit_key(name@) == Some(key),
        r is Err ==> sixbit_key(name@) is None,
        is_identifier(name@) ==> r is Ok,
        name@.len() > NAME_MAX_LEN ==> r is Err,
{
    match encode_name(name) {
        Ok(key) => Ok(key),
        Err(err) => Err(EsperaError::from(err)),
    }
}

} // verus!
