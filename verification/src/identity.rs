//! Validation of client-supplied account identities.
//!
//! An identity is a bounded-length alphanumeric token. Characters that are
//! easily confused with one another in the client's encoding (`O`, `I`, `l`,
//! `0`) are rejected outright.

use vstd::prelude::*;

verus! {

/// Shortest accepted identity, in characters.
pub const MIN_IDENTITY_LEN: usize = 32;

/// Longest accepted identity, in characters.
pub const MAX_IDENTITY_LEN: usize = 44;

/// A character acceptable inside an identity: ASCII alphanumeric and not one
/// of the visually confusable characters `O`, `I`, `l`, `0`.
pub open spec fn is_identity_char(c: char) -> bool {
    ((48 <= c as u32 && c as u32 <= 57)  // '0' ..= '9'
        || (65 <= c as u32 && c as u32 <= 90)  // 'A' ..= 'Z'
        || (97 <= c as u32 && c as u32 <= 122))  // 'a' ..= 'z'
        && c != 'O' && c != 'I' && c != 'l' && c != '0'
}

/// A well-formed identity: between [`MIN_IDENTITY_LEN`] and
/// [`MAX_IDENTITY_LEN`] characters, all of them acceptable.
pub open spec fn valid_identity(s: Seq<char>) -> bool {
    &&& MIN_IDENTITY_LEN <= s.len() <= MAX_IDENTITY_LEN
    &&& forall|i: int| 0 <= i < s.len() ==> is_identity_char(#[trigger] s[i])
}

/// An optional identity is usable only when present and well-formed.
pub open spec fn valid_public_key(public_key: Option<String>) -> bool {
    match public_key {
        Some(k) => valid_identity(k@),
        None => false,
    }
}

/// Decides whether a client-supplied identity must be rejected: absent, of a
/// length outside the accepted range, or holding a character that is not
/// ASCII alphanumeric or is visually confusable.
pub fn invalid_public_key(public_key: &Option<String>) -> (r: bool)
    ensures
        r == !valid_public_key(*public_key),
{
    match public_key.as_ref() {
        Some(key) => {
            let len = key.as_str().unicode_len();
            if len < MIN_IDENTITY_LEN || len > MAX_IDENTITY_LEN {
                return true;
            }
            let mut i: usize = 0;
            while i < len
                invariant
                    *public_key is Some && (*public_key)->0 == *key,
                    len == key@.len(),
                    MIN_IDENTITY_LEN <= len <= MAX_IDENTITY_LEN,
                    i <= len,
                    forall|j: int| 0 <= j < i ==> is_identity_char(#[trigger] key@[j]),
                decreases len - i,
            {
                let c = key.as_str().get_char(i);
                let u = c as u32;
                let alphanumeric = (48 <= u && u <= 57) || (65 <= u && u <= 90) || (97 <= u
                    && u <= 122);
                if !alphanumeric || c == 'O' || c == 'I' || c == 'l' || c == '0' {
                    return true;
                }
                i += 1;
            }
            false
        },
        None => true,
    }
}

} // verus!
