//! Account names: which byte strings the ledger accepts as an account id.

use vstd::prelude::*;
use vstd::utf8::encode_utf8;

verus! {

/// Shortest account id, in bytes.
pub const MIN_ACCOUNT_ID_LEN: usize = 2;

/// Longest account id, in bytes.
pub const MAX_ACCOUNT_ID_LEN: usize = 64;

/// A lower-case ASCII letter or a digit.
pub open spec fn is_word_byte(b: u8) -> bool {
    (0x61 <= b <= 0x7a) || (0x30 <= b <= 0x39)
}

/// One of `-`, `_` and `.`, which join the words of an account id.
pub open spec fn is_separator_byte(b: u8) -> bool {
    b == 0x2d || b == 0x5f || b == 0x2e
}

/// A valid account id: between 2 and 64 bytes, each a lower-case letter, a
/// digit or a separator, with no separator at either end and no two
/// separators side by side.
pub open spec fn account_id_valid(id: Seq<u8>) -> bool {
    &&& MIN_ACCOUNT_ID_LEN <= id.len() <= MAX_ACCOUNT_ID_LEN
    &&& forall|i: int| 0 <= i < id.len() ==> is_word_byte(#[trigger] id[i]) || is_separator_byte(id[i])
    &&& !is_separator_byte(id[0])
    &&& !is_separator_byte(id[id.len() - 1])
    &&& forall|i: int|
        0 < i < id.len() ==> !(is_separator_byte(id[i - 1]) && is_separator_byte(#[trigger] id[i]))
}

/// A name whose UTF-8 bytes are a valid account id.
pub open spec fn account_name_valid(name: Seq<char>) -> bool {
    account_id_valid(encode_utf8(name))
}

/// Calls `near_sdk::env::is_valid_account_id`. Trusted: the result is `true`
/// exactly for the byte strings that `account_id_valid` describes, which is
/// what that function's scan over the bytes accepts.
#[verifier::external_body]
fn sdk_is_valid_account_id(id: &[u8]) -> (r: bool)
    ensures
        r == account_id_valid(id@),
{
    near_sdk::env::is_valid_account_id(id)
}

/// Whether `name` can be the id of an account.
pub fn is_valid_account_name(name: &str) -> (r: bool)
    ensures
        r == account_name_valid(name@),
{
    sdk_is_valid_account_id(name.as_bytes())
}

} // verus!
