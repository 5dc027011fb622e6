//! Token-balance records: the data of a vault account.

use crate::bytes::le_u64;
use crate::error::DecodeError;
use solana_program::program_pack::Pack;
use vstd::prelude::*;

verus! {

/// The length of a token-balance record.
pub const TOKEN_ACCOUNT_LEN: usize = 165;

/// Whether the four bytes from `off` on are the tag of an optional field:
/// 0 for an absent value or 1 for a present one, as a little-endian `u32`.
pub open spec fn option_tag_ok(s: Seq<u8>, off: int) -> bool {
    (s[off] == 0 || s[off] == 1) && s[off + 1] == 0 && s[off + 2] == 0 && s[off + 3] == 0
}

/// Whether a buffer of the record's length holds the tags of an account in
/// use: the state byte says initialized (1) or frozen (2), and the three
/// optional fields (delegate, native reserve, close authority) are tagged
/// as absent or present.
pub open spec fn token_tags_ok(s: Seq<u8>) -> bool {
    &&& option_tag_ok(s, 72)
    &&& (s[108] == 1 || s[108] == 2)
    &&& option_tag_ok(s, 109)
    &&& option_tag_ok(s, 129)
}

/// The amount held by the token account that `s` encodes: the
/// little-endian integer at offset 64, after the mint and the owner.
pub open spec fn token_amount(s: Seq<u8>) -> Result<u64, DecodeError> {
    if s.len() != TOKEN_ACCOUNT_LEN {
        Err(DecodeError::Length)
    } else if !token_tags_ok(s) {
        Err(DecodeError::Layout)
    } else {
        Ok(le_u64(s, 64) as u64)
    }
}

/// `spl_token::state::Account::unpack`, of which the amount is kept.
///
/// Trusted: the unpacking succeeds exactly on buffers of 165 bytes whose
/// state byte is 1 or 2 and whose three option tags are 0 or 1, and the
/// amount is then the little-endian integer at offset 64.
#[verifier::external_body]
fn unpack_amount(data: &[u8]) -> (r: Option<u64>)
    ensures
        (r is Some) == (data@.len() == 165 && token_tags_ok(data@)),
        r matches Some(amount) ==> amount == le_u64(data@, 64),
{
    match spl_token::state::Account::unpack(data) {
        Ok(account) => Some(account.amount),
        Err(_) => None,
    }
}

/// Decodes a vault account's data and returns the amount it holds.
pub fn decode_token_amount(data: &[u8]) -> (r: Result<u64, DecodeError>)
    ensures
        r == token_amount(data@),
{
    if data.len() != TOKEN_ACCOUNT_LEN {
        return Err(DecodeError::Length);
    }
    match unpack_amount(data) {
        Some(amount) => Ok(amount),
        None => Err(DecodeError::Layout),
    }
}

} // verus!
