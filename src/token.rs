use vstd::prelude::*;

use solana_program::program_error::ProgramError;
use solana_program::program_pack::Pack;

use crate::state::u64_from_le;

verus! {

/// The token program's error type, carried opaque from its unpack calls.
#[verifier::external_type_specification]
#[verifier::external_body]
pub struct ExProgramError(ProgramError);

/// Width of a token mint record.
pub const MINT_LEN: usize = 82;

/// Width of a token-holding record.
pub const TOKEN_ACCOUNT_LEN: usize = 165;

/// The four-byte tag of an optional field at `at` is 0 (absent) or 1 (present).
pub open spec fn option_tag_valid(d: Seq<u8>, at: int) -> bool {
    (d[at] == 0 || d[at] == 1) && d[at + 1] == 0 && d[at + 2] == 0 && d[at + 3] == 0
}

/// The token ledger reads a mint from `d`: both authority tags are valid and
/// the initialized flag is 0 or 1.
pub open spec fn mint_readable(d: Seq<u8>) -> bool {
    d.len() >= MINT_LEN && option_tag_valid(d, 0) && d[45] <= 1 && option_tag_valid(d, 46)
}

/// The total supply of a mint record.
pub open spec fn mint_supply(d: Seq<u8>) -> u64 {
    u64_from_le(d.subrange(36, 44))
}

/// The token ledger reads a holding record from `d`: the delegate, native
/// amount and close authority tags are valid and the state byte is one of
/// uninitialized, initialized or frozen.
pub open spec fn token_account_readable(d: Seq<u8>) -> bool {
    d.len() >= TOKEN_ACCOUNT_LEN && option_tag_valid(d, 72) && d[108] <= 2 && option_tag_valid(
        d,
        109,
    ) && option_tag_valid(d, 129)
}

pub open spec fn token_mint(d: Seq<u8>) -> Seq<u8> {
    d.subrange(0, 32)
}

pub open spec fn token_owner(d: Seq<u8>) -> Seq<u8> {
    d.subrange(32, 64)
}

pub open spec fn token_amount(d: Seq<u8>) -> u64 {
    u64_from_le(d.subrange(64, 72))
}

/// What this program reads of a token-holding record.
pub struct TokenHolding {
    pub mint: [u8; 32],
    pub owner: [u8; 32],
    pub amount: u64,
}

/// Relies on `spl_token::state::Mint::unpack_from_slice`: it reads the first
/// 82 bytes (panicking on fewer), fails on an invalid authority tag or
/// initialized flag, and takes the supply from bytes 36..44, little-endian.
#[verifier::external_body]
fn unpack_mint_supply(data: &[u8]) -> (r: Result<u64, ProgramError>)
    requires
        data@.len() >= MINT_LEN,
    ensures
        r is Ok <==> mint_readable(data@),
        r matches Ok(s) ==> s == mint_supply(data@),
{
    spl_token::state::Mint::unpack_from_slice(data).map(|m| m.supply)
}

/// Relies on `spl_token::state::Account::unpack_from_slice`: it reads the
/// first 165 bytes (panicking on fewer), fails on an invalid optional-field
/// tag or state byte, and takes mint, owner and amount from bytes 0..32,
/// 32..64 and 64..72.
#[verifier::external_body]
fn unpack_token_holding(data: &[u8]) -> (r: Result<TokenHolding, ProgramError>)
    requires
        data@.len() >= TOKEN_ACCOUNT_LEN,
    ensures
        r is Ok <==> token_account_readable(data@),
        r matches Ok(t) ==> t.mint@ == token_mint(data@) && t.owner@ == token_owner(data@)
            && t.amount == token_amount(data@),
{
    spl_token::state::Account::unpack_from_slice(data).map(
        |a| TokenHolding { mint: a.mint.to_bytes(), owner: a.owner.to_bytes(), amount: a.amount },
    )
}

/// The supply of the mint held in `data`; none where the token ledger
/// cannot read it.
pub fn read_mint_supply(data: &[u8]) -> (r: Option<u64>)
    ensures
        r is Some <==> mint_readable(data@),
        r matches Some(s) ==> s == mint_supply(data@),
{
    if data.len() < MINT_LEN {
        return None;
    }
    match unpack_mint_supply(data) {
        Ok(s) => Some(s),
        Err(_) => None,
    }
}

/// The holding record in `data`; none where the token ledger cannot read it.
pub fn read_token_holding(data: &[u8]) -> (r: Option<TokenHolding>)
    ensures
        r is Some <==> token_account_readable(data@),
        r matches Some(t) ==> t.mint@ == token_mint(data@) && t.owner@ == token_owner(data@)
            && t.amount == token_amount(data@),
{
    if data.len() < TOKEN_ACCOUNT_LEN {
        return None;
    }
    match unpack_token_holding(data) {
        Ok(t) => Some(t),
        Err(_) => None,
    }
}

} // verus!
