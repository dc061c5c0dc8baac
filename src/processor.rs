use vstd::prelude::*;

use crate::address::{
    derive_metadata_address, derive_profile_address, keys_equal, metadata_address,
    profile_address,
};
use crate::error::{NFTError, ProcessError};
use crate::state::{decode_model, encode_model, lemma_encode_decode, NFTProfile, ProfileModel, PROFILE_LEN};
use crate::token::{
    mint_readable, mint_supply, read_mint_supply, read_token_holding, token_account_readable,
    token_amount, token_mint, token_owner,
};

verus! {

/// One entry of a request's account list, as the hosting environment shows it.
pub struct AccountInput {
    pub key: [u8; 32],
    pub is_signer: bool,
    pub is_writable: bool,
    /// The program that owns the account.
    pub owner: [u8; 32],
    pub lamports: u64,
    pub data: Vec<u8>,
}

/// How a profile slot is brought to a funded, allocated, owned state.
#[derive(Debug, Clone, Copy, PartialEq, Eq, Structural)]
pub enum Funding {
    /// The slot already holds data; nothing to do.
    Existing,
    /// The slot holds lamports but no data: the signer pays `transfer`
    /// (skipped when 0), then the slot is allocated and assigned.
    TopUp { transfer: u64 },
    /// The slot is empty: create it with `lamports`, allocated and assigned
    /// in one operation.
    Fresh { lamports: u64 },
}

/// What a validated SetProfile request asks the environment to do before the
/// record is written.
#[derive(Debug, Clone, Copy, PartialEq, Eq, Structural)]
pub struct SetProfilePlan {
    pub funding: Funding,
    /// The bump seed of the profile slot, for signing on its behalf.
    pub bump: u8,
}

/// The balances after a successful UnsetProfile.
#[derive(Debug, Clone, Copy, PartialEq, Eq, Structural)]
pub struct LamportSweep {
    pub signer_lamports: u64,
    pub slot_lamports: u64,
}

/// The address part of a derivation's result.
pub open spec fn address_of(found: Option<(Seq<u8>, u8)>) -> Seq<u8> {
    match found {
        Some((k, _)) => k,
        None => Seq::empty(),
    }
}

/// The first check of SetProfile that `a` fails, if any.
pub open spec fn set_profile_failure(
    a: Seq<AccountInput>,
    program_id: Seq<u8>,
    metadata_program_id: Seq<u8>,
) -> Option<ProcessError> {
    if a.len() == 0 {
        Some(ProcessError::NotEnoughAccountKeys)
    } else if !a[0].is_signer {
        Some(ProcessError::MissingRequiredSignature)
    } else if a.len() < 2 {
        Some(ProcessError::NotEnoughAccountKeys)
    } else if !a[1].is_writable {
        Some(ProcessError::InvalidAccountData)
    } else if a.len() < 7 {
        Some(ProcessError::NotEnoughAccountKeys)
    } else if !mint_readable(a[2].data@) {
        Some(ProcessError::InvalidAccountData)
    } else if mint_supply(a[2].data@) != 1 {
        Some(ProcessError::Custom(NFTError::InvalidMintSupply))
    } else if !token_account_readable(a[3].data@) {
        Some(ProcessError::InvalidAccountData)
    } else if token_owner(a[3].data@) != a[0].key@ {
        Some(ProcessError::Custom(NFTError::InvalidOwner))
    } else if token_amount(a[3].data@) < 1 {
        Some(ProcessError::Custom(NFTError::InsufficientTokenBalance))
    } else if token_mint(a[3].data@) != a[2].key@ {
        Some(ProcessError::Custom(NFTError::InvalidMint))
    } else if metadata_address(a[2].key@, metadata_program_id) is None {
        Some(ProcessError::InvalidSeeds)
    } else if address_of(metadata_address(a[2].key@, metadata_program_id)) != a[4].key@ {
        Some(ProcessError::Custom(NFTError::InvalidMetadata))
    } else if profile_address(a[0].key@, program_id) is None {
        Some(ProcessError::InvalidSeeds)
    } else if address_of(profile_address(a[0].key@, program_id)) != a[1].key@ {
        Some(ProcessError::InvalidAccountData)
    } else if a[1].data@.len() != 0 && a[1].owner@ != program_id {
        Some(ProcessError::InvalidAccountData)
    } else {
        None
    }
}

/// The balance a profile slot must hold: the rent-exempt minimum, at least 1.
pub open spec fn required_lamports(rent_minimum: u64) -> u64 {
    if rent_minimum > 1 {
        rent_minimum
    } else {
        1
    }
}

/// How the slot is funded, decided by its data length and balance alone.
pub open spec fn funding_for(slot: AccountInput, rent_minimum: u64) -> Funding {
    let need = required_lamports(rent_minimum);
    if slot.data@.len() != 0 {
        Funding::Existing
    } else if slot.lamports > 0 {
        Funding::TopUp {
            transfer: if need > slot.lamports {
                (need - slot.lamports) as u64
            } else {
                0
            },
        }
    } else {
        Funding::Fresh { lamports: need }
    }
}

/// The record a successful SetProfile writes.
pub open spec fn profile_record(
    owner: Seq<u8>,
    nft_mint: Seq<u8>,
    nft_token: Seq<u8>,
    unix_timestamp: i64,
) -> ProfileModel {
    ProfileModel {
        is_initialized: true,
        version: 1,
        owner,
        nft_mint,
        nft_token,
        updated_at: unix_timestamp as u64,
    }
}

/// The slot's bytes after the record is written over `data`; none where the
/// slot does not have the record's width or holds a malformed flag.
pub open spec fn committed(
    data: Seq<u8>,
    owner: Seq<u8>,
    nft_mint: Seq<u8>,
    nft_token: Seq<u8>,
    unix_timestamp: i64,
) -> Option<Seq<u8>> {
    if data.len() == PROFILE_LEN && decode_model(data) is Some {
        Some(encode_model(profile_record(owner, nft_mint, nft_token, unix_timestamp)))
    } else {
        None
    }
}

/// The first check of UnsetProfile that `a` fails, if any.
pub open spec fn unset_profile_failure(a: Seq<AccountInput>, program_id: Seq<u8>) -> Option<
    ProcessError,
> {
    if a.len() == 0 {
        Some(ProcessError::NotEnoughAccountKeys)
    } else if !a[0].is_signer {
        Some(ProcessError::MissingRequiredSignature)
    } else if a.len() < 2 {
        Some(ProcessError::NotEnoughAccountKeys)
    } else if !a[1].is_writable {
        Some(ProcessError::InvalidAccountData)
    } else if a[1].owner@ != program_id {
        Some(ProcessError::InvalidAccountData)
    } else if profile_address(a[0].key@, program_id) is None {
        Some(ProcessError::InvalidSeeds)
    } else if address_of(profile_address(a[0].key@, program_id)) != a[1].key@ {
        Some(ProcessError::InvalidAccountData)
    } else if decode_model(a[1].data@) is None {
        Some(ProcessError::InvalidAccountData)
    } else if !decode_model(a[1].data@)->0.is_initialized {
        Some(ProcessError::Custom(NFTError::NotInitialized))
    } else if decode_model(a[1].data@)->0.owner != a[0].key@ {
        Some(ProcessError::Custom(NFTError::InvalidOwner))
    } else {
        None
    }
}

/// Balances of signer and slot cannot overflow when summed.
pub open spec fn sweep_fits(a: Seq<AccountInput>) -> bool {
    a.len() >= 2 ==> a[0].lamports + a[1].lamports <= u64::MAX
}

/// A mint whose supply is not exactly one is refused with InvalidMintSupply
/// once the signer, writable-slot and account-count checks pass; no plan is
/// produced, so the slot is left as it was.
pub proof fn lemma_supply_not_one_rejected(
    a: Seq<AccountInput>,
    program_id: Seq<u8>,
    metadata_program_id: Seq<u8>,
)
    requires
        a.len() >= 7,
        a[0].is_signer,
        a[1].is_writable,
        mint_readable(a[2].data@),
        mint_supply(a[2].data@) != 1,
    ensures
        set_profile_failure(a, program_id, metadata_program_id) == Some(
            ProcessError::Custom(NFTError::InvalidMintSupply),
        ),
{
}

/// A SetProfile request that passes every check names as its slot exactly
/// the profile address derived from the signer.
pub proof fn lemma_set_slot_is_derived(
    a: Seq<AccountInput>,
    program_id: Seq<u8>,
    metadata_program_id: Seq<u8>,
)
    requires
        set_profile_failure(a, program_id, metadata_program_id) is None,
    ensures
        a.len() >= 7,
        profile_address(a[0].key@, program_id) is Some,
        address_of(profile_address(a[0].key@, program_id)) == a[1].key@,
{
}

/// Setting the profile again over a written record succeeds and refreshes
/// mint, token account and timestamp, while the owner stays the same.
pub proof fn lemma_set_again_keeps_owner(
    data: Seq<u8>,
    owner: Seq<u8>,
    mint1: Seq<u8>,
    token1: Seq<u8>,
    time1: i64,
    mint2: Seq<u8>,
    token2: Seq<u8>,
    time2: i64,
)
    requires
        committed(data, owner, mint1, token1, time1) is Some,
        owner.len() == 32,
        mint1.len() == 32,
        token1.len() == 32,
        mint2.len() == 32,
        token2.len() == 32,
    ensures
        ({
            let first = committed(data, owner, mint1, token1, time1)->0;
            let second = committed(first, owner, mint2, token2, time2);
            &&& second is Some
            &&& decode_model(first) == Some(profile_record(owner, mint1, token1, time1))
            &&& decode_model(second->0) == Some(profile_record(owner, mint2, token2, time2))
            &&& decode_model(second->0)->0.owner == decode_model(first)->0.owner
        }),
{
    lemma_encode_decode(profile_record(owner, mint1, token1, time1));
    lemma_encode_decode(profile_record(owner, mint2, token2, time2));
}

/// UnsetProfile on a slot whose record is not initialized fails with
/// NotInitialized, so no lamports move.
pub proof fn lemma_unset_uninitialized_rejected(a: Seq<AccountInput>, program_id: Seq<u8>)
    requires
        a.len() >= 2,
        a[0].is_signer,
        a[1].is_writable,
        a[1].owner@ == program_id,
        profile_address(a[0].key@, program_id) is Some,
        address_of(profile_address(a[0].key@, program_id)) == a[1].key@,
        decode_model(a[1].data@) is Some,
        !decode_model(a[1].data@)->0.is_initialized,
    ensures
        unset_profile_failure(a, program_id) == Some(ProcessError::Custom(NFTError::NotInitialized)),
{
}

/// UnsetProfile by a signer other than the record's owner fails with
/// InvalidOwner, so the slot's balance stays.
pub proof fn lemma_unset_by_other_rejected(a: Seq<AccountInput>, program_id: Seq<u8>)
    requires
        a.len() >= 2,
        a[0].is_signer,
        a[1].is_writable,
        a[1].owner@ == program_id,
        profile_address(a[0].key@, program_id) is Some,
        address_of(profile_address(a[0].key@, program_id)) == a[1].key@,
        decode_model(a[1].data@) is Some,
        decode_model(a[1].data@)->0.is_initialized,
        decode_model(a[1].data@)->0.owner != a[0].key@,
    ensures
        unset_profile_failure(a, program_id) == Some(ProcessError::Custom(NFTError::InvalidOwner)),
{
}

/// After a SetProfile that passed every check has written its record, the
/// record names the signer, mint and token account, and an UnsetProfile by
/// the same signer on that slot, now owned by this program, passes every
/// check.
pub proof fn lemma_set_then_unset(
    a: Seq<AccountInput>,
    program_id: Seq<u8>,
    metadata_program_id: Seq<u8>,
    allocated: Seq<u8>,
    unix_timestamp: i64,
    b: Seq<AccountInput>,
)
    requires
        set_profile_failure(a, program_id, metadata_program_id) is None,
        committed(allocated, a[0].key@, a[2].key@, a[3].key@, unix_timestamp) is Some,
        b.len() >= 2,
        b[0].key@ == a[0].key@,
        b[0].is_signer,
        b[1].key@ == a[1].key@,
        b[1].is_writable,
        b[1].owner@ == program_id,
        b[1].data@ == committed(allocated, a[0].key@, a[2].key@, a[3].key@, unix_timestamp)->0,
    ensures
        decode_model(b[1].data@) == Some(
            profile_record(a[0].key@, a[2].key@, a[3].key@, unix_timestamp),
        ),
        unset_profile_failure(b, program_id) is None,
{
    lemma_encode_decode(profile_record(a[0].key@, a[2].key@, a[3].key@, unix_timestamp));
}

/// SetProfile with a slot that is not the signer's derived profile address
/// fails with InvalidAccountData when every other check passes.
pub proof fn lemma_wrong_slot_rejected(
    a: Seq<AccountInput>,
    program_id: Seq<u8>,
    metadata_program_id: Seq<u8>,
)
    requires
        a.len() >= 7,
        a[0].is_signer,
        a[1].is_writable,
        mint_readable(a[2].data@),
        mint_supply(a[2].data@) == 1,
        token_account_readable(a[3].data@),
        token_owner(a[3].data@) == a[0].key@,
        token_amount(a[3].data@) >= 1,
        token_mint(a[3].data@) == a[2].key@,
        metadata_address(a[2].key@, metadata_program_id) is Some,
        address_of(metadata_address(a[2].key@, metadata_program_id)) == a[4].key@,
        profile_address(a[0].key@, program_id) is Some,
        address_of(profile_address(a[0].key@, program_id)) != a[1].key@,
    ensures
        set_profile_failure(a, program_id, metadata_program_id) == Some(
            ProcessError::InvalidAccountData,
        ),
{
}

pub struct InstructionProcessor;

impl InstructionProcessor {
    /// Validates a SetProfile request and decides how the profile slot is
    /// funded. `rent_minimum` is the rent-exempt balance for a record.
    pub fn process_set_profile_nft(
        accounts: &[AccountInput],
        program_id: &[u8; 32],
        metadata_program_id: &[u8; 32],
        rent_minimum: u64,
    ) -> (r: Result<SetProfilePlan, ProcessError>)
        ensures
            match r {
                Err(e) => set_profile_failure(accounts@, program_id@, metadata_program_id@) == Some(e),
                Ok(plan) => {
                    &&& set_profile_failure(accounts@, program_id@, metadata_program_id@) is None
                    &&& plan.funding == funding_for(accounts@[1], rent_minimum)
                    &&& profile_address(accounts@[0].key@, program_id@) == Some((accounts@[1].key@, plan.bump))
                },
            },
    {
        if accounts.len() == 0 {
            return Err(ProcessError::NotEnoughAccountKeys);
        }
        let signer = &accounts[0];
        if !signer.is_signer {
            return Err(ProcessError::MissingRequiredSignature);
        }
        if accounts.len() < 2 {
            return Err(ProcessError::NotEnoughAccountKeys);
        }
        let slot = &accounts[1];
        if !slot.is_writable {
            return Err(ProcessError::InvalidAccountData);
        }
        if accounts.len() < 7 {
            return Err(ProcessError::NotEnoughAccountKeys);
        }
        let mint = &accounts[2];
        let token = &accounts[3];
        let metadata = &accounts[4];
        let supply = match read_mint_supply(mint.data.as_slice()) {
            Some(s) => s,
            None => return Err(ProcessError::InvalidAccountData),
        };
        if supply != 1 {
            return Err(ProcessError::Custom(NFTError::InvalidMintSupply));
        }
        let holding = match read_token_holding(token.data.as_slice()) {
            Some(t) => t,
            None => return Err(ProcessError::InvalidAccountData),
        };
        if !keys_equal(&holding.owner, &signer.key) {
            return Err(ProcessError::Custom(NFTError::InvalidOwner));
        }
        if holding.amount < 1 {
            return Err(ProcessError::Custom(NFTError::InsufficientTokenBalance));
        }
        if !keys_equal(&holding.mint, &mint.key) {
            return Err(ProcessError::Custom(NFTError::InvalidMint));
        }
        let metadata_key = match derive_metadata_address(&mint.key, metadata_program_id) {
            Some((k, _)) => k,
            None => return Err(ProcessError::InvalidSeeds),
        };
        if !keys_equal(&metadata_key, &metadata.key) {
            return Err(ProcessError::Custom(NFTError::InvalidMetadata));
        }
        let (slot_key, bump) = match derive_profile_address(&signer.key, program_id) {
            Some(found) => found,
            None => return Err(ProcessError::InvalidSeeds),
        };
        if !keys_equal(&slot_key, &slot.key) {
            return Err(ProcessError::InvalidAccountData);
        }
        let funding = if slot.data.len() == 0 {
            let need = if rent_minimum > 1 {
                rent_minimum
            } else {
                1
            };
            if slot.lamports > 0 {
                Funding::TopUp { transfer: need.saturating_sub(slot.lamports) }
            } else {
                Funding::Fresh { lamports: need }
            }
        } else {
            if !keys_equal(&slot.owner, program_id) {
                return Err(ProcessError::InvalidAccountData);
            }
            Funding::Existing
        };
        Ok(SetProfilePlan { funding, bump })
    }

    /// Writes the profile record into the slot's storage once it is
    /// allocated: the stored bytes must have the record's width and a flag of
    /// 0 or 1; every field is then overwritten.
    pub fn commit_profile(
        data: &mut Vec<u8>,
        owner: &[u8; 32],
        nft_mint: &[u8; 32],
        nft_token: &[u8; 32],
        unix_timestamp: i64,
    ) -> (r: Result<(), ProcessError>)
        requires
            unix_timestamp >= 0,
        ensures
            match committed(old(data)@, owner@, nft_mint@, nft_token@, unix_timestamp) {
                Some(d) => r is Ok && final(data)@ == d,
                None => r == Err::<(), ProcessError>(ProcessError::InvalidAccountData)
                    && final(data)@ == old(data)@,
            },
    {
        let mut record = match NFTProfile::unpack_unchecked(data.as_slice()) {
            Ok(p) => p,
            Err(e) => return Err(e),
        };
        record.is_initialized = true;
        record.version = 1;
        record.owner = *owner;
        record.nft_mint = *nft_mint;
        record.nft_token = *nft_token;
        record.updated_at = unix_timestamp as u64;
        record.pack_into_slice(data);
        assert(final(data)@ =~= encode_model(record@));
        Ok(())
    }

    /// Validates an UnsetProfile request and moves the slot's whole balance
    /// to the signer.
    pub fn process_unset_profile_nft(accounts: &[AccountInput], program_id: &[u8; 32]) -> (r:
        Result<LamportSweep, ProcessError>)
        requires
            sweep_fits(accounts@),
        ensures
            match r {
                Err(e) => unset_profile_failure(accounts@, program_id@) == Some(e),
                Ok(s) => {
                    &&& unset_profile_failure(accounts@, program_id@) is None
                    &&& s.signer_lamports == accounts@[0].lamports + accounts@[1].lamports
                    &&& s.slot_lamports == 0
                },
            },
    {
        if accounts.len() == 0 {
            return Err(ProcessError::NotEnoughAccountKeys);
        }
        let signer = &accounts[0];
        if !signer.is_signer {
            return Err(ProcessError::MissingRequiredSignature);
        }
        if accounts.len() < 2 {
            return Err(ProcessError::NotEnoughAccountKeys);
        }
        let slot = &accounts[1];
        if !slot.is_writable {
            return Err(ProcessError::InvalidAccountData);
        }
        if !keys_equal(&slot.owner, program_id) {
            return Err(ProcessError::InvalidAccountData);
        }
        let slot_key = match derive_profile_address(&signer.key, program_id) {
            Some((k, _)) => k,
            None => return Err(ProcessError::InvalidSeeds),
        };
        if !keys_equal(&slot_key, &slot.key) {
            return Err(ProcessError::InvalidAccountData);
        }
        if slot.data.len() < PROFILE_LEN {
            return Err(ProcessError::InvalidAccountData);
        }
        let record = match NFTProfile::unpack_from_slice(slot.data.as_slice()) {
            Ok(p) => p,
            Err(e) => return Err(e),
        };
        if !record.is_initialized() {
            return Err(ProcessError::Custom(NFTError::NotInitialized));
        }
        if !keys_equal(&record.owner, &signer.key) {
            return Err(ProcessError::Custom(NFTError::InvalidOwner));
        }
        Ok(LamportSweep { signer_lamports: signer.lamports + slot.lamports, slot_lamports: 0 })
    }
}

} // verus!
