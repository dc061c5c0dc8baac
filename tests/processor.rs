use std::str::FromStr;

use profile_nft::address::{derive_metadata_address, derive_profile_address, keys_equal};
use profile_nft::error::{NFTError, ProcessError};
use profile_nft::processor::{AccountInput, Funding, InstructionProcessor};
use profile_nft::state::{NFTProfile, PROFILE_LEN};
use profile_nft::token::{read_mint_supply, read_token_holding};
use solana_program::program_option::COption;
use solana_program::program_pack::Pack;
use solana_program::pubkey::Pubkey;
use spl_token::state::{Account, AccountState, Mint};

const RENT: u64 = 1_628_640;

fn metadata_program() -> Pubkey {
    Pubkey::from_str("metaqbxxUerdq28cj1RbAWkYQm3ybzjb6a8bt518x1s").unwrap()
}

fn mint_data(supply: u64) -> Vec<u8> {
    let mint = Mint {
        mint_authority: COption::None,
        supply,
        decimals: 0,
        is_initialized: true,
        freeze_authority: COption::None,
    };
    let mut buf = vec![0u8; Mint::LEN];
    Mint::pack(mint, &mut buf).unwrap();
    buf
}

fn token_data(mint: &Pubkey, owner: &Pubkey, amount: u64) -> Vec<u8> {
    let account = Account {
        mint: *mint,
        owner: *owner,
        amount,
        delegate: COption::None,
        state: AccountState::Initialized,
        is_native: COption::None,
        delegated_amount: 0,
        close_authority: COption::None,
    };
    let mut buf = vec![0u8; Account::LEN];
    Account::pack(account, &mut buf).unwrap();
    buf
}

fn plain(key: Pubkey, data: Vec<u8>) -> AccountInput {
    AccountInput {
        key: key.to_bytes(),
        is_signer: false,
        is_writable: false,
        owner: spl_token::id().to_bytes(),
        lamports: 1_000,
        data,
    }
}

struct World {
    program: Pubkey,
    holder: Pubkey,
    mint: Pubkey,
    token: Pubkey,
    accounts: Vec<AccountInput>,
}

fn world(supply: u64, amount: u64) -> World {
    let program = Pubkey::new_unique();
    let holder = Pubkey::new_unique();
    let mint = Pubkey::new_unique();
    let token = Pubkey::new_unique();
    let (slot, _) = Pubkey::find_program_address(&[b"profile", holder.as_ref()], &program);
    let meta_id = metadata_program();
    let (metadata, _) =
        Pubkey::find_program_address(&[b"metadata", meta_id.as_ref(), mint.as_ref()], &meta_id);
    let mut signer = plain(holder, vec![]);
    signer.is_signer = true;
    signer.owner = [0u8; 32];
    signer.lamports = 10_000_000;
    let mut slot_acc = plain(slot, vec![]);
    slot_acc.is_writable = true;
    slot_acc.owner = [0u8; 32];
    slot_acc.lamports = 0;
    let accounts = vec![
        signer,
        slot_acc,
        plain(mint, mint_data(supply)),
        plain(token, token_data(&mint, &holder, amount)),
        plain(metadata, vec![]),
        plain(Pubkey::new_unique(), vec![]),
        plain(Pubkey::new_unique(), vec![]),
    ];
    World { program, holder, mint, token, accounts }
}

fn set(w: &World) -> Result<profile_nft::processor::SetProfilePlan, ProcessError> {
    InstructionProcessor::process_set_profile_nft(
        &w.accounts,
        &w.program.to_bytes(),
        &metadata_program().to_bytes(),
        RENT,
    )
}

#[test]
fn derived_addresses_match_the_runtime() {
    let program = Pubkey::new_unique();
    let holder = Pubkey::new_unique();
    let (expected, bump) = Pubkey::find_program_address(&[b"profile", holder.as_ref()], &program);
    let got = derive_profile_address(&holder.to_bytes(), &program.to_bytes()).unwrap();
    assert_eq!(got, (expected.to_bytes(), bump));
    assert_ne!(got.0, holder.to_bytes());
    let meta_id = metadata_program();
    let mint = Pubkey::new_unique();
    let (m, mb) =
        Pubkey::find_program_address(&[b"metadata", meta_id.as_ref(), mint.as_ref()], &meta_id);
    let got = derive_metadata_address(&mint.to_bytes(), &meta_id.to_bytes()).unwrap();
    assert_eq!(got, (m.to_bytes(), mb));
}

#[test]
fn key_comparison() {
    let a = [4u8; 32];
    let mut b = a;
    assert!(keys_equal(&a, &b));
    b[31] = 5;
    assert!(!keys_equal(&a, &b));
}

#[test]
fn token_records_are_read() {
    assert_eq!(read_mint_supply(&mint_data(1)), Some(1));
    assert_eq!(read_mint_supply(&mint_data(77)), Some(77));
    assert_eq!(read_mint_supply(&mint_data(1)[..81]), None);
    let mut bad = mint_data(1);
    bad[0] = 2;
    assert_eq!(read_mint_supply(&bad), None);
    let mint = Pubkey::new_unique();
    let owner = Pubkey::new_unique();
    let t = read_token_holding(&token_data(&mint, &owner, 3)).unwrap();
    assert_eq!(t.mint, mint.to_bytes());
    assert_eq!(t.owner, owner.to_bytes());
    assert_eq!(t.amount, 3);
    let mut frozen_bad = token_data(&mint, &owner, 3);
    frozen_bad[108] = 3;
    assert!(read_token_holding(&frozen_bad).is_none());
    assert!(read_token_holding(&token_data(&mint, &owner, 3)[..164]).is_none());
}

#[test]
fn supply_other_than_one_is_refused() {
    for supply in [0u64, 2, 1_000_000] {
        let w = world(supply, 1);
        let before = w.accounts[1].data.clone();
        assert_eq!(set(&w), Err(ProcessError::Custom(NFTError::InvalidMintSupply)));
        assert_eq!(w.accounts[1].data, before);
    }
}

#[test]
fn set_then_unset_end_to_end() {
    let w = world(1, 1);
    let plan = set(&w).unwrap();
    assert_eq!(plan.funding, Funding::Fresh { lamports: RENT });
    let (slot, bump) =
        Pubkey::find_program_address(&[b"profile", w.holder.as_ref()], &w.program);
    assert_eq!(plan.bump, bump);
    // the environment creates the slot: zeroed, owned by the program, funded
    let mut data = vec![0u8; PROFILE_LEN];
    InstructionProcessor::commit_profile(
        &mut data,
        &w.holder.to_bytes(),
        &w.mint.to_bytes(),
        &w.token.to_bytes(),
        1_700_000_000,
    )
    .unwrap();
    let record = NFTProfile::unpack_from_slice(&data).unwrap();
    assert!(record.is_initialized);
    assert_eq!(record.version, 1);
    assert_eq!(record.owner, w.holder.to_bytes());
    assert_eq!(record.nft_mint, w.mint.to_bytes());
    assert_eq!(record.nft_token, w.token.to_bytes());
    assert_eq!(record.updated_at, 1_700_000_000);

    let mut signer = plain(w.holder, vec![]);
    signer.is_signer = true;
    signer.lamports = 5_000;
    let mut slot_acc = plain(slot, data);
    slot_acc.is_writable = true;
    slot_acc.owner = w.program.to_bytes();
    slot_acc.lamports = RENT;
    let sweep =
        InstructionProcessor::process_unset_profile_nft(&[signer, slot_acc], &w.program.to_bytes())
            .unwrap();
    assert_eq!(sweep.signer_lamports, 5_000 + RENT);
    assert_eq!(sweep.slot_lamports, 0);
}

#[test]
fn set_again_keeps_owner() {
    let w = world(1, 1);
    let mut data = vec![0u8; PROFILE_LEN];
    let holder = w.holder.to_bytes();
    InstructionProcessor::commit_profile(&mut data, &holder, &[5u8; 32], &[6u8; 32], 10).unwrap();
    InstructionProcessor::commit_profile(&mut data, &holder, &[7u8; 32], &[8u8; 32], 20).unwrap();
    let record = NFTProfile::unpack_from_slice(&data).unwrap();
    assert_eq!(record.owner, holder);
    assert_eq!(record.nft_mint, [7u8; 32]);
    assert_eq!(record.nft_token, [8u8; 32]);
    assert_eq!(record.updated_at, 20);
}

#[test]
fn commit_refuses_malformed_storage() {
    let key = [1u8; 32];
    let mut short = vec![0u8; 50];
    assert_eq!(
        InstructionProcessor::commit_profile(&mut short, &key, &key, &key, 1),
        Err(ProcessError::InvalidAccountData)
    );
    assert_eq!(short, vec![0u8; 50]);
    let mut bad_flag = vec![0u8; PROFILE_LEN];
    bad_flag[0] = 9;
    assert_eq!(
        InstructionProcessor::commit_profile(&mut bad_flag, &key, &key, &key, 1),
        Err(ProcessError::InvalidAccountData)
    );
    assert_eq!(bad_flag[0], 9);
}

#[test]
fn wrong_slot_is_refused() {
    let mut w = world(1, 1);
    w.accounts[1].key = Pubkey::new_unique().to_bytes();
    assert_eq!(set(&w), Err(ProcessError::InvalidAccountData));
}

#[test]
fn set_failures_in_order() {
    let mut w = world(1, 1);
    w.accounts[0].is_signer = false;
    assert_eq!(set(&w), Err(ProcessError::MissingRequiredSignature));

    let mut w = world(1, 1);
    w.accounts[1].is_writable = false;
    assert_eq!(set(&w), Err(ProcessError::InvalidAccountData));

    let mut w = world(1, 1);
    w.accounts.truncate(6);
    assert_eq!(set(&w), Err(ProcessError::NotEnoughAccountKeys));
    w.accounts.clear();
    assert_eq!(set(&w), Err(ProcessError::NotEnoughAccountKeys));

    let mut w = world(1, 1);
    w.accounts[2].data[45] = 7;
    assert_eq!(set(&w), Err(ProcessError::InvalidAccountData));

    let mut w = world(1, 1);
    let other = Pubkey::new_unique();
    w.accounts[3].data = token_data(&w.mint, &other, 1);
    assert_eq!(set(&w), Err(ProcessError::Custom(NFTError::InvalidOwner)));

    let w = world(1, 0);
    assert_eq!(set(&w), Err(ProcessError::Custom(NFTError::InsufficientTokenBalance)));

    let mut w = world(1, 1);
    w.accounts[3].data = token_data(&Pubkey::new_unique(), &w.holder, 1);
    assert_eq!(set(&w), Err(ProcessError::Custom(NFTError::InvalidMint)));

    let mut w = world(1, 1);
    w.accounts[4].key = Pubkey::new_unique().to_bytes();
    assert_eq!(set(&w), Err(ProcessError::Custom(NFTError::InvalidMetadata)));

    let mut w = world(1, 1);
    w.accounts[1].data = vec![0u8; PROFILE_LEN];
    w.accounts[1].owner = Pubkey::new_unique().to_bytes();
    assert_eq!(set(&w), Err(ProcessError::InvalidAccountData));
}

#[test]
fn funding_paths() {
    let mut w = world(1, 1);
    w.accounts[1].lamports = 600_000;
    assert_eq!(set(&w).unwrap().funding, Funding::TopUp { transfer: RENT - 600_000 });
    w.accounts[1].lamports = RENT + 5;
    assert_eq!(set(&w).unwrap().funding, Funding::TopUp { transfer: 0 });
    w.accounts[1].data = vec![0u8; PROFILE_LEN];
    w.accounts[1].owner = w.program.to_bytes();
    assert_eq!(set(&w).unwrap().funding, Funding::Existing);
    let w = world(1, 1);
    let plan = InstructionProcessor::process_set_profile_nft(
        &w.accounts,
        &w.program.to_bytes(),
        &metadata_program().to_bytes(),
        0,
    )
    .unwrap();
    assert_eq!(plan.funding, Funding::Fresh { lamports: 1 });
}

fn unset_world(initialized: bool, owner: [u8; 32]) -> (Pubkey, Vec<AccountInput>) {
    let program = Pubkey::new_unique();
    let holder = Pubkey::new_unique();
    let (slot, _) = Pubkey::find_program_address(&[b"profile", holder.as_ref()], &program);
    let record = NFTProfile {
        is_initialized: initialized,
        version: 1,
        owner: if owner == [0u8; 32] { holder.to_bytes() } else { owner },
        nft_mint: [2u8; 32],
        nft_token: [3u8; 32],
        updated_at: 5,
    };
    let mut signer = plain(holder, vec![]);
    signer.is_signer = true;
    let mut slot_acc = plain(slot, record.pack());
    slot_acc.is_writable = true;
    slot_acc.owner = program.to_bytes();
    slot_acc.lamports = 777;
    (program, vec![signer, slot_acc])
}

#[test]
fn unset_uninitialized_is_refused() {
    let (program, accounts) = unset_world(false, [0u8; 32]);
    assert_eq!(
        InstructionProcessor::process_unset_profile_nft(&accounts, &program.to_bytes()),
        Err(ProcessError::Custom(NFTError::NotInitialized))
    );
    assert_eq!(accounts[1].lamports, 777);
}

#[test]
fn unset_by_other_signer_is_refused() {
    let (program, accounts) = unset_world(true, [9u8; 32]);
    assert_eq!(
        InstructionProcessor::process_unset_profile_nft(&accounts, &program.to_bytes()),
        Err(ProcessError::Custom(NFTError::InvalidOwner))
    );
    assert_eq!(accounts[1].lamports, 777);
}

#[test]
fn unset_failures_in_order() {
    let (program, mut accounts) = unset_world(true, [0u8; 32]);
    let pid = program.to_bytes();
    assert!(InstructionProcessor::process_unset_profile_nft(&accounts, &pid).is_ok());
    accounts[1].owner = [4u8; 32];
    assert_eq!(
        InstructionProcessor::process_unset_profile_nft(&accounts, &pid),
        Err(ProcessError::InvalidAccountData)
    );
    accounts[1].owner = pid;
    accounts[1].data[0] = 3;
    assert_eq!(
        InstructionProcessor::process_unset_profile_nft(&accounts, &pid),
        Err(ProcessError::InvalidAccountData)
    );
    accounts[1].data.truncate(100);
    assert_eq!(
        InstructionProcessor::process_unset_profile_nft(&accounts, &pid),
        Err(ProcessError::InvalidAccountData)
    );
    accounts[1].key = [6u8; 32];
    assert_eq!(
        InstructionProcessor::process_unset_profile_nft(&accounts, &pid),
        Err(ProcessError::InvalidAccountData)
    );
    accounts[1].is_writable = false;
    assert_eq!(
        InstructionProcessor::process_unset_profile_nft(&accounts, &pid),
        Err(ProcessError::InvalidAccountData)
    );
    accounts.truncate(1);
    assert_eq!(
        InstructionProcessor::process_unset_profile_nft(&accounts, &pid),
        Err(ProcessError::NotEnoughAccountKeys)
    );
    accounts[0].is_signer = false;
    assert_eq!(
        InstructionProcessor::process_unset_profile_nft(&accounts, &pid),
        Err(ProcessError::MissingRequiredSignature)
    );
}
