use transfer_hook::address::Address;
use transfer_hook::derivation::{extra_account_metas_address, mint_authority_address, SignerProof};
use transfer_hook::error::HookError;
use transfer_hook::instruction::decode_execute;
use transfer_hook::meta_list::{encode_meta_list, meta_list_size, AccountDescriptor};
use transfer_hook::processor::{
    fallback, initialize_extra_account_meta_list, transfer_hook,
    InitializeExtraAccountMetaList, TransferHook,
};
use transfer_hook::state::{MintAccount, SystemAccount, TokenAccount};

const EXECUTE: [u8; 8] = [105, 37, 101, 197, 75, 251, 102, 26];

fn addr(b: u8) -> Address {
    Address::new([b; 32])
}

fn program() -> Address {
    addr(7)
}

fn registration(mint: Address) -> InitializeExtraAccountMetaList {
    let list = extra_account_metas_address(&mint, &program()).unwrap().0;
    let authority = mint_authority_address(&program()).unwrap().0;
    InitializeExtraAccountMetaList {
        payer: SystemAccount { key: addr(1), owner: addr(0), lamports: 10_000_000, data: vec![] },
        extra_account_meta_list: SystemAccount { key: list, owner: addr(0), lamports: 0, data: vec![] },
        mint,
        token_program: addr(9),
        counter_mint: MintAccount {
            key: addr(3),
            lamports: 0,
            is_initialized: false,
            supply: 0,
            decimals: 0,
            mint_authority: addr(0),
        },
        mint_authority: authority,
        counter_token_account: addr(4),
    }
}

fn hook(mint: Address) -> TransferHook {
    let list = extra_account_metas_address(&mint, &program()).unwrap().0;
    let (authority, bump) = mint_authority_address(&program()).unwrap();
    let owner = addr(5);
    TransferHook {
        source_token: TokenAccount { key: addr(10), mint, owner, amount: 50 },
        mint,
        destination_token: TokenAccount { key: addr(11), mint, owner: addr(6), amount: 0 },
        owner,
        extra_account_meta_list: list,
        token_program: addr(9),
        counter_mint: MintAccount {
            key: addr(3),
            lamports: 1_000,
            is_initialized: true,
            supply: 10,
            decimals: 0,
            mint_authority: authority,
        },
        mint_authority: authority,
        mint_authority_bump: bump,
        counter_token_account: TokenAccount { key: addr(4), mint: addr(3), owner, amount: 2 },
    }
}

#[test]
fn registration_stores_four_descriptors() {
    let mut ctx = registration(addr(2));
    let r = initialize_extra_account_meta_list(&mut ctx, &program(), 2_000_000, 1_000_000);
    assert_eq!(r, Ok(()));
    let data = &ctx.extra_account_meta_list.data;
    assert_eq!(data.len(), 156);
    assert_eq!(&data[0..8], &EXECUTE);
    assert_eq!(&data[8..12], &[144, 0, 0, 0]);
    assert_eq!(&data[12..16], &[4, 0, 0, 0]);
    assert_eq!(data[16], 0);
    assert_eq!(&data[17..49], &[9u8; 32]);
    assert_eq!(&data[49..51], &[0, 0]);
    assert_eq!(&data[51 + 33..51 + 35], &[0, 1]);
    assert_eq!(data[86], 1);
    assert_eq!(&data[87..89], &[1, 14]);
    assert_eq!(&data[89..103], b"mint-authority");
    assert_eq!(&data[103..119], &[0u8; 16]);
    assert_eq!(&data[119..121], &[0, 0]);
    assert_eq!(data[121], 0);
    assert_eq!(&data[122..154], &[4u8; 32]);
    assert_eq!(&data[156 - 2..], &[0, 1]);
    assert_eq!(ctx.payer.lamports, 7_000_000);
    assert_eq!(ctx.extra_account_meta_list.lamports, 2_000_000);
    assert_eq!(ctx.extra_account_meta_list.owner.bytes, program().bytes);
    assert!(ctx.counter_mint.is_initialized);
    assert_eq!(ctx.counter_mint.lamports, 1_000_000);
    assert_eq!(ctx.counter_mint.decimals, 0);
    assert_eq!(ctx.counter_mint.mint_authority.bytes, mint_authority_address(&program()).unwrap().0.bytes);
}

#[test]
fn registration_twice_fails_in_use() {
    let mut ctx = registration(addr(2));
    assert_eq!(initialize_extra_account_meta_list(&mut ctx, &program(), 2_000_000, 1_000_000), Ok(()));
    let data = ctx.extra_account_meta_list.data.clone();
    let r = initialize_extra_account_meta_list(&mut ctx, &program(), 2_000_000, 1_000_000);
    assert_eq!(r, Err(HookError::AccountInUse));
    assert_eq!(ctx.extra_account_meta_list.data, data);
    assert_eq!(ctx.payer.lamports, 7_000_000);
}

#[test]
fn registration_at_wrong_address_fails() {
    let mut ctx = registration(addr(2));
    ctx.extra_account_meta_list.key = addr(8);
    let r = initialize_extra_account_meta_list(&mut ctx, &program(), 2_000_000, 1_000_000);
    assert_eq!(r, Err(HookError::AddressMismatch));
    assert!(ctx.extra_account_meta_list.data.is_empty());
}

#[test]
fn registration_with_wrong_authority_fails() {
    let mut ctx = registration(addr(2));
    ctx.mint_authority = addr(8);
    let r = initialize_extra_account_meta_list(&mut ctx, &program(), 2_000_000, 1_000_000);
    assert_eq!(r, Err(HookError::AddressMismatch));
}

#[test]
fn registration_without_funds_fails() {
    let mut ctx = registration(addr(2));
    ctx.payer.lamports = 1_999_999;
    let r = initialize_extra_account_meta_list(&mut ctx, &program(), 2_000_000, 1_000_000);
    assert_eq!(r, Err(HookError::InsufficientFunds));
    assert_eq!(ctx.payer.lamports, 1_999_999);
    assert!(!ctx.counter_mint.is_initialized);
}

#[test]
fn registration_without_funds_for_counter_mint_fails() {
    let mut ctx = registration(addr(2));
    ctx.payer.lamports = 2_999_999;
    let r = initialize_extra_account_meta_list(&mut ctx, &program(), 2_000_000, 1_000_000);
    assert_eq!(r, Err(HookError::InsufficientFunds));
    assert_eq!(ctx.payer.lamports, 2_999_999);
    assert!(ctx.extra_account_meta_list.data.is_empty());
    assert_eq!(ctx.extra_account_meta_list.lamports, 0);
    assert!(!ctx.counter_mint.is_initialized);
    ctx.payer.lamports = 3_000_000;
    let r = initialize_extra_account_meta_list(&mut ctx, &program(), 2_000_000, 1_000_000);
    assert_eq!(r, Ok(()));
    assert_eq!(ctx.payer.lamports, 0);
}

#[test]
fn registration_twice_with_other_authority_fails_in_use() {
    let mut ctx = registration(addr(2));
    assert_eq!(initialize_extra_account_meta_list(&mut ctx, &program(), 5, 5), Ok(()));
    ctx.mint_authority = addr(8);
    let r = initialize_extra_account_meta_list(&mut ctx, &program(), 5, 5);
    assert_eq!(r, Err(HookError::AccountInUse));
}

#[test]
fn registration_over_existing_account_fails() {
    let mut ctx = registration(addr(2));
    ctx.extra_account_meta_list.lamports = 1;
    let r = initialize_extra_account_meta_list(&mut ctx, &program(), 2_000_000, 1_000_000);
    assert_eq!(r, Err(HookError::AccountInUse));
}

#[test]
fn list_address_is_deterministic_and_distinct() {
    let a = extra_account_metas_address(&addr(2), &program()).unwrap();
    let b = extra_account_metas_address(&addr(2), &program()).unwrap();
    let c = extra_account_metas_address(&addr(12), &program()).unwrap();
    assert_eq!(a.0.bytes, b.0.bytes);
    assert_eq!(a.1, b.1);
    assert_ne!(a.0.bytes, c.0.bytes);
    assert_ne!(a.0.bytes, addr(2).bytes);
}

#[test]
fn hook_mints_one_for_any_amount() {
    for amount in [0u64, 1, u64::MAX] {
        let mut ctx = hook(addr(2));
        let (authority, bump) = mint_authority_address(&program()).unwrap();
        let req = transfer_hook(&mut ctx, &program(), amount).unwrap();
        assert_eq!(req.token_program.bytes, [9u8; 32]);
        assert_eq!(req.mint.bytes, [3u8; 32]);
        assert_eq!(req.destination.bytes, [4u8; 32]);
        assert_eq!(req.authority.bytes, authority.bytes);
        assert_eq!(req.amount, 1);
        assert_eq!(req.signer_seeds, vec![b"mint-authority".to_vec(), vec![bump]]);
        assert_eq!(ctx.counter_mint.supply, 11);
        assert_eq!(ctx.counter_token_account.amount, 3);
        assert_eq!(ctx.source_token.amount, 50);
    }
}

#[test]
fn hook_with_wrong_seed_authority_fails() {
    let mut ctx = hook(addr(2));
    let program_key = anchor_lang::prelude::Pubkey::new_from_array(program().bytes);
    let (wrong, bump) = anchor_lang::prelude::Pubkey::find_program_address(&[b"wrong-seed"], &program_key);
    ctx.mint_authority = Address::new(wrong.to_bytes());
    ctx.mint_authority_bump = bump;
    ctx.counter_mint.mint_authority = Address::new(wrong.to_bytes());
    let r = transfer_hook(&mut ctx, &program(), 1);
    assert_eq!(r.unwrap_err(), HookError::AuthorizationFailed);
    assert_eq!(ctx.counter_mint.supply, 10);
    assert_eq!(ctx.counter_token_account.amount, 2);
}

#[test]
fn hook_with_foreign_counter_mint_authority_fails() {
    let mut ctx = hook(addr(2));
    ctx.counter_mint.mint_authority = addr(8);
    let r = transfer_hook(&mut ctx, &program(), 1);
    assert_eq!(r.unwrap_err(), HookError::AuthorizationFailed);
    assert_eq!(ctx.counter_mint.supply, 10);
}

#[test]
fn hook_with_wrong_source_fails() {
    let mut ctx = hook(addr(2));
    ctx.source_token.mint = addr(13);
    assert_eq!(transfer_hook(&mut ctx, &program(), 1).unwrap_err(), HookError::InvalidAccount);
}

#[test]
fn hook_with_wrong_list_fails() {
    let mut ctx = hook(addr(2));
    ctx.extra_account_meta_list = addr(13);
    assert_eq!(transfer_hook(&mut ctx, &program(), 1).unwrap_err(), HookError::AddressMismatch);
}

#[test]
fn hook_with_foreign_counter_account_fails() {
    let mut ctx = hook(addr(2));
    ctx.counter_token_account.mint = addr(13);
    assert_eq!(transfer_hook(&mut ctx, &program(), 1).unwrap_err(), HookError::InvalidAccount);
    assert_eq!(ctx.counter_token_account.amount, 2);
}

#[test]
fn hook_at_full_supply_overflows() {
    let mut ctx = hook(addr(2));
    ctx.counter_mint.supply = u64::MAX;
    assert_eq!(transfer_hook(&mut ctx, &program(), 1).unwrap_err(), HookError::Overflow);
    assert_eq!(ctx.counter_token_account.amount, 2);
}

#[test]
fn registered_authority_verifies_at_execution() {
    let mut reg = registration(addr(2));
    assert_eq!(initialize_extra_account_meta_list(&mut reg, &program(), 1, 1_000_000), Ok(()));
    let (again, bump) = mint_authority_address(&program()).unwrap();
    assert_eq!(again.bytes, reg.counter_mint.mint_authority.bytes);
    let seeds = vec![b"mint-authority".to_vec()];
    let proof = SignerProof::new(&again, seeds, bump, &program()).unwrap();
    assert_eq!(proof.signer_address().bytes, reg.counter_mint.mint_authority.bytes);
    let bad = SignerProof::new(&again, vec![b"mint-authorit".to_vec()], bump, &program());
    assert!(bad.is_none());
}

#[test]
fn dispatch_decodes_execute_amount() {
    let mut data = EXECUTE.to_vec();
    data.extend_from_slice(&[1, 0, 0, 0, 0, 0, 0, 0]);
    assert_eq!(decode_execute(&data), Some(1));
    let mut ctx = hook(addr(2));
    assert_eq!(fallback(&program(), &mut ctx, &data).unwrap().amount, 1);
    assert_eq!(ctx.counter_mint.supply, 11);
    assert_eq!(ctx.counter_token_account.amount, 3);
}

#[test]
fn dispatch_rejects_list_instruction_with_missing_items() {
    let mut ctx = hook(addr(2));
    let data = [43u8, 34, 13, 49, 167, 88, 235, 235, 1, 0, 0, 0];
    assert_eq!(decode_execute(&data), None);
    assert_eq!(fallback(&program(), &mut ctx, &data).unwrap_err(), HookError::InvalidInstructionData);
    assert_eq!(ctx.counter_mint.supply, 10);
}

#[test]
fn dispatch_reads_little_endian() {
    let mut data = EXECUTE.to_vec();
    data.extend_from_slice(&[0x10, 0x32, 0, 0, 0, 0, 0, 0x80, 0xff]);
    assert_eq!(decode_execute(&data), Some(0x8000_0000_0000_3210));
}

#[test]
fn dispatch_rejects_other_tags() {
    let mut ctx = hook(addr(2));
    let mut data = vec![1u8, 2, 3, 4, 5, 6, 7, 8];
    data.extend_from_slice(&[1, 0, 0, 0, 0, 0, 0, 0]);
    assert_eq!(fallback(&program(), &mut ctx, &data).unwrap_err(), HookError::InvalidInstructionData);
    assert_eq!(fallback(&program(), &mut ctx, &EXECUTE).unwrap_err(), HookError::InvalidInstructionData);
    assert_eq!(fallback(&program(), &mut ctx, &[]).unwrap_err(), HookError::InvalidInstructionData);
    assert_eq!(ctx.counter_mint.supply, 10);
}

#[test]
fn list_size_for_four_entries() {
    assert_eq!(meta_list_size(4), Some(156));
    assert_eq!(meta_list_size(0), Some(16));
    assert_eq!(meta_list_size(usize::MAX), None);
}

#[test]
fn empty_list_encoding() {
    let empty: Vec<AccountDescriptor> = Vec::new();
    let bytes = encode_meta_list(&empty);
    assert_eq!(bytes, vec![105, 37, 101, 197, 75, 251, 102, 26, 4, 0, 0, 0, 0, 0, 0, 0]);
}
