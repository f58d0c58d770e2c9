use anchor_lang::prelude::Pubkey;
use spl_tlv_account_resolution::account::ExtraAccountMeta;
use spl_tlv_account_resolution::seeds::Seed;
use spl_tlv_account_resolution::state::ExtraAccountMetaList;
use spl_transfer_hook_interface::instruction::{ExecuteInstruction, TransferHookInstruction};
use transfer_hook::address::Address;
use transfer_hook::instruction::decode_execute;
use transfer_hook::meta_list::{encode_meta_list, meta_list_size};
use transfer_hook::processor::extra_account_metas;

#[test]
fn encoding_matches_interface_crate() {
    let token_program = Address::new([9; 32]);
    let counter_mint = Address::new([3; 32]);
    let counter_account = Address::new([4; 32]);
    let ours = encode_meta_list(&extra_account_metas(&token_program, &counter_mint, &counter_account));
    let metas = [
        ExtraAccountMeta::new_with_pubkey(&Pubkey::new_from_array([9; 32]), false, false).unwrap(),
        ExtraAccountMeta::new_with_pubkey(&Pubkey::new_from_array([3; 32]), false, true).unwrap(),
        ExtraAccountMeta::new_with_seeds(
            &[Seed::Literal { bytes: b"mint-authority".to_vec() }],
            false,
            false,
        )
        .unwrap(),
        ExtraAccountMeta::new_with_pubkey(&Pubkey::new_from_array([4; 32]), false, true).unwrap(),
    ];
    let mut theirs = vec![0u8; ExtraAccountMetaList::size_of(metas.len()).unwrap()];
    ExtraAccountMetaList::init::<ExecuteInstruction>(&mut theirs, &metas).unwrap();
    assert_eq!(ours, theirs);
}

#[test]
fn decoding_matches_interface_crate() {
    for amount in [0u64, 1, 111_111_111, u64::MAX] {
        let packed = TransferHookInstruction::Execute { amount }.pack();
        assert_eq!(decode_execute(&packed), Some(amount));
    }
    let other = TransferHookInstruction::InitializeExtraAccountMetaList { extra_account_metas: vec![] }.pack();
    assert_eq!(decode_execute(&other), None);
}

#[test]
fn list_size_matches_interface_crate() {
    for n in [0usize, 1, 4, 100] {
        assert_eq!(meta_list_size(n), Some(ExtraAccountMetaList::size_of(n).unwrap()));
    }
}

#[test]
fn stored_list_decodes_in_registered_order() {
    let token_program = Address::new([9; 32]);
    let counter_mint = Address::new([3; 32]);
    let counter_account = Address::new([4; 32]);
    let data = encode_meta_list(&extra_account_metas(&token_program, &counter_mint, &counter_account));
    assert_eq!(&data[..8], &TransferHookInstruction::Execute { amount: 0 }.pack()[..8]);
    // Read the item count and entries with the interface's own list parser.
    let mut ix = TransferHookInstruction::InitializeExtraAccountMetaList { extra_account_metas: vec![] }.pack();
    ix.truncate(8);
    ix.extend_from_slice(&data[12..]);
    let metas = match TransferHookInstruction::unpack(&ix).unwrap() {
        TransferHookInstruction::InitializeExtraAccountMetaList { extra_account_metas } => extra_account_metas,
        _ => panic!("not a list instruction"),
    };
    assert_eq!(metas.len(), 4);
    assert_eq!(metas[0].discriminator, 0);
    assert_eq!(metas[0].address_config, [9u8; 32]);
    assert_eq!((bool::from(metas[0].is_signer), bool::from(metas[0].is_writable)), (false, false));
    assert_eq!(metas[1].discriminator, 0);
    assert_eq!(metas[1].address_config, [3u8; 32]);
    assert_eq!((bool::from(metas[1].is_signer), bool::from(metas[1].is_writable)), (false, true));
    assert_eq!(metas[2].discriminator, 1);
    let seeds = Seed::unpack_address_config(&metas[2].address_config).unwrap();
    assert_eq!(seeds, vec![Seed::Literal { bytes: b"mint-authority".to_vec() }]);
    assert_eq!((bool::from(metas[2].is_signer), bool::from(metas[2].is_writable)), (false, false));
    assert_eq!(metas[3].discriminator, 0);
    assert_eq!(metas[3].address_config, [4u8; 32]);
    assert_eq!((bool::from(metas[3].is_signer), bool::from(metas[3].is_writable)), (false, true));
}
