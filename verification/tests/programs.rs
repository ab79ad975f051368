use anchor_litesvm::instruction::Instruction;
use anchor_litesvm::programs::{
    associated_token_program_id, rent_sysvar_id, system_program_id, token_program_id,
    try_get_associated_token_address, MINT_LEN, TOKEN_ACCOUNT_LEN,
};
use anchor_litesvm::pubkey::Pubkey;
use anchor_litesvm::test_helpers::{
    confirm, create_token_account, create_token_mint, mint_to, slot_at_step,
    try_create_associated_token_account, try_create_funded_token_account, try_derive_pda,
    try_get_pda, try_get_pda_with_bump,
};
use anchor_litesvm::transaction::{
    FailedTransactionMetadata, TransactionError, TransactionMetadata,
};

fn key(byte: u8) -> Pubkey {
    Pubkey::new_from_array([byte; 32])
}

fn outside(key: &Pubkey) -> solana_program::pubkey::Pubkey {
    solana_program::pubkey::Pubkey::new_from_array(key.to_bytes())
}

fn same(ours: &Instruction, theirs: &solana_program::instruction::Instruction) {
    assert_eq!(outside(&ours.program_id), theirs.program_id);
    assert_eq!(ours.data, theirs.data);
    assert_eq!(ours.accounts.len(), theirs.accounts.len());
    for (a, b) in ours.accounts.iter().zip(theirs.accounts.iter()) {
        assert_eq!(outside(&a.pubkey), b.pubkey);
        assert_eq!(a.is_signer, b.is_signer);
        assert_eq!(a.is_writable, b.is_writable);
    }
}

#[test]
fn well_known_addresses_are_those_of_the_programs() {
    assert_eq!(outside(&system_program_id()), solana_program::system_program::id());
    assert_eq!(outside(&token_program_id()), spl_token::id());
    assert_eq!(outside(&associated_token_program_id()), spl_associated_token_account::id());
    assert_eq!(outside(&rent_sysvar_id()), solana_program::sysvar::rent::id());
    assert_eq!(MINT_LEN, 82);
    assert_eq!(TOKEN_ACCOUNT_LEN, 165);
}

#[test]
fn well_known_addresses_read_as_expected_in_base58() {
    assert_eq!(system_program_id().to_string(), "11111111111111111111111111111111");
    assert_eq!(token_program_id().to_string(), "TokenkegQfeZyiNwAJbNbGKPFXCWuBvf9Ss623VQ5DA");
    assert_eq!(
        associated_token_program_id().to_string(),
        "ATokenGPvbdGVxr1b2hvZbsiqW5xWH25efTNsLJA8knL"
    );
    assert_eq!(rent_sysvar_id().to_string(), "SysvarRent111111111111111111111111111111111");
}

#[test]
fn a_mint_is_created_and_initialized_in_one_transaction() {
    let authority = key(1);
    let mint = key(2);
    let request = create_token_mint(&authority, &mint, 1_461_600, 9);
    assert_eq!(request.payer, authority);
    assert_eq!(request.signers, vec![authority, mint]);
    assert_eq!(request.instructions.len(), 2);
    same(
        &request.instructions[0],
        &solana_program::system_instruction::create_account(
            &outside(&authority),
            &outside(&mint),
            1_461_600,
            82,
            &spl_token::id(),
        ),
    );
    same(
        &request.instructions[1],
        &spl_token::instruction::initialize_mint(
            &spl_token::id(),
            &outside(&mint),
            &outside(&authority),
            None,
            9,
        )
        .unwrap(),
    );
    let mut expected = vec![0u8, 9];
    expected.extend_from_slice(&[1; 32]);
    expected.push(0);
    assert_eq!(request.instructions[1].data, expected);
    assert_eq!(request.instructions[1].accounts[0].pubkey, mint);
    assert!(request.instructions[1].accounts[0].is_writable);
    assert_eq!(request.instructions[1].accounts[1].pubkey, rent_sysvar_id());
    assert_eq!(request.instructions[0].program_id, system_program_id());
    assert_eq!(request.instructions[0].accounts[0].pubkey, authority);
    assert_eq!(request.instructions[0].accounts[1].pubkey, mint);
    assert!(request.instructions[0].accounts.iter().all(|a| a.is_signer && a.is_writable));
}

#[test]
fn a_token_account_is_created_and_initialized_in_one_transaction() {
    let owner = key(1);
    let mint = key(2);
    let account = key(3);
    let request = create_token_account(&mint, &owner, &account, 2_039_280);
    assert_eq!(request.payer, owner);
    assert_eq!(request.signers, vec![owner, account]);
    assert_eq!(request.instructions.len(), 2);
    same(
        &request.instructions[0],
        &solana_program::system_instruction::create_account(
            &outside(&owner),
            &outside(&account),
            2_039_280,
            165,
            &spl_token::id(),
        ),
    );
    same(
        &request.instructions[1],
        &spl_token::instruction::initialize_account(
            &spl_token::id(),
            &outside(&account),
            &outside(&mint),
            &outside(&owner),
        )
        .unwrap(),
    );
    assert_eq!(request.instructions[1].data, vec![1]);
    assert_eq!(request.instructions[1].accounts.len(), 4);
}

#[test]
fn tokens_are_minted_on_the_authority_s_signature() {
    let request = mint_to(&key(2), &key(3), &key(1), 1_000_000_000);
    assert_eq!(request.payer, key(1));
    assert_eq!(request.signers, vec![key(1)]);
    assert_eq!(request.instructions.len(), 1);
    same(
        &request.instructions[0],
        &spl_token::instruction::mint_to(
            &spl_token::id(),
            &outside(&key(2)),
            &outside(&key(3)),
            &outside(&key(1)),
            &[],
            1_000_000_000,
        )
        .unwrap(),
    );
    assert_eq!(request.instructions[0].data, vec![7, 0, 202, 154, 59, 0, 0, 0, 0]);
    assert!(request.instructions[0].accounts[2].is_signer);
    assert!(!request.instructions[0].accounts[2].is_writable);
}

#[test]
fn associated_address_is_the_one_the_program_derives() {
    let wallet = key(7);
    let mint = key(9);
    let ours = try_get_associated_token_address(&wallet, &mint).unwrap();
    let theirs = spl_associated_token_account::get_associated_token_address(
        &outside(&wallet),
        &outside(&mint),
    );
    assert_eq!(outside(&ours), theirs);
    assert_ne!(ours, wallet);
    assert_ne!(ours, mint);

    let wallet_bytes = wallet.to_bytes();
    let token_bytes = token_program_id().to_bytes();
    let mint_bytes = mint.to_bytes();
    let seeds: [&[u8]; 3] = [&wallet_bytes, &token_bytes, &mint_bytes];
    assert_eq!(try_get_pda(&seeds, &associated_token_program_id()), Some(ours));
}

#[test]
fn an_associated_account_is_created_by_its_owner() {
    let owner = key(7);
    let mint = key(9);
    let (address, request) = try_create_associated_token_account(&mint, &owner).unwrap();
    assert_eq!(Some(address), try_get_associated_token_address(&owner, &mint));
    assert_eq!(request.payer, owner);
    assert_eq!(request.signers, vec![owner]);
    assert_eq!(request.instructions.len(), 1);
    same(
        &request.instructions[0],
        &spl_associated_token_account::instruction::create_associated_token_account(
            &outside(&owner),
            &outside(&owner),
            &outside(&mint),
            &spl_token::id(),
        ),
    );
    assert_eq!(request.instructions[0].data, vec![0]);
    assert_eq!(request.instructions[0].accounts[1].pubkey, address);
    assert_eq!(request.instructions[0].accounts[4].pubkey, system_program_id());
    assert_eq!(request.instructions[0].accounts[5].pubkey, token_program_id());
}

#[test]
fn a_funded_token_account_takes_one_or_two_transactions() {
    let owner = key(7);
    let mint = key(9);
    let authority = key(11);
    let (address, requests) = try_create_funded_token_account(&owner, &mint, None).unwrap();
    assert_eq!(requests.len(), 1);
    assert_eq!(Some(address), try_get_associated_token_address(&owner, &mint));

    let (address, requests) =
        try_create_funded_token_account(&owner, &mint, Some((1_000_000, authority))).unwrap();
    assert_eq!(requests.len(), 2);
    assert_eq!(requests[0], try_create_associated_token_account(&mint, &owner).unwrap().1);
    assert_eq!(requests[1], mint_to(&mint, &address, &authority, 1_000_000));
    assert_eq!(requests[1].payer, authority);
}

#[test]
fn an_address_is_derived_as_the_ledger_derives_it() {
    let program = key(1);
    let user = key(3);
    let user_bytes = user.to_bytes();
    let seed = 42u64.to_le_bytes();
    let seeds: [&[u8]; 3] = [b"escrow", &user_bytes, &seed];
    let expected =
        solana_program::pubkey::Pubkey::find_program_address(&seeds, &outside(&program));
    let (pda, bump) = try_derive_pda(&seeds, &program).unwrap();
    assert_eq!((outside(&pda), bump), expected);
    assert_eq!(try_get_pda(&seeds, &program), Some(pda));
    assert_eq!(try_get_pda_with_bump(&seeds, &program), Some((pda, bump)));
    assert_eq!(Pubkey::try_find_program_address(&seeds, &program), Some((pda, bump)));
    let none: [&[u8]; 0] = [];
    assert!(try_derive_pda(&none, &program).is_some());
    let long = [0u8; 33];
    let bad: [&[u8]; 1] = [&long];
    assert_eq!(try_derive_pda(&bad, &program), None);
    assert_eq!(try_get_pda(&bad, &program), None);
    assert_eq!(try_get_pda_with_bump(&bad, &program), None);
}

#[test]
fn a_rejected_setup_says_what_it_was_doing() {
    let meta = TransactionMetadata { logs: vec!["l".to_string()], compute_units_consumed: 3 };
    assert_eq!(confirm(Ok(meta.clone()), "Failed to create mint"), Ok(meta.clone()));
    let failed = FailedTransactionMetadata { err: "InsufficientFundsForFee".to_string(), meta };
    assert_eq!(
        confirm(Err(failed), "Failed to create mint"),
        Err(TransactionError::ExecutionFailed(
            "Failed to create mint: InsufficientFundsForFee".to_string()
        ))
    );
}

#[test]
fn the_clock_moves_slot_by_slot() {
    assert_eq!(slot_at_step(10, 0), Some(11));
    assert_eq!(slot_at_step(10, 99), Some(110));
    assert_eq!(slot_at_step(0, u64::MAX - 1), Some(u64::MAX));
    assert_eq!(slot_at_step(0, u64::MAX), None);
    assert_eq!(slot_at_step(u64::MAX, 0), None);
    assert_eq!(slot_at_step(u64::MAX - 1, 0), Some(u64::MAX));
}
