use anchor_litesvm::builder::AnchorLiteSVM;
use anchor_litesvm::program::Program;
use anchor_litesvm::instruction::AccountMeta;
use anchor_litesvm::pubkey::Pubkey;
use anchor_litesvm::transaction::TransactionError;

fn key(byte: u8) -> Pubkey {
    Pubkey::new_from_array([byte; 32])
}

fn test_accounts(user: Pubkey, account: Pubkey) -> Vec<AccountMeta> {
    vec![AccountMeta::new(user, true), AccountMeta::new(account, false)]
}

fn test_args(amount: u64) -> Vec<u8> {
    let mut data = vec![1, 2, 3, 4, 5, 6, 7, 8];
    data.extend_from_slice(&amount.to_le_bytes());
    data
}

#[test]
fn test_builder_single_program() {
    let program_id = key(1);
    let program_bytes = vec![0u8; 100];

    let builder = AnchorLiteSVM::new().deploy_program(program_id, &program_bytes);

    assert_eq!(builder.programs().len(), 1);
    assert_eq!(builder.primary_program_id(), Some(program_id));
}

#[test]
fn test_multiple_programs() {
    let program1_id = key(1);
    let program2_id = key(2);
    let program1_bytes = vec![0u8; 100];
    let program2_bytes = vec![0u8; 200];

    let builder = AnchorLiteSVM::new()
        .deploy_program(program1_id, &program1_bytes)
        .deploy_program(program2_id, &program2_bytes);

    assert_eq!(builder.programs().len(), 2);
    assert_eq!(builder.primary_program_id(), Some(program1_id));
}

#[test]
fn test_with_primary_program() {
    let program1_id = key(1);
    let program2_id = key(2);
    let program1_bytes = vec![0u8; 100];
    let program2_bytes = vec![0u8; 200];

    let builder = AnchorLiteSVM::new()
        .deploy_program(program1_id, &program1_bytes)
        .deploy_program(program2_id, &program2_bytes)
        .with_primary_program(program2_id);

    assert_eq!(builder.primary_program_id(), Some(program2_id));
}

#[test]
#[should_panic(expected = "At least one program must be deployed")]
fn test_build_without_programs() {
    if let Err(e) = AnchorLiteSVM::new().try_build() {
        panic!("{}", e.to_string());
    }
}

#[test]
fn programs_are_deployed_in_the_order_in_which_they_were_added() {
    let deployment = AnchorLiteSVM::new()
        .deploy_programs(vec![])
        .deploy_program(key(1), &[1])
        .deploy_programs(vec![(key(2), vec![2, 2]), (key(3), vec![])])
        .try_build()
        .unwrap();
    assert_eq!(
        deployment.programs,
        vec![(key(1), vec![1]), (key(2), vec![2, 2]), (key(3), vec![])]
    );
    assert_eq!(deployment.primary_program_id, key(1));

    let builder = AnchorLiteSVM::new().deploy_programs(vec![(key(5), vec![5]), (key(6), vec![6])]);
    assert_eq!(builder.primary_program_id(), Some(key(5)));
    assert_eq!(builder.build().primary_program_id, key(5));

    let chosen = AnchorLiteSVM::new().with_primary_program(key(9));
    assert_eq!(chosen.primary_program_id(), Some(key(9)));
    assert_eq!(
        chosen.try_build().unwrap_err(),
        TransactionError::BuildError("At least one program must be deployed".to_string())
    );
    assert!(AnchorLiteSVM::new().primary_program_id().is_none());
}

#[test]
fn an_environment_is_made_in_one_call() {
    let one = AnchorLiteSVM::build_with_program(key(1), &[7, 7]);
    assert_eq!(one.programs, vec![(key(1), vec![7, 7])]);
    assert_eq!(one.primary_program_id, key(1));

    let programs = vec![(key(1), vec![1]), (key(2), vec![2])];
    let first = AnchorLiteSVM::from_programs(programs.clone(), None);
    assert_eq!(first.primary_program_id, key(1));
    assert_eq!(first.programs, programs);
    let named = AnchorLiteSVM::from_programs(programs.clone(), Some(key(2)));
    assert_eq!(named.primary_program_id, key(2));
    assert_eq!(named.programs, programs);
    let foreign = AnchorLiteSVM::from_programs(programs.clone(), Some(key(8)));
    assert_eq!(foreign.primary_program_id, key(8));
}

#[test]
fn test_production_compatible_syntax() {
    let program_id = key(1);
    let user = key(2);
    let account = key(3);

    let program = Program::new(program_id);
    let ix = program
        .request()
        .accounts(test_accounts(user, account))
        .args(test_args(100))
        .instructions()
        .unwrap()
        .remove(0);

    assert_eq!(ix.program_id, program_id);
    assert_eq!(ix.accounts.len(), 2);
    assert!(ix.data.len() > 8);
}

#[test]
fn test_convenience_method() {
    let program_id = key(1);
    let user = key(2);
    let account = key(3);

    let program = Program::new(program_id);
    let ix = program
        .request()
        .accounts(test_accounts(user, account))
        .args(test_args(100))
        .instruction()
        .unwrap();

    assert_eq!(ix.program_id, program_id);
}

#[test]
fn a_request_without_payload_gives_no_instruction() {
    let program = Program::new(key(1));
    assert_eq!(program.id(), key(1));
    let message = "No instruction data provided. Call .args() before .instructions()";
    assert_eq!(
        program.request().accounts(test_accounts(key(2), key(3))).instructions(),
        Err(TransactionError::BuildError(message.to_string()))
    );
    assert_eq!(
        program.request().instruction(),
        Err(TransactionError::BuildError(message.to_string()))
    );
    assert_eq!(
        program.request().args(vec![]).instruction(),
        Err(TransactionError::BuildError(message.to_string()))
    );
    let ix = program.request().args(vec![1]).instruction().unwrap();
    assert!(ix.accounts.is_empty());
    assert_eq!(ix.data, vec![1]);
    let ixs = program
        .request()
        .accounts(test_accounts(key(2), key(3)))
        .accounts(test_accounts(key(4), key(5)))
        .args(vec![1])
        .args(vec![2, 3])
        .instructions()
        .unwrap();
    assert_eq!(ixs.len(), 1);
    assert_eq!(ixs[0].accounts, test_accounts(key(4), key(5)));
    assert_eq!(ixs[0].data, vec![2, 3]);
}
