use anchor_litesvm::instruction::Instruction;
use anchor_litesvm::pubkey::Pubkey;
use anchor_litesvm::transaction::{
    prepare_transaction, FailedTransactionMetadata, TransactionError, TransactionMetadata,
    TransactionResult,
};

fn key(byte: u8) -> Pubkey {
    Pubkey::new_from_array([byte; 32])
}

fn meta(logs: &[&str], units: u64) -> TransactionMetadata {
    TransactionMetadata {
        logs: logs.iter().map(|line| line.to_string()).collect(),
        compute_units_consumed: units,
    }
}

fn succeeded() -> TransactionResult {
    TransactionResult::new(
        meta(
            &[
                "Program 11111111111111111111111111111111 invoke [1]",
                "Program log: Transfer complete",
                "Program 11111111111111111111111111111111 consumed 150 of 200000 compute units",
                "Program 11111111111111111111111111111111 success",
            ],
            150,
        ),
        Some("transfer".to_string()),
    )
}

fn rejected() -> TransactionResult {
    TransactionResult::new_failed(
        "InstructionError(0, Custom(6000))".to_string(),
        meta(
            &[
                "Program log: AnchorError occurred. Error Code: InsufficientFunds.",
                "Program failed: custom program error: 0x1770",
            ],
            77,
        ),
        None,
    )
}

fn said(r: Result<(), TransactionError>) -> String {
    match r {
        Err(TransactionError::AssertionFailed(text)) => text,
        other => panic!("expected a failed assertion, got {:?}", other),
    }
}

#[test]
fn zero_signers_are_a_build_error() {
    let ix = Instruction { program_id: key(1), accounts: vec![], data: vec![1] };
    let r = prepare_transaction(vec![ix], vec![]);
    assert_eq!(r, Err(TransactionError::BuildError("No signers provided".to_string())));
    assert_eq!(
        r.unwrap_err().to_string(),
        "Transaction build error: No signers provided"
    );
}

#[test]
fn the_first_signer_pays() {
    let ix = Instruction { program_id: key(1), accounts: vec![], data: vec![1] };
    let request = prepare_transaction(vec![ix.clone(), ix.clone()], vec![key(3), key(4)]).unwrap();
    assert_eq!(request.payer, key(3));
    assert_eq!(request.signers, vec![key(3), key(4)]);
    assert_eq!(request.instructions, vec![ix.clone(), ix.clone()]);
}

#[test]
fn a_result_keeps_what_the_ledger_recorded() {
    let result = succeeded();
    assert!(result.is_success());
    assert_eq!(result.error(), None);
    assert_eq!(result.logs().len(), 4);
    assert_eq!(result.logs()[1], "Program log: Transfer complete");
    assert_eq!(result.compute_units(), 150);
    assert_eq!(result.inner().compute_units_consumed, 150);
    assert_eq!(result.instruction_name(), Some(&"transfer".to_string()));

    let result = rejected();
    assert!(!result.is_success());
    assert_eq!(result.error(), Some(&"InstructionError(0, Custom(6000))".to_string()));
    assert_eq!(result.logs().len(), 2);
    assert_eq!(result.compute_units(), 77);
    assert_eq!(result.instruction_name(), None);
}

#[test]
fn a_rejection_is_captured_with_its_logs() {
    let result = TransactionResult::from_outcome(Ok(meta(&["a"], 5)), Some("x".to_string()));
    assert!(result.is_success());
    assert_eq!(result.logs(), ["a".to_string()]);
    assert_eq!(result.compute_units(), 5);
    assert_eq!(result.instruction_name(), Some(&"x".to_string()));

    let failed = FailedTransactionMetadata { err: "AccountNotFound".to_string(), meta: meta(&["b", "c"], 9) };
    let result = TransactionResult::from_outcome(Err(failed), None);
    assert!(!result.is_success());
    assert_eq!(result.error(), Some(&"AccountNotFound".to_string()));
    assert_eq!(result.logs(), ["b".to_string(), "c".to_string()]);
    assert_eq!(result.compute_units(), 9);
    let result = result.with_instruction_name("make".to_string());
    assert_eq!(result.instruction_name(), Some(&"make".to_string()));
    assert_eq!(result.error(), Some(&"AccountNotFound".to_string()));

}

#[test]
fn a_rejected_execution_keeps_its_name_error_logs_and_cost() {
    let failed = FailedTransactionMetadata {
        err: "InstructionError(0, Custom(6000))".to_string(),
        meta: meta(&["Program log: partial", "Program failed"], 4321),
    };
    let result = TransactionResult::from_execution(Err(failed), "make");
    assert!(!result.is_success());
    assert_eq!(result.instruction_name(), Some(&"make".to_string()));
    assert_eq!(result.error(), Some(&"InstructionError(0, Custom(6000))".to_string()));
    assert_eq!(result.logs(), ["Program log: partial".to_string(), "Program failed".to_string()]);
    assert_eq!(result.compute_units(), 4321);
    assert_eq!(result.check_failure(), Ok(()));
    assert_eq!(result.check_error("Custom(6000)"), Ok(()));
    assert!(result.has_log("partial"));

    let result = TransactionResult::from_execution(Ok(meta(&["done"], 7)), "take");
    assert!(result.is_success());
    assert_eq!(result.instruction_name(), Some(&"take".to_string()));
    assert_eq!(result.logs(), ["done".to_string()]);
    assert_eq!(result.compute_units(), 7);
}

#[test]
fn logs_are_searched_by_substring() {
    let result = succeeded();
    assert!(result.has_log("Transfer complete"));
    assert!(result.has_log(""));
    assert!(!result.has_log("transfer complete"));
    assert_eq!(
        result.find_log("Program 1111"),
        Some(&"Program 11111111111111111111111111111111 invoke [1]".to_string())
    );
    assert_eq!(result.find_log("nothing like it"), None);
    let found = result.find_logs("Program 1111");
    assert_eq!(found.len(), 3);
    assert_eq!(found[0], "Program 11111111111111111111111111111111 invoke [1]");
    assert_eq!(found[2], "Program 11111111111111111111111111111111 success");
    assert!(result.find_logs("zzz").is_empty());
    assert_eq!(result.find_logs("").len(), 4);

    let empty = TransactionResult::new(meta(&[], 0), None);
    assert!(!empty.has_log(""));
    assert!(empty.find_logs("").is_empty());
}

#[test]
fn checks_pass_on_what_they_expect() {
    let ok = succeeded();
    assert_eq!(ok.check_success(), Ok(()));
    assert_eq!(ok.check_log_error("Transfer complete"), Ok(()));
    assert!(ok.assert_success().assert_log_error("Transfer").is_success());

    let bad = rejected();
    assert_eq!(bad.check_failure(), Ok(()));
    assert_eq!(bad.check_error("Custom(6000)"), Ok(()));
    assert_eq!(bad.check_anchor_error("InsufficientFunds"), Ok(()));
    assert_eq!(bad.check_anchor_error("Custom"), Ok(()));
    assert_eq!(bad.check_log_error("0x1770"), Ok(()));
    assert!(!bad.assert_failure().assert_error("Custom").assert_anchor_error("Custom").is_success());

    let coded = TransactionResult::new_failed(
        "custom program error: 0x1770".to_string(),
        meta(&[], 0),
        None,
    );
    assert_eq!(coded.check_error_code(6000), Ok(()));
    assert!(coded.check_error_code(6001).is_err());
    assert_eq!(coded.assert_error_code(6000).compute_units(), 0);
    let zero = TransactionResult::new_failed("custom program error: 0x0".to_string(), meta(&[], 0), None);
    assert_eq!(zero.check_error_code(0), Ok(()));
    let big = TransactionResult::new_failed(
        "custom program error: 0xffffffff".to_string(),
        meta(&[], 0),
        None,
    );
    assert_eq!(big.check_error_code(u32::MAX), Ok(()));
}

#[test]
fn failed_checks_say_what_was_found() {
    let ok = succeeded();
    let bad = rejected();
    let ok_logs = "Program 11111111111111111111111111111111 invoke [1]\nProgram log: Transfer complete\nProgram 11111111111111111111111111111111 consumed 150 of 200000 compute units\nProgram 11111111111111111111111111111111 success";
    let bad_logs = "Program log: AnchorError occurred. Error Code: InsufficientFunds.\nProgram failed: custom program error: 0x1770";
    assert_eq!(ok.log_dump(), ok_logs);

    assert_eq!(
        said(bad.check_success()),
        format!("Transaction failed: InstructionError(0, Custom(6000))\nLogs:\n{}", bad_logs)
    );
    assert_eq!(
        said(ok.check_failure()),
        format!("Expected transaction to fail, but it succeeded.\nLogs:\n{}", ok_logs)
    );
    assert_eq!(
        said(bad.check_error("insufficient funds")),
        format!(
            "Transaction failed with unexpected error.\nExpected substring: insufficient funds\nActual error: InstructionError(0, Custom(6000))\nLogs:\n{}",
            bad_logs
        )
    );
    assert_eq!(
        said(ok.check_error("boom")),
        format!(
            "Expected transaction to fail with error containing 'boom', but it succeeded.\nLogs:\n{}",
            ok_logs
        )
    );
    assert_eq!(
        said(bad.check_error_code(6001)),
        format!(
            "Transaction failed with unexpected error.\nExpected substring: custom program error: 0x1771\nActual error: InstructionError(0, Custom(6000))\nLogs:\n{}",
            bad_logs
        )
    );
    assert_eq!(
        said(bad.check_anchor_error("Unauthorized")),
        format!(
            "Expected Anchor error 'Unauthorized' not found in transaction logs or error message.\nError: Some(\"InstructionError(0, Custom(6000))\")\nLogs:\n{}",
            bad_logs
        )
    );
    assert_eq!(
        said(ok.check_anchor_error("Transfer")),
        format!("Expected transaction to fail, but it succeeded.\nLogs:\n{}", ok_logs)
    );
    assert_eq!(
        said(ok.check_log_error("overflow")),
        format!("Expected error message 'overflow' not found in logs.\nLogs:\n{}", ok_logs)
    );
    let quoted = TransactionResult::new_failed("say \"no\"\n".to_string(), meta(&[], 0), None);
    assert_eq!(
        said(quoted.check_anchor_error("x")),
        "Expected Anchor error 'x' not found in transaction logs or error message.\nError: Some(\"say \\\"no\\\"\\n\")\nLogs:\n"
    );
}

#[test]
fn the_report_lists_name_logs_error_and_cost() {
    assert_eq!(
        rejected().logs_report(),
        "=== Transaction Logs ===\nProgram log: AnchorError occurred. Error Code: InsufficientFunds.\nProgram failed: custom program error: 0x1770\nError: InstructionError(0, Custom(6000))\nCompute Units: 77\n========================"
    );
    let named = TransactionResult::new(meta(&["one"], 18_446_744_073_709_551_615), Some("mk".to_string()));
    assert_eq!(
        named.logs_report(),
        "=== Transaction Logs ===\nInstruction: mk\none\nCompute Units: 18446744073709551615\n========================"
    );
    let bare = TransactionResult::new(meta(&[], 0), None);
    assert_eq!(
        bare.logs_report(),
        "=== Transaction Logs ===\nCompute Units: 0\n========================"
    );
}

#[test]
fn errors_say_what_they_are() {
    assert_eq!(
        TransactionError::ExecutionFailed("x".to_string()).to_string(),
        "Transaction execution failed: x"
    );
    assert_eq!(TransactionError::BuildError("y".to_string()).to_string(), "Transaction build error: y");
    assert_eq!(TransactionError::AssertionFailed("z".to_string()).to_string(), "Assertion failed: z");
}
