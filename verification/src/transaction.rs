//! What the ledger reports of a transaction, and the questions a test asks
//! of it.

use crate::instruction::Instruction;
use crate::logs::{compute_units_in_logs, units_in_logs};
use crate::pubkey::Pubkey;
use crate::text::{
    debug_quoted, debug_string, decimal, decimal_string, join, joined, lower_hex,
    lower_hex_string, str_contains, text_contains,
};
use vstd::prelude::*;
use vstd::string::StringExecFns;

verus! {

/// What can go wrong between an instruction and its result.
#[derive(Clone, Debug, PartialEq, Eq)]
pub enum TransactionError {
    /// The ledger rejected the transaction.
    ExecutionFailed(String),
    /// The transaction could not be put together.
    BuildError(String),
    /// The result is not what the test expected.
    AssertionFailed(String),
}

impl TransactionError {
    /// The text that came with the error.
    pub open spec fn detail(&self) -> Seq<char> {
        match self {
            TransactionError::ExecutionFailed(text) => text@,
            TransactionError::BuildError(text) => text@,
            TransactionError::AssertionFailed(text) => text@,
        }
    }

    /// The error in words.
    pub open spec fn description(&self) -> Seq<char> {
        match self {
            TransactionError::ExecutionFailed(text) => "Transaction execution failed: "@ + text@,
            TransactionError::BuildError(text) => "Transaction build error: "@ + text@,
            TransactionError::AssertionFailed(text) => "Assertion failed: "@ + text@,
        }
    }

    /// Says the error in words.
    pub fn to_string(&self) -> (r: String)
        ensures
            r@ == self.description(),
    {
        match self {
            TransactionError::ExecutionFailed(text) => String::from_str(
                "Transaction execution failed: ",
            ).concat(text.as_str()),
            TransactionError::BuildError(text) => String::from_str(
                "Transaction build error: ",
            ).concat(text.as_str()),
            TransactionError::AssertionFailed(text) => String::from_str(
                "Assertion failed: ",
            ).concat(text.as_str()),
        }
    }
}

/// A transaction that is ready to be signed and handed to the ledger.
#[derive(Clone, Debug, PartialEq, Eq)]
pub struct TransactionRequest {
    /// The instructions, which run in this order and go through together or
    /// not at all.
    pub instructions: Vec<Instruction>,
    /// The account that pays the fee.
    pub payer: Pubkey,
    /// The accounts that sign, in the order in which they were given.
    pub signers: Vec<Pubkey>,
}

/// Puts `instructions` into one transaction that `signers` sign and the first
/// of them pays for. Without a signer there is nothing to hand to the ledger.
pub fn prepare_transaction(instructions: Vec<Instruction>, signers: Vec<Pubkey>) -> (r: Result<
    TransactionRequest,
    TransactionError,
>)
    ensures
        match r {
            Ok(request) => {
                &&& signers@.len() > 0
                &&& request.instructions == instructions
                &&& request.payer == signers@[0]
                &&& request.signers == signers
            },
            Err(e) => {
                &&& signers@.len() == 0
                &&& e is BuildError
                &&& e.detail() == "No signers provided"@
            },
        },
{
    if signers.len() == 0 {
        return Err(TransactionError::BuildError(String::from_str("No signers provided")));
    }
    let payer = signers[0];
    Ok(TransactionRequest { instructions, payer, signers })
}

/// What the ledger recorded while it ran a transaction.
#[derive(Clone, Debug, PartialEq, Eq)]
pub struct TransactionMetadata {
    /// The log lines, in the order in which they were written.
    pub logs: Vec<String>,
    /// The compute units that the transaction used.
    pub compute_units_consumed: u64,
}

/// What the ledger recorded of a transaction that it rejected.
#[derive(Clone, Debug, PartialEq, Eq)]
pub struct FailedTransactionMetadata {
    /// Why the ledger rejected it.
    pub err: String,
    /// What it recorded up to that point.
    pub meta: TransactionMetadata,
}

/// The outcome of a transaction: its logs and cost, and the error if it was
/// rejected.
#[derive(Debug)]
pub struct TransactionResult {
    inner: TransactionMetadata,
    instruction_name: Option<String>,
    error: Option<String>,
}

/// What a `TransactionResult` holds, as mathematical values.
pub struct TransactionResultView {
    pub logs: Seq<Seq<char>>,
    pub compute_units: u64,
    pub instruction_name: Option<Seq<char>>,
    pub error: Option<Seq<char>>,
}

/// Whether one of `logs` contains `pattern`.
pub open spec fn any_log_contains(logs: Seq<Seq<char>>, pattern: Seq<char>) -> bool {
    exists|i: int| 0 <= i < logs.len() && text_contains(#[trigger] logs[i], pattern)
}

/// The test that a line contains `pattern`.
pub open spec fn containing(pattern: Seq<char>) -> spec_fn(Seq<char>) -> bool {
    |line: Seq<char>| text_contains(line, pattern)
}

/// The text that an error code takes in the ledger's error.
pub open spec fn error_code_text(error_code: u32) -> Seq<char> {
    "custom program error: 0x"@ + lower_hex(error_code as nat)
}

impl TransactionResultView {
    /// Whether the transaction went through.
    pub open spec fn is_success(self) -> bool {
        self.error is None
    }

    /// Whether the transaction was rejected with an error that contains
    /// `expected`.
    pub open spec fn has_error(self, expected: Seq<char>) -> bool {
        self.error matches Some(error) && text_contains(error, expected)
    }

    /// Whether the transaction was rejected and `name` stands in a log line or
    /// in the error.
    pub open spec fn has_anchor_error(self, name: Seq<char>) -> bool {
        &&& self.error is Some
        &&& (any_log_contains(self.logs, name) || self.has_error(name))
    }

    /// The log lines, one below the other.
    pub open spec fn log_dump(self) -> Seq<char> {
        joined(self.logs, "\n"@)
    }

    /// The lines of a report on the transaction: a heading, the name under
    /// which it was sent, the log, the error, the cost, and a rule.
    pub open spec fn report_lines(self) -> Seq<Seq<char>> {
        seq!["=== Transaction Logs ==="@] + match self.instruction_name {
            Some(name) => seq!["Instruction: "@ + name],
            None => Seq::empty(),
        } + self.logs + match self.error {
            Some(error) => seq!["Error: "@ + error],
            None => Seq::empty(),
        } + seq![
            "Compute Units: "@ + decimal(self.compute_units as nat),
            "========================"@,
        ]
    }

    /// What is said when the transaction should have gone through.
    pub open spec fn success_message(self) -> Seq<char> {
        "Transaction failed: "@ + self.error.unwrap() + "\nLogs:\n"@ + self.log_dump()
    }

    /// What is said when the transaction should have been rejected.
    pub open spec fn failure_message(self) -> Seq<char> {
        "Expected transaction to fail, but it succeeded.\nLogs:\n"@ + self.log_dump()
    }

    /// What is said when the transaction should have been rejected with an
    /// error that contains `expected`.
    pub open spec fn error_message(self, expected: Seq<char>) -> Seq<char> {
        match self.error {
            Some(error) => "Transaction failed with unexpected error.\nExpected substring: "@
                + expected + "\nActual error: "@ + error + "\nLogs:\n"@ + self.log_dump(),
            None => "Expected transaction to fail with error containing '"@ + expected
                + "', but it succeeded.\nLogs:\n"@ + self.log_dump(),
        }
    }

    /// What is said when `name` should have stood in the logs or the error of
    /// a rejected transaction.
    pub open spec fn anchor_error_message(self, name: Seq<char>) -> Seq<char> {
        match self.error {
            Some(error) => "Expected Anchor error '"@ + name
                + "' not found in transaction logs or error message.\nError: Some("@
                + debug_quoted(error) + ")\nLogs:\n"@ + self.log_dump(),
            None => self.failure_message(),
        }
    }

    /// What is said when a log line should have contained `expected`.
    pub open spec fn log_error_message(self, expected: Seq<char>) -> Seq<char> {
        "Expected error message '"@ + expected + "' not found in logs.\nLogs:\n"@
            + self.log_dump()
    }
}

/// The view of an optional text.
pub open spec fn option_text(text: Option<String>) -> Option<Seq<char>> {
    match text {
        Some(text) => Some(text@),
        None => None,
    }
}

impl View for TransactionResult {
    type V = TransactionResultView;

    closed spec fn view(&self) -> TransactionResultView {
        TransactionResultView {
            logs: self.inner.logs.deep_view(),
            compute_units: self.inner.compute_units_consumed,
            instruction_name: option_text(self.instruction_name),
            error: option_text(self.error),
        }
    }
}

impl TransactionResult {
    /// The result of a transaction that went through.
    pub fn new(result: TransactionMetadata, instruction_name: Option<String>) -> (r: Self)
        ensures
            r@ == (TransactionResultView {
                logs: result.logs.deep_view(),
                compute_units: result.compute_units_consumed,
                instruction_name: option_text(instruction_name),
                error: None,
            }),
    {
        TransactionResult { inner: result, instruction_name, error: None }
    }

    /// The result of a transaction that the ledger rejected with `error`.
    pub fn new_failed(
        error: String,
        result: TransactionMetadata,
        instruction_name: Option<String>,
    ) -> (r: Self)
        ensures
            r@ == (TransactionResultView {
                logs: result.logs.deep_view(),
                compute_units: result.compute_units_consumed,
                instruction_name: option_text(instruction_name),
                error: Some(error@),
            }),
    {
        TransactionResult { inner: result, instruction_name, error: Some(error) }
    }

    /// The result that stands for what the ledger answered: a rejection is
    /// kept with its error, its logs and its cost, and is no error of this
    /// function.
    pub fn from_outcome(
        outcome: Result<TransactionMetadata, FailedTransactionMetadata>,
        instruction_name: Option<String>,
    ) -> (r: Self)
        ensures
            r@.instruction_name == option_text(instruction_name),
            match outcome {
                Ok(meta) => {
                    &&& r@.error is None
                    &&& r@.logs == meta.logs.deep_view()
                    &&& r@.compute_units == meta.compute_units_consumed
                },
                Err(failed) => {
                    &&& r@.error == Some(failed.err@)
                    &&& r@.logs == failed.meta.logs.deep_view()
                    &&& r@.compute_units == failed.meta.compute_units_consumed
                },
            },
    {
        match outcome {
            Ok(meta) => TransactionResult::new(meta, instruction_name),
            Err(failed) => TransactionResult::new_failed(failed.err, failed.meta, instruction_name),
        }
    }

    /// The result of the transaction that was sent under the name
    /// `instruction_name`, given what the ledger answered. A rejection comes
    /// back as a result with its error, its logs and its cost, never as an
    /// error of this function, so that a test can ask why it was rejected.
    pub fn from_execution(
        outcome: Result<TransactionMetadata, FailedTransactionMetadata>,
        instruction_name: &str,
    ) -> (r: Self)
        ensures
            r@.instruction_name == Some(instruction_name@),
            match outcome {
                Ok(meta) => {
                    &&& r@.error is None
                    &&& r@.logs == meta.logs.deep_view()
                    &&& r@.compute_units == meta.compute_units_consumed
                },
                Err(failed) => {
                    &&& r@.error == Some(failed.err@)
                    &&& r@.logs == failed.meta.logs.deep_view()
                    &&& r@.compute_units == failed.meta.compute_units_consumed
                },
            },
    {
        TransactionResult::from_outcome(outcome, Some(String::from_str(instruction_name)))
    }

    /// Whether the transaction went through.
    pub fn is_success(&self) -> (r: bool)
        ensures
            r == self@.is_success(),
    {
        self.error.is_none()
    }

    /// The error, if the transaction was rejected.
    pub fn error(&self) -> (r: Option<&String>)
        ensures
            r is Some == self@.error is Some,
            r matches Some(error) ==> self@.error == Some(error@),
    {
        self.error.as_ref()
    }

    /// The name under which the transaction was sent, if it had one.
    pub fn instruction_name(&self) -> (r: Option<&String>)
        ensures
            r is Some == self@.instruction_name is Some,
            r matches Some(name) ==> self@.instruction_name == Some(name@),
    {
        self.instruction_name.as_ref()
    }

    /// The same result under the name `instruction_name`.
    pub fn with_instruction_name(self, instruction_name: String) -> (r: Self)
        ensures
            r@ == (TransactionResultView { instruction_name: Some(instruction_name@), ..self@ }),
    {
        TransactionResult {
            inner: self.inner,
            instruction_name: Some(instruction_name),
            error: self.error,
        }
    }

    /// The log lines, in the order in which they were written.
    pub fn logs(&self) -> (r: &[String])
        ensures
            r.deep_view() == self@.logs,
    {
        let logs = self.inner.logs.as_slice();
        logs
    }

    /// The compute units that the transaction used.
    pub fn compute_units(&self) -> (r: u64)
        ensures
            r == self@.compute_units,
    {
        self.inner.compute_units_consumed
    }

    /// What the ledger recorded.
    pub fn inner(&self) -> (r: &TransactionMetadata)
        ensures
            r.logs.deep_view() == self@.logs,
            r.compute_units_consumed == self@.compute_units,
    {
        &self.inner
    }

    /// The first log line that contains `pattern`, if there is one.
    pub fn find_log(&self, pattern: &str) -> (r: Option<&String>)
        ensures
            r is Some == any_log_contains(self@.logs, pattern@),
            r matches Some(line) ==> exists|i: int|
                {
                    &&& 0 <= i < self@.logs.len()
                    &&& #[trigger] self@.logs[i] == line@
                    &&& text_contains(line@, pattern@)
                    &&& forall|j: int| 0 <= j < i ==> !text_contains(self@.logs[j], pattern@)
                },
    {
        let mut i: usize = 0;
        while i < self.inner.logs.len()
            invariant
                i <= self.inner.logs@.len(),
                forall|j: int|
                    0 <= j < i ==> !text_contains(
                        #[trigger] self.inner.logs.deep_view()[j],
                        pattern@,
                    ),
            decreases self.inner.logs@.len() - i,
        {
            if str_contains(self.inner.logs[i].as_str(), pattern) {
                assert(self@.logs[i as int] == self.inner.logs[i as int]@);
                return Some(&self.inner.logs[i]);
            }
            i += 1;
        }
        None
    }

    /// Whether a log line contains `message`.
    pub fn has_log(&self, message: &str) -> (r: bool)
        ensures
            r == any_log_contains(self@.logs, message@),
    {
        self.find_log(message).is_some()
    }

    /// The log lines that contain `pattern`, in the order of the log.
    pub fn find_logs(&self, pattern: &str) -> (r: Vec<&String>)
        ensures
            r.deep_view() == self@.logs.filter(containing(pattern@)),
    {
        let ghost keep = containing(pattern@);
        let mut found: Vec<&String> = Vec::new();
        let mut i: usize = 0;
        proof {
            reveal(Seq::filter);
        }
        while i < self.inner.logs.len()
            invariant
                i <= self.inner.logs@.len(),
                keep == containing(pattern@),
                found.deep_view() == self.inner.logs.deep_view().take(i as int).filter(keep),
            decreases self.inner.logs@.len() - i,
        {
            let ghost head = self.inner.logs.deep_view().take(i as int);
            let line = &self.inner.logs[i];
            let hit = str_contains(line.as_str(), pattern);
            if hit {
                found.push(line);
            }
            proof {
                reveal(Seq::filter);
                let next = self.inner.logs.deep_view().take(i + 1);
                assert(next.drop_last() =~= head);
            }
            i += 1;
        }
        assert(self.inner.logs.deep_view().take(i as int) =~= self.inner.logs.deep_view());
        found
    }

    /// The compute units that the log reports, for a ledger that does not
    /// count them itself: what the first line says that reports any, and
    /// zero where none does.
    pub fn compute_units_from_logs(&self) -> (r: u64)
        ensures
            r == units_in_logs(self@.logs),
    {
        compute_units_in_logs(self.logs())
    }

    /// A report on the transaction, line by line, for a test to print.
    pub fn logs_report(&self) -> (r: String)
        ensures
            r@ == joined(self@.report_lines(), "\n"@),
    {
        let mut lines: Vec<String> = Vec::new();
        lines.push(String::from_str("=== Transaction Logs ==="));
        match &self.instruction_name {
            Some(name) => {
                let line = String::from_str("Instruction: ").concat(name.as_str());
                lines.push(line);
            },
            None => {},
        }
        let ghost head = lines.deep_view();
        let mut i: usize = 0;
        while i < self.inner.logs.len()
            invariant
                i <= self.inner.logs@.len(),
                lines.deep_view() == head + self.inner.logs.deep_view().take(i as int),
            decreases self.inner.logs@.len() - i,
        {
            let ghost before = lines.deep_view();
            let line = self.inner.logs[i].clone();
            lines.push(line);
            assert(lines.deep_view() =~= before.push(self.inner.logs@[i as int]@));
            i += 1;
        }
        let ghost body = lines.deep_view();
        match &self.error {
            Some(error) => {
                let line = String::from_str("Error: ").concat(error.as_str());
                lines.push(line);
                assert(lines.deep_view() =~= body.push("Error: "@ + error@));
            },
            None => {},
        }
        let ghost most = lines.deep_view();
        let cost = String::from_str("Compute Units: ").concat(
            decimal_string(self.inner.compute_units_consumed).as_str(),
        );
        let ghost cost_text = cost@;
        lines.push(cost);
        lines.push(String::from_str("========================"));
        assert(lines.deep_view() =~= most.push(cost_text).push("========================"@));
        assert(lines.deep_view() =~= self@.report_lines());
        join(lines.as_slice(), "\n")
    }

    /// The log lines, one below the other.
    pub fn log_dump(&self) -> (r: String)
        ensures
            r@ == self@.log_dump(),
    {
        join(self.logs(), "\n")
    }

    /// Whether the transaction went through; if not, the error and the logs.
    pub fn check_success(&self) -> (r: Result<(), TransactionError>)
        ensures
            r is Ok == self@.is_success(),
            r matches Err(e) ==> e is AssertionFailed && e.detail() == self@.success_message(),
    {
        match &self.error {
            None => Ok(()),
            Some(error) => {
                let mut message = String::from_str("Transaction failed: ");
                message.append(error.as_str());
                message.append("\nLogs:\n");
                message.append(self.log_dump().as_str());
                Err(TransactionError::AssertionFailed(message))
            },
        }
    }

    /// Whether the transaction was rejected; if not, the logs.
    pub fn check_failure(&self) -> (r: Result<(), TransactionError>)
        ensures
            r is Ok == !self@.is_success(),
            r matches Err(e) ==> e is AssertionFailed && e.detail() == self@.failure_message(),
    {
        match &self.error {
            Some(_) => Ok(()),
            None => {
                let mut message = String::from_str(
                    "Expected transaction to fail, but it succeeded.\nLogs:\n",
                );
                message.append(self.log_dump().as_str());
                Err(TransactionError::AssertionFailed(message))
            },
        }
    }

    /// Whether the transaction was rejected with an error that contains
    /// `expected_error`; if not, what was expected, what came, and the logs.
    pub fn check_error(&self, expected_error: &str) -> (r: Result<(), TransactionError>)
        ensures
            r is Ok == self@.has_error(expected_error@),
            r matches Err(e) ==> e is AssertionFailed && e.detail() == self@.error_message(
                expected_error@,
            ),
    {
        match &self.error {
            Some(error) => {
                if str_contains(error.as_str(), expected_error) {
                    Ok(())
                } else {
                    let mut message = String::from_str(
                        "Transaction failed with unexpected error.\nExpected substring: ",
                    );
                    message.append(expected_error);
                    message.append("\nActual error: ");
                    message.append(error.as_str());
                    message.append("\nLogs:\n");
                    message.append(self.log_dump().as_str());
                    Err(TransactionError::AssertionFailed(message))
                }
            },
            None => {
                let mut message = String::from_str(
                    "Expected transaction to fail with error containing '",
                );
                message.append(expected_error);
                message.append("', but it succeeded.\nLogs:\n");
                message.append(self.log_dump().as_str());
                Err(TransactionError::AssertionFailed(message))
            },
        }
    }

    /// Whether the transaction was rejected with the custom program error
    /// `error_code`, which the ledger writes in hexadecimal.
    pub fn check_error_code(&self, error_code: u32) -> (r: Result<(), TransactionError>)
        ensures
            r is Ok == self@.has_error(error_code_text(error_code)),
            r matches Err(e) ==> e is AssertionFailed && e.detail() == self@.error_message(
                error_code_text(error_code),
            ),
    {
        let mut expected = String::from_str("custom program error: 0x");
        expected.append(lower_hex_string(error_code).as_str());
        self.check_error(expected.as_str())
    }

    /// Whether the transaction was rejected and `error_name` stands in a log
    /// line or in the error.
    pub fn check_anchor_error(&self, error_name: &str) -> (r: Result<(), TransactionError>)
        ensures
            r is Ok == self@.has_anchor_error(error_name@),
            r matches Err(e) ==> e is AssertionFailed && e.detail() == self@.anchor_error_message(
                error_name@,
            ),
    {
        match &self.error {
            None => self.check_failure(),
            Some(error) => {
                if self.has_log(error_name) || str_contains(error.as_str(), error_name) {
                    Ok(())
                } else {
                    let mut message = String::from_str("Expected Anchor error '");
                    message.append(error_name);
                    message.append(
                        "' not found in transaction logs or error message.\nError: Some(",
                    );
                    message.append(debug_string(error.as_str()).as_str());
                    message.append(")\nLogs:\n");
                    message.append(self.log_dump().as_str());
                    Err(TransactionError::AssertionFailed(message))
                }
            },
        }
    }

    /// Whether a log line contains `error_message`, whatever the error is.
    pub fn check_log_error(&self, error_message: &str) -> (r: Result<(), TransactionError>)
        ensures
            r is Ok == any_log_contains(self@.logs, error_message@),
            r matches Err(e) ==> e is AssertionFailed && e.detail() == self@.log_error_message(
                error_message@,
            ),
    {
        if self.has_log(error_message) {
            Ok(())
        } else {
            let mut message = String::from_str("Expected error message '");
            message.append(error_message);
            message.append("' not found in logs.\nLogs:\n");
            message.append(self.log_dump().as_str());
            Err(TransactionError::AssertionFailed(message))
        }
    }

    /// Passes a result that went through on to the next assertion.
    pub fn assert_success(&self) -> (r: &Self)
        requires
            self@.is_success(),
        ensures
            r == self,
    {
        self
    }

    /// Passes a result that was rejected on to the next assertion.
    pub fn assert_failure(&self) -> (r: &Self)
        requires
            !self@.is_success(),
        ensures
            r == self,
    {
        self
    }

    /// Passes a result that was rejected with an error that contains
    /// `expected_error` on to the next assertion.
    pub fn assert_error(&self, expected_error: &str) -> (r: &Self)
        requires
            self@.has_error(expected_error@),
        ensures
            r == self,
    {
        self
    }

    /// Passes a result that was rejected with the custom program error
    /// `error_code` on to the next assertion.
    pub fn assert_error_code(&self, error_code: u32) -> (r: &Self)
        requires
            self@.has_error(error_code_text(error_code)),
        ensures
            r == self,
    {
        self
    }

    /// Passes a result that was rejected with the Anchor error `error_name`
    /// on to the next assertion.
    pub fn assert_anchor_error(&self, error_name: &str) -> (r: &Self)
        requires
            self@.has_anchor_error(error_name@),
        ensures
            r == self,
    {
        self
    }

    /// Passes a result with a log line that contains `error_message` on to
    /// the next assertion.
    pub fn assert_log_error(&self, error_message: &str) -> (r: &Self)
        requires
            any_log_contains(self@.logs, error_message@),
        ensures
            r == self,
    {
        self
    }
}

} // verus!
