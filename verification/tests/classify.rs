use cheatnet::cheatcodes::CheatcodeError;
use cheatnet::error::{EnhancedHintError, HintError};
use cheatnet::felt::Felt252;
use cheatnet::rpc::CallContractFailure;

fn felt(value: u128) -> Felt252 {
    Felt252::from_u128(value)
}

#[test]
fn a_panic_of_the_called_contract_is_recoverable() {
    let failure = CallContractFailure::Panic { panic_data: vec![felt(1), felt(2), felt(3)] };
    assert_eq!(
        CheatcodeError::from(failure),
        CheatcodeError::Recoverable(vec![felt(1), felt(2), felt(3)])
    );
}

#[test]
fn a_panic_without_data_is_recoverable() {
    let failure = CallContractFailure::Panic { panic_data: vec![] };
    assert_eq!(CheatcodeError::from(failure), CheatcodeError::Recoverable(vec![]));
}

#[test]
fn an_error_of_the_call_is_unrecoverable_and_keeps_its_message() {
    let failure = CallContractFailure::Error { msg: String::from("x") };
    let classified = CheatcodeError::from(failure);
    assert_eq!(
        classified,
        CheatcodeError::Unrecoverable(EnhancedHintError::Hint(HintError::CustomHint(
            String::from("x")
        )))
    );
    match classified {
        CheatcodeError::Unrecoverable(error) => {
            assert!(error.message().contains("x"));
            assert_eq!(error.message(), "x");
        }
        CheatcodeError::Recoverable(_) => panic!("an error of the call cannot be recovered"),
    }
}

#[test]
fn a_harness_error_is_unrecoverable() {
    let error = EnhancedHintError::from(HintError::custom("no such class"));
    assert_eq!(
        CheatcodeError::from(error),
        CheatcodeError::Unrecoverable(EnhancedHintError::Hint(HintError::CustomHint(
            String::from("no such class")
        )))
    );
}

#[test]
fn errors_give_their_words() {
    let error = HintError::custom("Failed to read input data");
    assert_eq!(error.message(), "Failed to read input data");
    assert_eq!(EnhancedHintError::Hint(error).message(), "Failed to read input data");
}
