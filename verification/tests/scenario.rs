use status_message::identity::Identity;
use status_message::ledger::{ContractCall, ContractHandle, LedgerError, Request, Response};
use status_message::scenario::{
    differing_statuses, judge, null_messages, same_message, set_message, token_transfer, Exchange,
    Expectation, Flaw, Gain, Stage,
};

const NEAR: u128 = 1_000_000_000_000_000_000_000_000;

fn owner() -> Identity {
    Identity::named("test.near")
}

fn user() -> Identity {
    Identity::named("alice.test.near")
}

fn contract() -> ContractHandle {
    ContractHandle::named("contract_0.test.near")
}

fn writes(stage: Stage, caller: Identity, message: &str) -> Exchange {
    Exchange {
        stage,
        request: Request::Call {
            caller,
            contract: contract(),
            call: ContractCall::SetStatus { message: message.to_string() },
        },
        expect: Expectation::Returned,
    }
}

fn reads(stage: Stage, caller: Identity, account: Identity, expected: Option<&str>) -> Exchange {
    Exchange {
        stage,
        request: Request::Call {
            caller,
            contract: contract(),
            call: ContractCall::GetStatus { account_id: account },
        },
        expect: Expectation::Status { value: expected.map(|text| text.to_string()) },
    }
}

fn status(value: Option<&str>) -> Response {
    Response::Returned { value: value.map(|text| text.to_string()) }
}

fn expect_status(value: Option<&str>) -> Expectation {
    Expectation::Status { value: value.map(|text| text.to_string()) }
}

#[test]
fn set_message_is_a_write_by_the_user_and_a_read_by_the_owner() {
    assert_eq!(
        set_message(&owner(), &user(), &contract(), 0),
        Some(writes(Stage::SetMessage, user(), "hello"))
    );
    assert_eq!(
        set_message(&owner(), &user(), &contract(), 1),
        Some(reads(Stage::SetMessage, owner(), user(), Some("hello")))
    );
    assert_eq!(set_message(&owner(), &user(), &contract(), 2), None);
    assert_eq!(set_message(&owner(), &user(), &contract(), usize::MAX), None);
}

#[test]
fn null_messages_is_one_read_of_the_owner_by_the_user() {
    assert_eq!(
        null_messages(&owner(), &user(), &contract(), 0),
        Some(reads(Stage::NullMessages, user(), owner(), None))
    );
    assert_eq!(null_messages(&owner(), &user(), &contract(), 1), None);
}

#[test]
fn differing_statuses_is_a_write_and_two_reads_by_the_owner() {
    assert_eq!(
        differing_statuses(&owner(), &user(), &contract(), 0),
        Some(writes(Stage::DifferingStatuses, owner(), "world"))
    );
    assert_eq!(
        differing_statuses(&owner(), &user(), &contract(), 1),
        Some(reads(Stage::DifferingStatuses, owner(), user(), Some("hello")))
    );
    assert_eq!(
        differing_statuses(&owner(), &user(), &contract(), 2),
        Some(reads(Stage::DifferingStatuses, owner(), owner(), Some("world")))
    );
    assert_eq!(differing_statuses(&owner(), &user(), &contract(), 3), None);
}

#[test]
fn token_transfer_measures_transfers_and_measures_again() {
    let sender = Identity::named("alice.test.near");
    let receiver = Identity::named("bob.test.near");
    let at = |step: usize| token_transfer(&sender, &receiver, 10 * NEAR, 30 * NEAR, 31 * NEAR, step);
    let measure = |identity: &Identity, expect: Expectation| Exchange {
        stage: Stage::TokenTransfer,
        request: Request::ViewBalance { identity: identity.clone() },
        expect,
    };
    assert_eq!(at(0), Some(measure(&sender, Expectation::Balance)));
    assert_eq!(at(1), Some(measure(&receiver, Expectation::Balance)));
    assert_eq!(
        at(2),
        Some(Exchange {
            stage: Stage::TokenTransfer,
            request: Request::Transfer {
                from: sender.clone(),
                to: receiver.clone(),
                amount: 10 * NEAR
            },
            expect: Expectation::Transferred,
        })
    );
    assert_eq!(
        at(3),
        Some(measure(
            &sender,
            Expectation::BalanceAfterSending { before: 30 * NEAR, amount: 10 * NEAR }
        ))
    );
    assert_eq!(
        at(4),
        Some(measure(
            &receiver,
            Expectation::BalanceAfterReceiving { before: 31 * NEAR, amount: 10 * NEAR }
        ))
    );
    assert_eq!(at(5), None);
}

#[test]
fn a_failure_of_the_ledger_is_a_flaw_whatever_was_expected() {
    let expectations = || {
        vec![
            Expectation::Created,
            Expectation::Deployed,
            Expectation::Returned,
            expect_status(Some("hello")),
            expect_status(None),
            Expectation::Balance,
            Expectation::Transferred,
            Expectation::BalanceAfterSending { before: 3, amount: 1 },
            Expectation::BalanceAfterReceiving { before: 3, amount: 1 },
        ]
    };
    for expect in expectations() {
        assert_eq!(
            judge(expect, Response::Failed { error: LedgerError::InsufficientBalance }),
            Err(Flaw::Ledger { error: LedgerError::InsufficientBalance })
        );
    }
    for expect in expectations() {
        let error = || LedgerError::ExecutionFailure { diagnostic: "panicked".to_string() };
        assert_eq!(
            judge(expect, Response::Failed { error: error() }),
            Err(Flaw::Ledger { error: error() })
        );
    }
    assert_eq!(
        judge(Expectation::Created, Response::Failed { error: LedgerError::DuplicateName }),
        Err(Flaw::Ledger { error: LedgerError::DuplicateName })
    );
    assert_eq!(
        judge(
            Expectation::Created,
            Response::Failed { error: LedgerError::InsufficientParentBalance }
        ),
        Err(Flaw::Ledger { error: LedgerError::InsufficientParentBalance })
    );
    assert_eq!(
        judge(Expectation::Deployed, Response::Failed { error: LedgerError::DeployRejected }),
        Err(Flaw::Ledger { error: LedgerError::DeployRejected })
    );
}

#[test]
fn what_is_expected_is_kept() {
    assert_eq!(
        judge(Expectation::Created, Response::Created { identity: user() }),
        Ok(Gain::Account { identity: user() })
    );
    assert_eq!(
        judge(Expectation::Deployed, Response::Deployed { contract: contract() }),
        Ok(Gain::Instance { contract: contract() })
    );
    assert_eq!(judge(Expectation::Balance, Response::Balance { amount: 7 }), Ok(Gain::Measure { amount: 7 }));
    assert_eq!(judge(Expectation::Transferred, Response::Transferred), Ok(Gain::Nothing));
}

#[test]
fn a_write_only_has_to_run() {
    assert_eq!(judge(Expectation::Returned, status(None)), Ok(Gain::Nothing));
    assert_eq!(judge(Expectation::Returned, status(Some("anything"))), Ok(Gain::Nothing));
    assert_eq!(judge(Expectation::Returned, status(Some(""))), Ok(Gain::Nothing));
}

#[test]
fn a_read_has_to_bring_exactly_the_status() {
    assert_eq!(judge(expect_status(Some("hello")), status(Some("hello"))), Ok(Gain::Nothing));
    assert_eq!(judge(expect_status(None), status(None)), Ok(Gain::Nothing));
    assert_eq!(
        judge(expect_status(Some("hello")), status(Some("world"))),
        Err(Flaw::WrongStatus {
            expected: Some("hello".to_string()),
            observed: Some("world".to_string())
        })
    );
    assert_eq!(
        judge(expect_status(Some("hello")), status(None)),
        Err(Flaw::WrongStatus { expected: Some("hello".to_string()), observed: None })
    );
    assert_eq!(
        judge(expect_status(Some("hello")), status(Some("Hello"))),
        Err(Flaw::WrongStatus {
            expected: Some("hello".to_string()),
            observed: Some("Hello".to_string())
        })
    );
}

#[test]
fn absent_is_not_the_empty_status() {
    assert_eq!(
        judge(expect_status(None), status(Some(""))),
        Err(Flaw::WrongStatus { expected: None, observed: Some(String::new()) })
    );
    assert_eq!(
        judge(expect_status(Some("")), status(None)),
        Err(Flaw::WrongStatus { expected: Some(String::new()), observed: None })
    );
    assert_eq!(judge(expect_status(Some("")), status(Some(""))), Ok(Gain::Nothing));
    assert!(!same_message(&None, &Some(String::new())));
    assert!(same_message(&None, &None));
    assert!(same_message(&Some("a".to_string()), &Some("a".to_string())));
    assert!(!same_message(&Some("a".to_string()), &Some("b".to_string())));
}

#[test]
fn a_response_of_another_kind_is_unexpected() {
    assert_eq!(judge(Expectation::Created, Response::Transferred), Err(Flaw::UnexpectedResponse));
    assert_eq!(
        judge(Expectation::Created, Response::Deployed { contract: contract() }),
        Err(Flaw::UnexpectedResponse)
    );
    assert_eq!(
        judge(Expectation::Deployed, Response::Created { identity: user() }),
        Err(Flaw::UnexpectedResponse)
    );
    assert_eq!(
        judge(Expectation::Returned, Response::Balance { amount: 1 }),
        Err(Flaw::UnexpectedResponse)
    );
    assert_eq!(
        judge(expect_status(None), Response::Transferred),
        Err(Flaw::UnexpectedResponse)
    );
    assert_eq!(judge(Expectation::Balance, status(None)), Err(Flaw::UnexpectedResponse));
    assert_eq!(
        judge(Expectation::Transferred, Response::Balance { amount: 0 }),
        Err(Flaw::UnexpectedResponse)
    );
    assert_eq!(
        judge(Expectation::BalanceAfterSending { before: 2, amount: 1 }, Response::Transferred),
        Err(Flaw::UnexpectedResponse)
    );
    assert_eq!(
        judge(Expectation::BalanceAfterReceiving { before: 2, amount: 1 }, status(None)),
        Err(Flaw::UnexpectedResponse)
    );
}

#[test]
fn the_sender_is_down_by_the_amount_at_least() {
    let expect = || Expectation::BalanceAfterSending { before: 30 * NEAR, amount: 10 * NEAR };
    let after = |amount: u128| Response::Balance { amount };
    assert_eq!(judge(expect(), after(20 * NEAR)), Ok(Gain::Measure { amount: 20 * NEAR }));
    // A fee on top is in order.
    assert_eq!(judge(expect(), after(20 * NEAR - 1)), Ok(Gain::Measure { amount: 20 * NEAR - 1 }));
    assert_eq!(judge(expect(), after(0)), Ok(Gain::Measure { amount: 0 }));
    assert_eq!(
        judge(expect(), after(20 * NEAR + 1)),
        Err(Flaw::SenderNotDebited { before: 30 * NEAR, after: 20 * NEAR + 1, amount: 10 * NEAR })
    );
    assert_eq!(
        judge(expect(), after(30 * NEAR)),
        Err(Flaw::SenderNotDebited { before: 30 * NEAR, after: 30 * NEAR, amount: 10 * NEAR })
    );
}

#[test]
fn a_sender_that_had_less_than_the_amount_is_never_right() {
    assert_eq!(
        judge(Expectation::BalanceAfterSending { before: 5, amount: 6 }, Response::Balance { amount: 0 }),
        Err(Flaw::SenderNotDebited { before: 5, after: 0, amount: 6 })
    );
    assert_eq!(
        judge(Expectation::BalanceAfterSending { before: 6, amount: 6 }, Response::Balance { amount: 0 }),
        Ok(Gain::Measure { amount: 0 })
    );
    assert_eq!(
        judge(
            Expectation::BalanceAfterSending { before: 0, amount: u128::MAX },
            Response::Balance { amount: 0 }
        ),
        Err(Flaw::SenderNotDebited { before: 0, after: 0, amount: u128::MAX })
    );
}

#[test]
fn the_receiver_is_up_by_the_amount_at_least() {
    let expect = || Expectation::BalanceAfterReceiving { before: 30 * NEAR, amount: 10 * NEAR };
    let after = |amount: u128| Response::Balance { amount };
    assert_eq!(judge(expect(), after(40 * NEAR)), Ok(Gain::Measure { amount: 40 * NEAR }));
    assert_eq!(judge(expect(), after(41 * NEAR)), Ok(Gain::Measure { amount: 41 * NEAR }));
    // No fee comes off the receiver's side.
    assert_eq!(
        judge(expect(), after(40 * NEAR - 1)),
        Err(Flaw::ReceiverNotCredited {
            before: 30 * NEAR,
            after: 40 * NEAR - 1,
            amount: 10 * NEAR
        })
    );
    assert_eq!(
        judge(expect(), after(30 * NEAR)),
        Err(Flaw::ReceiverNotCredited { before: 30 * NEAR, after: 30 * NEAR, amount: 10 * NEAR })
    );
    assert_eq!(
        judge(expect(), after(0)),
        Err(Flaw::ReceiverNotCredited { before: 30 * NEAR, after: 0, amount: 10 * NEAR })
    );
}

#[test]
fn a_receiver_cannot_hold_more_than_fits() {
    assert_eq!(
        judge(
            Expectation::BalanceAfterReceiving { before: u128::MAX, amount: 1 },
            Response::Balance { amount: u128::MAX }
        ),
        Err(Flaw::ReceiverNotCredited { before: u128::MAX, after: u128::MAX, amount: 1 })
    );
    assert_eq!(
        judge(
            Expectation::BalanceAfterReceiving { before: u128::MAX - 1, amount: 1 },
            Response::Balance { amount: u128::MAX }
        ),
        Ok(Gain::Measure { amount: u128::MAX })
    );
    assert_eq!(
        judge(
            Expectation::BalanceAfterReceiving { before: u128::MAX, amount: 0 },
            Response::Balance { amount: u128::MAX }
        ),
        Ok(Gain::Measure { amount: u128::MAX })
    );
}
