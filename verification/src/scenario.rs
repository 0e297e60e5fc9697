//! The scenarios of a run, and how a response is judged.
//!
//! A scenario is a short script of exchanges: a request to put to the ledger,
//! and what is expected to come back. Each scenario takes the accounts and the
//! registry instance that play its parts, and hands out its exchanges one at a
//! time, by their place in the script.

use crate::identity::Identity;
use crate::ledger::{
    ContractCall, ContractCallView, ContractHandle, LedgerError, LedgerErrorView, Request,
    RequestView, Response, ResponseView,
};
use crate::registry::message_view;
use vstd::prelude::*;

verus! {

/// The part of a run that an exchange belongs to.
#[derive(Debug, Clone, Copy, PartialEq, Eq, Structural)]
pub enum Stage {
    /// Accounts are created and registries deployed.
    Setup,
    /// Tokens move from one account to another.
    TokenTransfer,
    /// An account sets its status and another account reads it.
    SetMessage,
    /// An account that never wrote is looked up.
    NullMessages,
    /// A second account sets its status; both statuses are read.
    DifferingStatuses,
}

/// What has to come back for a request.
#[derive(Debug, Clone, PartialEq)]
pub enum Expectation {
    /// The identity of a new account.
    Created,
    /// The handle of a new contract instance.
    Deployed,
    /// Any returned value: the call only has to run.
    Returned,
    /// Exactly this status, or exactly none.
    Status { value: Option<String> },
    /// Any balance.
    Balance,
    /// The word that the transfer is made.
    Transferred,
    /// The balance of an account that had `before` and has sent `amount`
    /// since: no more than `before - amount`.
    BalanceAfterSending { before: u128, amount: u128 },
    /// The balance of an account that had `before` and has received `amount`
    /// since: no less than `before + amount`.
    BalanceAfterReceiving { before: u128, amount: u128 },
}

/// An [`Expectation`] as contracts speak of it.
pub enum ExpectationView {
    Created,
    Deployed,
    Returned,
    Status { value: Option<Seq<char>> },
    Balance,
    Transferred,
    BalanceAfterSending { before: u128, amount: u128 },
    BalanceAfterReceiving { before: u128, amount: u128 },
}

impl View for Expectation {
    type V = ExpectationView;

    open spec fn view(&self) -> ExpectationView {
        match self {
            Expectation::Created => ExpectationView::Created,
            Expectation::Deployed => ExpectationView::Deployed,
            Expectation::Returned => ExpectationView::Returned,
            Expectation::Status { value } => ExpectationView::Status {
                value: message_view(*value),
            },
            Expectation::Balance => ExpectationView::Balance,
            Expectation::Transferred => ExpectationView::Transferred,
            Expectation::BalanceAfterSending { before, amount } => {
                ExpectationView::BalanceAfterSending { before: *before, amount: *amount }
            },
            Expectation::BalanceAfterReceiving { before, amount } => {
                ExpectationView::BalanceAfterReceiving { before: *before, amount: *amount }
            },
        }
    }
}

/// One step of a script: what to ask, and what has to come back.
#[derive(Debug, Clone, PartialEq)]
pub struct Exchange {
    pub stage: Stage,
    pub request: Request,
    pub expect: Expectation,
}

/// An [`Exchange`] as contracts speak of it.
pub struct ExchangeView {
    pub stage: Stage,
    pub request: RequestView,
    pub expect: ExpectationView,
}

impl View for Exchange {
    type V = ExchangeView;

    open spec fn view(&self) -> ExchangeView {
        ExchangeView { stage: self.stage, request: self.request@, expect: self.expect@ }
    }
}

/// The view of an exchange that may be missing.
pub open spec fn exchange_view(exchange: Option<Exchange>) -> Option<ExchangeView> {
    match exchange {
        Some(exchange) => Some(exchange@),
        None => None,
    }
}

/// The exchange at `step` of `script`, if the script is that long.
pub open spec fn script_at(script: Seq<ExchangeView>, step: int) -> Option<ExchangeView> {
    if 0 <= step < script.len() {
        Some(script[step])
    } else {
        None
    }
}

/// What is wrong with a response.
#[derive(Debug, Clone, PartialEq)]
pub enum Flaw {
    /// The ledger failed to make the transaction.
    Ledger { error: LedgerError },
    /// The response answers another kind of request.
    UnexpectedResponse,
    /// The call returned another status than the one expected.
    WrongStatus { expected: Option<String>, observed: Option<String> },
    /// The sender holds more than its old balance less the amount sent.
    SenderNotDebited { before: u128, after: u128, amount: u128 },
    /// The receiver holds less than its old balance plus the amount sent.
    ReceiverNotCredited { before: u128, after: u128, amount: u128 },
}

/// A [`Flaw`] as contracts speak of it.
pub enum FlawView {
    Ledger { error: LedgerErrorView },
    UnexpectedResponse,
    WrongStatus { expected: Option<Seq<char>>, observed: Option<Seq<char>> },
    SenderNotDebited { before: u128, after: u128, amount: u128 },
    ReceiverNotCredited { before: u128, after: u128, amount: u128 },
}

impl View for Flaw {
    type V = FlawView;

    open spec fn view(&self) -> FlawView {
        match self {
            Flaw::Ledger { error } => FlawView::Ledger { error: error@ },
            Flaw::UnexpectedResponse => FlawView::UnexpectedResponse,
            Flaw::WrongStatus { expected, observed } => FlawView::WrongStatus {
                expected: message_view(*expected),
                observed: message_view(*observed),
            },
            Flaw::SenderNotDebited { before, after, amount } => FlawView::SenderNotDebited {
                before: *before,
                after: *after,
                amount: *amount,
            },
            Flaw::ReceiverNotCredited { before, after, amount } => FlawView::ReceiverNotCredited {
                before: *before,
                after: *after,
                amount: *amount,
            },
        }
    }
}

/// What a run learns from a response that is as expected.
#[derive(Debug, Clone, PartialEq)]
pub enum Gain {
    /// Nothing to keep.
    Nothing,
    /// A new account.
    Account { identity: Identity },
    /// A new contract instance.
    Instance { contract: ContractHandle },
    /// A balance.
    Measure { amount: u128 },
}

/// A [`Gain`] as contracts speak of it.
pub enum GainView {
    Nothing,
    Account { identity: Seq<char> },
    Instance { contract: Seq<char> },
    Measure { amount: u128 },
}

impl View for Gain {
    type V = GainView;

    open spec fn view(&self) -> GainView {
        match self {
            Gain::Nothing => GainView::Nothing,
            Gain::Account { identity } => GainView::Account { identity: identity@ },
            Gain::Instance { contract } => GainView::Instance { contract: contract@ },
            Gain::Measure { amount } => GainView::Measure { amount: *amount },
        }
    }
}

/// The view of a judgement.
pub open spec fn judgement_view(judgement: Result<Gain, Flaw>) -> Result<GainView, FlawView> {
    match judgement {
        Ok(gain) => Ok(gain@),
        Err(flaw) => Err(flaw@),
    }
}

/// Whether an account that had `before` and sent `amount` can hold `after`:
/// the amount is gone, and a fee may be gone with it.
pub open spec fn debited(before: u128, after: u128, amount: u128) -> bool {
    after <= before - amount
}

/// Whether an account that had `before` and received `amount` can hold
/// `after`: the whole amount has arrived.
pub open spec fn credited(before: u128, after: u128, amount: u128) -> bool {
    after >= before + amount
}

/// How `response` fares against `expect`.
///
/// A failure of the ledger is a flaw whatever was expected. Otherwise the
/// response has to be of the expected kind, and where a status or a bound on a
/// balance is expected, it has to meet that too.
pub open spec fn judged(expect: ExpectationView, response: ResponseView) -> Result<
    GainView,
    FlawView,
> {
    match (expect, response) {
        (_, ResponseView::Failed { error }) => Err(FlawView::Ledger { error }),
        (ExpectationView::Created, ResponseView::Created { identity }) => Ok(
            GainView::Account { identity },
        ),
        (ExpectationView::Deployed, ResponseView::Deployed { contract }) => Ok(
            GainView::Instance { contract },
        ),
        (ExpectationView::Returned, ResponseView::Returned { value }) => Ok(GainView::Nothing),
        (
            ExpectationView::Status { value: expected },
            ResponseView::Returned { value: observed },
        ) => {
            if observed == expected {
                Ok(GainView::Nothing)
            } else {
                Err(FlawView::WrongStatus { expected, observed })
            }
        },
        (ExpectationView::Balance, ResponseView::Balance { amount }) => Ok(
            GainView::Measure { amount },
        ),
        (ExpectationView::Transferred, ResponseView::Transferred) => Ok(GainView::Nothing),
        (
            ExpectationView::BalanceAfterSending { before, amount },
            ResponseView::Balance { amount: after },
        ) => {
            if debited(before, after, amount) {
                Ok(GainView::Measure { amount: after })
            } else {
                Err(FlawView::SenderNotDebited { before, after, amount })
            }
        },
        (
            ExpectationView::BalanceAfterReceiving { before, amount },
            ResponseView::Balance { amount: after },
        ) => {
            if credited(before, after, amount) {
                Ok(GainView::Measure { amount: after })
            } else {
                Err(FlawView::ReceiverNotCredited { before, after, amount })
            }
        },
        _ => Err(FlawView::UnexpectedResponse),
    }
}

/// Whether two optional messages are the same.
pub fn same_message(left: &Option<String>, right: &Option<String>) -> (same: bool)
    ensures
        same == (message_view(*left) == message_view(*right)),
{
    match (left, right) {
        (Some(a), Some(b)) => *a == *b,
        (None, None) => true,
        _ => false,
    }
}

/// Judges `response` against `expect`: what the run learns from it, or what
/// is wrong with it.
pub fn judge(expect: Expectation, response: Response) -> (judgement: Result<Gain, Flaw>)
    ensures
        judgement_view(judgement) == judged(expect@, response@),
{
    match (expect, response) {
        (_, Response::Failed { error }) => Err(Flaw::Ledger { error }),
        (Expectation::Created, Response::Created { identity }) => Ok(Gain::Account { identity }),
        (Expectation::Deployed, Response::Deployed { contract }) => Ok(
            Gain::Instance { contract },
        ),
        (Expectation::Returned, Response::Returned { value }) => Ok(Gain::Nothing),
        (Expectation::Status { value: expected }, Response::Returned { value: observed }) => {
            if same_message(&observed, &expected) {
                Ok(Gain::Nothing)
            } else {
                Err(Flaw::WrongStatus { expected, observed })
            }
        },
        (Expectation::Balance, Response::Balance { amount }) => Ok(Gain::Measure { amount }),
        (Expectation::Transferred, Response::Transferred) => Ok(Gain::Nothing),
        (
            Expectation::BalanceAfterSending { before, amount },
            Response::Balance { amount: after },
        ) => {
            if before >= amount && after <= before - amount {
                Ok(Gain::Measure { amount: after })
            } else {
                Err(Flaw::SenderNotDebited { before, after, amount })
            }
        },
        (
            Expectation::BalanceAfterReceiving { before, amount },
            Response::Balance { amount: after },
        ) => {
            if after >= before && after - before >= amount {
                Ok(Gain::Measure { amount: after })
            } else {
                Err(Flaw::ReceiverNotCredited { before, after, amount })
            }
        },
        _ => Err(Flaw::UnexpectedResponse),
    }
}

/// The exchange in which `caller` stores `message` in `contract`.
pub open spec fn writing(
    stage: Stage,
    caller: Seq<char>,
    contract: Seq<char>,
    message: Seq<char>,
) -> ExchangeView {
    ExchangeView {
        stage,
        request: RequestView::Call {
            caller,
            contract,
            call: ContractCallView::SetStatus { message },
        },
        expect: ExpectationView::Returned,
    }
}

/// The exchange in which `caller` asks `contract` for the status of
/// `account_id` and has to be told `expected`.
pub open spec fn reading(
    stage: Stage,
    caller: Seq<char>,
    contract: Seq<char>,
    account_id: Seq<char>,
    expected: Option<Seq<char>>,
) -> ExchangeView {
    ExchangeView {
        stage,
        request: RequestView::Call {
            caller,
            contract,
            call: ContractCallView::GetStatus { account_id },
        },
        expect: ExpectationView::Status { value: expected },
    }
}

/// The exchange in which the balance of `identity` is read and has to meet
/// `expect`.
pub open spec fn measuring(identity: Seq<char>, expect: ExpectationView) -> ExchangeView {
    ExchangeView {
        stage: Stage::TokenTransfer,
        request: RequestView::ViewBalance { identity },
        expect,
    }
}

/// Moving tokens: both balances are read, `amount` goes from `sender` to
/// `receiver`, and both balances are read again. The sender has to be down
/// by the amount at least, the receiver up by the amount at least.
///
/// `sender_before` and `receiver_before` are the balances that the first two
/// exchanges brought; the last two exchanges are measured against them.
pub open spec fn token_transfer_script(
    sender: Seq<char>,
    receiver: Seq<char>,
    amount: u128,
    sender_before: u128,
    receiver_before: u128,
) -> Seq<ExchangeView> {
    seq![
        measuring(sender, ExpectationView::Balance),
        measuring(receiver, ExpectationView::Balance),
        ExchangeView {
            stage: Stage::TokenTransfer,
            request: RequestView::Transfer { from: sender, to: receiver, amount },
            expect: ExpectationView::Transferred,
        },
        measuring(sender, ExpectationView::BalanceAfterSending { before: sender_before, amount }),
        measuring(
            receiver,
            ExpectationView::BalanceAfterReceiving { before: receiver_before, amount },
        ),
    ]
}

/// Set and get: `user` stores "hello" in `contract`, and `owner` has to read
/// exactly that as the status of `user`.
pub open spec fn set_message_script(
    owner: Seq<char>,
    user: Seq<char>,
    contract: Seq<char>,
) -> Seq<ExchangeView> {
    seq![
        writing(Stage::SetMessage, user, contract, "hello"@),
        reading(Stage::SetMessage, owner, contract, user, Some("hello"@)),
    ]
}

/// Looking up an account that never wrote: `user` asks `contract` for the
/// status of `owner`, who has stored nothing there, and has to be told that
/// there is none.
pub open spec fn null_messages_script(
    owner: Seq<char>,
    user: Seq<char>,
    contract: Seq<char>,
) -> Seq<ExchangeView> {
    seq![reading(Stage::NullMessages, user, contract, owner, None)]
}

/// Two accounts, two statuses: `owner` stores "world" in the `contract` in
/// which `user` stored "hello" before, and then has to read "hello" for
/// `user` and "world" for itself.
pub open spec fn differing_statuses_script(
    owner: Seq<char>,
    user: Seq<char>,
    contract: Seq<char>,
) -> Seq<ExchangeView> {
    seq![
        writing(Stage::DifferingStatuses, owner, contract, "world"@),
        reading(Stage::DifferingStatuses, owner, contract, user, Some("hello"@)),
        reading(Stage::DifferingStatuses, owner, contract, owner, Some("world"@)),
    ]
}

/// The registry scenarios in the order in which a run plays them: set and get
/// on `contract_a`, the lookup of the owner on `contract_b`, and the two
/// statuses on `contract_a`.
pub open spec fn registry_scenarios(
    owner: Seq<char>,
    user: Seq<char>,
    contract_a: Seq<char>,
    contract_b: Seq<char>,
) -> Seq<ExchangeView> {
    set_message_script(owner, user, contract_a) + null_messages_script(owner, user, contract_b)
        + differing_statuses_script(owner, user, contract_a)
}

fn write(
    stage: Stage,
    caller: &Identity,
    contract: &ContractHandle,
    message: &str,
) -> (exchange: Exchange)
    ensures
        exchange@ == writing(stage, caller@, contract@, message@),
{
    Exchange {
        stage,
        request: Request::Call {
            caller: caller.clone(),
            contract: contract.clone(),
            call: ContractCall::SetStatus { message: message.to_owned() },
        },
        expect: Expectation::Returned,
    }
}

fn read(
    stage: Stage,
    caller: &Identity,
    contract: &ContractHandle,
    account_id: &Identity,
    expected: Option<String>,
) -> (exchange: Exchange)
    ensures
        exchange@ == reading(stage, caller@, contract@, account_id@, message_view(expected)),
{
    Exchange {
        stage,
        request: Request::Call {
            caller: caller.clone(),
            contract: contract.clone(),
            call: ContractCall::GetStatus { account_id: account_id.clone() },
        },
        expect: Expectation::Status { value: expected },
    }
}

fn measure(identity: &Identity, expect: Expectation) -> (exchange: Exchange)
    ensures
        exchange@ == measuring(identity@, expect@),
{
    Exchange {
        stage: Stage::TokenTransfer,
        request: Request::ViewBalance { identity: identity.clone() },
        expect,
    }
}

/// The exchange at `step` of the token transfer between `sender` and
/// `receiver`, or `None` once the scenario is over.
pub fn token_transfer(
    sender: &Identity,
    receiver: &Identity,
    amount: u128,
    sender_before: u128,
    receiver_before: u128,
    step: usize,
) -> (exchange: Option<Exchange>)
    ensures
        exchange_view(exchange) == script_at(
            token_transfer_script(sender@, receiver@, amount, sender_before, receiver_before),
            step as int,
        ),
{
    match step {
        0 => Some(measure(sender, Expectation::Balance)),
        1 => Some(measure(receiver, Expectation::Balance)),
        2 => Some(
            Exchange {
                stage: Stage::TokenTransfer,
                request: Request::Transfer {
                    from: sender.clone(),
                    to: receiver.clone(),
                    amount,
                },
                expect: Expectation::Transferred,
            },
        ),
        3 => Some(
            measure(sender, Expectation::BalanceAfterSending { before: sender_before, amount }),
        ),
        4 => Some(
            measure(
                receiver,
                Expectation::BalanceAfterReceiving { before: receiver_before, amount },
            ),
        ),
        _ => None,
    }
}

/// The exchange at `step` of set and get, or `None` once the scenario is
/// over.
pub fn set_message(
    owner: &Identity,
    user: &Identity,
    contract: &ContractHandle,
    step: usize,
) -> (exchange: Option<Exchange>)
    ensures
        exchange_view(exchange) == script_at(
            set_message_script(owner@, user@, contract@),
            step as int,
        ),
{
    match step {
        0 => Some(write(Stage::SetMessage, user, contract, "hello")),
        1 => Some(read(Stage::SetMessage, owner, contract, user, Some("hello".to_owned()))),
        _ => None,
    }
}

/// The exchange at `step` of the lookup of an account that never wrote, or
/// `None` once the scenario is over.
pub fn null_messages(
    owner: &Identity,
    user: &Identity,
    contract: &ContractHandle,
    step: usize,
) -> (exchange: Option<Exchange>)
    ensures
        exchange_view(exchange) == script_at(
            null_messages_script(owner@, user@, contract@),
            step as int,
        ),
{
    match step {
        0 => Some(read(Stage::NullMessages, user, contract, owner, None)),
        _ => None,
    }
}

/// The exchange at `step` of the scenario of two statuses, or `None` once
/// the scenario is over.
pub fn differing_statuses(
    owner: &Identity,
    user: &Identity,
    contract: &ContractHandle,
    step: usize,
) -> (exchange: Option<Exchange>)
    ensures
        exchange_view(exchange) == script_at(
            differing_statuses_script(owner@, user@, contract@),
            step as int,
        ),
{
    match step {
        0 => Some(write(Stage::DifferingStatuses, owner, contract, "world")),
        1 => Some(
            read(Stage::DifferingStatuses, owner, contract, user, Some("hello".to_owned())),
        ),
        2 => Some(
            read(Stage::DifferingStatuses, owner, contract, owner, Some("world".to_owned())),
        ),
        _ => None,
    }
}

} // verus!
