//! The transaction interface of the ledger, as plain values.
//!
//! A run never talks to a ledger itself. It hands out a [`Request`] for each
//! transaction it wants made and is handed back the [`Response`]: what the
//! ledger answered, or the [`LedgerError`] it failed with.

use crate::identity::Identity;
use crate::registry::message_view;
use vstd::prelude::*;

verus! {

/// The handle of one deployed contract instance.
#[derive(Debug)]
pub struct ContractHandle {
    id: String,
}

impl View for ContractHandle {
    type V = Seq<char>;

    closed spec fn view(&self) -> Seq<char> {
        self.id@
    }
}

impl ContractHandle {
    /// The handle with the given identifier.
    pub fn new(id: String) -> (handle: ContractHandle)
        ensures
            handle@ == id@,
    {
        ContractHandle { id }
    }

    /// The handle whose identifier is the given string slice.
    pub fn named(id: &str) -> (handle: ContractHandle)
        ensures
            handle@ == id@,
    {
        ContractHandle { id: id.to_owned() }
    }

    /// The identifier under which the ledger knows the instance.
    pub fn id(&self) -> (id: &String)
        ensures
            id@ == self@,
    {
        &self.id
    }

    /// Whether both handles stand for the same instance.
    pub fn same_as(&self, other: &ContractHandle) -> (same: bool)
        ensures
            same == (self@ == other@),
    {
        self.id == other.id
    }
}

impl Clone for ContractHandle {
    fn clone(&self) -> (copy: ContractHandle)
        ensures
            copy@ == self@,
    {
        ContractHandle { id: self.id.clone() }
    }
}

impl PartialEq for ContractHandle {
    fn eq(&self, other: &ContractHandle) -> (same: bool) {
        self.id == other.id
    }
}

impl vstd::std_specs::cmp::PartialEqSpecImpl for ContractHandle {
    open spec fn obeys_eq_spec() -> bool {
        true
    }

    open spec fn eq_spec(&self, other: &ContractHandle) -> bool {
        self@ == other@
    }
}

/// A call into a status registry: the method and its argument.
#[derive(Debug, Clone, PartialEq)]
pub enum ContractCall {
    /// `set_status`: the caller stores `message` as its own status.
    SetStatus { message: String },
    /// `get_status`: the caller asks for the status of `account_id`.
    GetStatus { account_id: Identity },
}

/// A [`ContractCall`] as contracts speak of it.
pub enum ContractCallView {
    SetStatus { message: Seq<char> },
    GetStatus { account_id: Seq<char> },
}

impl View for ContractCall {
    type V = ContractCallView;

    open spec fn view(&self) -> ContractCallView {
        match self {
            ContractCall::SetStatus { message } => ContractCallView::SetStatus {
                message: message@,
            },
            ContractCall::GetStatus { account_id } => ContractCallView::GetStatus {
                account_id: account_id@,
            },
        }
    }
}

impl ContractCall {
    /// The name of the method on the contract.
    pub fn method_name(&self) -> (name: &'static str)
        ensures
            name@ == match self@ {
                ContractCallView::SetStatus { .. } => "set_status"@,
                ContractCallView::GetStatus { .. } => "get_status"@,
            },
    {
        match self {
            ContractCall::SetStatus { .. } => "set_status",
            ContractCall::GetStatus { .. } => "get_status",
        }
    }

    /// The name of the method's one argument.
    pub fn argument_name(&self) -> (name: &'static str)
        ensures
            name@ == match self@ {
                ContractCallView::SetStatus { .. } => "message"@,
                ContractCallView::GetStatus { .. } => "account_id"@,
            },
    {
        match self {
            ContractCall::SetStatus { .. } => "message",
            ContractCall::GetStatus { .. } => "account_id",
        }
    }

    /// The value of the method's one argument.
    pub fn argument_value(&self) -> (value: &String)
        ensures
            value@ == match self@ {
                ContractCallView::SetStatus { message } => message,
                ContractCallView::GetStatus { account_id } => account_id,
            },
    {
        match self {
            ContractCall::SetStatus { message } => message,
            ContractCall::GetStatus { account_id } => account_id.name(),
        }
    }
}

/// One transaction that a ledger can be asked to make.
#[derive(Debug, Clone, PartialEq)]
pub enum Request {
    /// Create the account `name` under `parent` and fund it with
    /// `initial_balance`.
    CreateSubaccount { parent: Identity, name: String, initial_balance: u128 },
    /// Deploy `artifact` as the contract of `identity`.
    Deploy { identity: Identity, artifact: Vec<u8> },
    /// Let `caller` call into the instance `contract`.
    Call { caller: Identity, contract: ContractHandle, call: ContractCall },
    /// Read the balance of `identity`.
    ViewBalance { identity: Identity },
    /// Move `amount` from the balance of `from` to that of `to`.
    Transfer { from: Identity, to: Identity, amount: u128 },
}

/// A [`Request`] as contracts speak of it.
pub enum RequestView {
    CreateSubaccount { parent: Seq<char>, name: Seq<char>, initial_balance: u128 },
    Deploy { identity: Seq<char>, artifact: Seq<u8> },
    Call { caller: Seq<char>, contract: Seq<char>, call: ContractCallView },
    ViewBalance { identity: Seq<char> },
    Transfer { from: Seq<char>, to: Seq<char>, amount: u128 },
}

impl View for Request {
    type V = RequestView;

    open spec fn view(&self) -> RequestView {
        match self {
            Request::CreateSubaccount { parent, name, initial_balance } => {
                RequestView::CreateSubaccount {
                    parent: parent@,
                    name: name@,
                    initial_balance: *initial_balance,
                }
            },
            Request::Deploy { identity, artifact } => RequestView::Deploy {
                identity: identity@,
                artifact: artifact@,
            },
            Request::Call { caller, contract, call } => RequestView::Call {
                caller: caller@,
                contract: contract@,
                call: call@,
            },
            Request::ViewBalance { identity } => RequestView::ViewBalance { identity: identity@ },
            Request::Transfer { from, to, amount } => RequestView::Transfer {
                from: from@,
                to: to@,
                amount: *amount,
            },
        }
    }
}

/// Why the ledger could not make a transaction.
#[derive(Debug, Clone, PartialEq)]
pub enum LedgerError {
    /// The parent cannot fund the subaccount.
    InsufficientParentBalance,
    /// The subaccount's name is taken.
    DuplicateName,
    /// The artifact is not a contract that can be deployed.
    DeployRejected,
    /// The call did not run to its end; the ledger's own words say why.
    ExecutionFailure { diagnostic: String },
    /// The sender cannot pay the amount.
    InsufficientBalance,
}

/// A [`LedgerError`] as contracts speak of it.
pub enum LedgerErrorView {
    InsufficientParentBalance,
    DuplicateName,
    DeployRejected,
    ExecutionFailure { diagnostic: Seq<char> },
    InsufficientBalance,
}

impl View for LedgerError {
    type V = LedgerErrorView;

    open spec fn view(&self) -> LedgerErrorView {
        match self {
            LedgerError::InsufficientParentBalance => LedgerErrorView::InsufficientParentBalance,
            LedgerError::DuplicateName => LedgerErrorView::DuplicateName,
            LedgerError::DeployRejected => LedgerErrorView::DeployRejected,
            LedgerError::ExecutionFailure { diagnostic } => LedgerErrorView::ExecutionFailure {
                diagnostic: diagnostic@,
            },
            LedgerError::InsufficientBalance => LedgerErrorView::InsufficientBalance,
        }
    }
}

/// What came back from the ledger for one [`Request`].
#[derive(Debug, Clone, PartialEq)]
pub enum Response {
    /// The subaccount exists now; this is its identity.
    Created { identity: Identity },
    /// The contract is deployed; this is its handle.
    Deployed { contract: ContractHandle },
    /// The call ran; `value` is the status it returned, `None` where it
    /// returned none.
    Returned { value: Option<String> },
    /// The balance asked for.
    Balance { amount: u128 },
    /// The transfer is made.
    Transferred,
    /// The transaction failed.
    Failed { error: LedgerError },
}

/// A [`Response`] as contracts speak of it.
pub enum ResponseView {
    Created { identity: Seq<char> },
    Deployed { contract: Seq<char> },
    Returned { value: Option<Seq<char>> },
    Balance { amount: u128 },
    Transferred,
    Failed { error: LedgerErrorView },
}

impl View for Response {
    type V = ResponseView;

    open spec fn view(&self) -> ResponseView {
        match self {
            Response::Created { identity } => ResponseView::Created { identity: identity@ },
            Response::Deployed { contract } => ResponseView::Deployed { contract: contract@ },
            Response::Returned { value } => ResponseView::Returned { value: message_view(*value) },
            Response::Balance { amount } => ResponseView::Balance { amount: *amount },
            Response::Transferred => ResponseView::Transferred,
            Response::Failed { error } => ResponseView::Failed { error: error@ },
        }
    }
}

} // verus!
