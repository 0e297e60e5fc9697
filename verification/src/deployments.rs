//! The registries that are deployed, each under its own handle.
//!
//! A deployment puts a fresh, empty registry under a handle. A call goes to
//! the registry under the handle it names and to no other: whatever is written
//! to one instance cannot be read through another.

use crate::identity::Identity;
use crate::ledger::{
    ContractCall, ContractCallView, ContractHandle, LedgerError, LedgerErrorView, Response,
    ResponseView,
};
use crate::registry::{lookup, record, Registry, Statuses};
use crate::table::Table;
use vstd::prelude::*;

verus! {

/// The statuses of each deployed registry, by the identifier of its handle.
pub type Instances = Map<Seq<char>, Statuses>;

/// The instances after a registry is deployed under `contract`: it is there,
/// and it is empty.
pub open spec fn deployed(instances: Instances, contract: Seq<char>) -> Instances {
    instances.insert(contract, Map::empty())
}

/// What is said of a call to a handle under which nothing is deployed.
pub open spec fn not_deployed() -> Seq<char> {
    "no contract is deployed under this handle"@
}

/// The response to `call`, made by `caller` to the instance under
/// `contract`.
///
/// A call to a handle under which nothing is deployed fails. `set_status`
/// returns no status; `get_status` returns the status of the account asked
/// about, as the registry under `contract` has it.
pub open spec fn answer(
    instances: Instances,
    caller: Seq<char>,
    contract: Seq<char>,
    call: ContractCallView,
) -> ResponseView {
    if !instances.contains_key(contract) {
        ResponseView::Failed {
            error: LedgerErrorView::ExecutionFailure { diagnostic: not_deployed() },
        }
    } else {
        match call {
            ContractCallView::SetStatus { message } => ResponseView::Returned { value: None },
            ContractCallView::GetStatus { account_id } => ResponseView::Returned {
                value: lookup(instances[contract], account_id),
            },
        }
    }
}

/// The instances after `call`, made by `caller` to the instance under
/// `contract`.
///
/// Only `set_status` changes anything, and only in the registry under
/// `contract`, and there only the status of `caller`.
pub open spec fn called(
    instances: Instances,
    caller: Seq<char>,
    contract: Seq<char>,
    call: ContractCallView,
) -> Instances {
    if !instances.contains_key(contract) {
        instances
    } else {
        match call {
            ContractCallView::SetStatus { message } => instances.insert(
                contract,
                record(instances[contract], caller, message),
            ),
            ContractCallView::GetStatus { account_id } => instances,
        }
    }
}

/// What reading `account` through the handle `contract` gives: its status in
/// the registry under that handle, or nothing.
pub open spec fn visible(instances: Instances, contract: Seq<char>, account: Seq<char>) -> Option<
    Seq<char>,
> {
    if instances.contains_key(contract) {
        lookup(instances[contract], account)
    } else {
        None
    }
}

/// The registries deployed so far.
pub struct Deployments {
    registries: Table<Registry>,
}

impl View for Deployments {
    type V = Instances;

    closed spec fn view(&self) -> Instances {
        self.registries.contents().map_values(|registry: Registry| registry@)
    }
}

impl Deployments {
    /// No registry is deployed.
    pub fn new() -> (deployments: Deployments)
        ensures
            deployments@ == Map::<Seq<char>, Statuses>::empty(),
    {
        let deployments = Deployments { registries: Table::new() };
        assert(deployments@ =~= Map::<Seq<char>, Statuses>::empty());
        deployments
    }

    /// Deploys a registry under `contract`. It starts empty, whatever was
    /// under that handle before.
    pub fn deploy(&mut self, contract: &ContractHandle)
        ensures
            final(self)@ == deployed(old(self)@, contract@),
    {
        self.registries.put(contract.id(), Registry::new());
        assert(self@ =~= deployed(old(self)@, contract@));
    }

    /// Whether a registry is deployed under `contract`.
    pub fn is_deployed(&self, contract: &ContractHandle) -> (live: bool)
        ensures
            live == self@.contains_key(contract@),
    {
        self.registries.get(contract.id()).is_some()
    }

    /// Lets `caller` make `call` to the instance under `contract`, and hands
    /// back what the call returned.
    pub fn call(
        &mut self,
        caller: &Identity,
        contract: &ContractHandle,
        call: ContractCall,
    ) -> (response: Response)
        ensures
            response@ == answer(old(self)@, caller@, contract@, call@),
            final(self)@ == called(old(self)@, caller@, contract@, call@),
    {
        match call {
            ContractCall::SetStatus { message } => {
                if !self.is_deployed(contract) {
                    return refuse();
                }
                if let Some(registry) = self.registries.put(contract.id(), Registry::new()) {
                    let mut registry = registry;
                    registry.set_status(caller, message);
                    self.registries.put(contract.id(), registry);
                    assert(self@ =~= called(old(self)@, caller@, contract@, call@));
                }
                Response::Returned { value: None }
            },
            ContractCall::GetStatus { account_id } => {
                match self.registries.get(contract.id()) {
                    Some(registry) => Response::Returned {
                        value: registry.get_status(&account_id),
                    },
                    None => refuse(),
                }
            },
        }
    }
}

fn refuse() -> (response: Response)
    ensures
        response@ == (ResponseView::Failed {
            error: LedgerErrorView::ExecutionFailure { diagnostic: not_deployed() },
        }),
{
    Response::Failed {
        error: LedgerError::ExecutionFailure {
            diagnostic: "no contract is deployed under this handle".to_owned(),
        },
    }
}

/// Instances do not share state: a call to the instance under `contract`
/// leaves what can be read through any other handle as it was.
pub proof fn lemma_instances_are_independent(
    instances: Instances,
    caller: Seq<char>,
    contract: Seq<char>,
    call: ContractCallView,
    other: Seq<char>,
    account: Seq<char>,
)
    requires
        other != contract,
    ensures
        visible(called(instances, caller, contract, call), other, account) == visible(
            instances,
            other,
            account,
        ),
{
}

/// A status written to one instance cannot be read through another: after
/// `caller` wrote to the instance under `contract`, another instance still
/// has for `caller` what it had before, and it has nothing if `caller` never
/// wrote there.
pub proof fn lemma_write_is_invisible_elsewhere(
    instances: Instances,
    caller: Seq<char>,
    contract: Seq<char>,
    message: Seq<char>,
    other: Seq<char>,
)
    requires
        other != contract,
        instances.contains_key(contract),
    ensures
        visible(
            called(instances, caller, contract, ContractCallView::SetStatus { message }),
            contract,
            caller,
        ) == Some(message),
        visible(
            called(instances, caller, contract, ContractCallView::SetStatus { message }),
            other,
            caller,
        ) == visible(instances, other, caller),
{
}

/// A registry is empty when it is deployed: nothing can be read through its
/// handle.
pub proof fn lemma_deployed_registry_is_empty(
    instances: Instances,
    contract: Seq<char>,
    account: Seq<char>,
)
    ensures
        visible(deployed(instances, contract), contract, account) is None,
{
}

/// A call changes one account's status in one registry at most: the caller's
/// own, in the instance called.
pub proof fn lemma_call_writes_for_the_caller_only(
    instances: Instances,
    caller: Seq<char>,
    contract: Seq<char>,
    call: ContractCallView,
    other: Seq<char>,
    account: Seq<char>,
)
    requires
        other != contract || account != caller,
    ensures
        visible(called(instances, caller, contract, call), other, account) == visible(
            instances,
            other,
            account,
        ),
{
}

} // verus!
