//! The scenarios ask of a registry what a registry does.
//!
//! Here the registry scenarios are put, call by call, to deployed registries
//! as the registry module describes them. Every answer is as the scenarios
//! expect it, whoever plays the owner and the user, as long as they are two
//! accounts. So a run passes on every ledger that sets up the accounts, makes
//! the transfer, and lets the registries answer.

use crate::deployments::{answer, called, deployed, Instances};
use crate::ledger::{RequestView, ResponseView};
use crate::orchestrator::{
    expected_at, lemma_passes_iff_as_expected, outcome, started, Config, RUN_LENGTH,
    SET_MESSAGE_AT,
};
use crate::scenario::{judged, registry_scenarios, ExchangeView};
use vstd::prelude::*;

verus! {

/// The instances when the first `k` exchanges of `script` have been put to
/// `instances`, in order.
pub open spec fn instances_at(instances: Instances, script: Seq<ExchangeView>, k: int) -> Instances
    decreases k,
{
    if k <= 0 {
        instances
    } else {
        let before = instances_at(instances, script, k - 1);
        match script[k - 1].request {
            RequestView::Call { caller, contract, call } => called(before, caller, contract, call),
            _ => before,
        }
    }
}

/// The answer to the call at place `k` of `script`, when the exchanges of
/// `script` are put to `instances` in order.
pub open spec fn answer_at(
    instances: Instances,
    script: Seq<ExchangeView>,
    k: int,
) -> ResponseView {
    answer(
        instances_at(instances, script, k),
        script[k].request->caller,
        script[k].request->contract,
        script[k].request->call,
    )
}

/// Whether every exchange of `script`, put in order to `instances`, is a
/// call with an answer that is as expected.
pub open spec fn served(instances: Instances, script: Seq<ExchangeView>) -> bool {
    forall|k: int|
        0 <= k < script.len() ==> {
            &&& script[k].request is Call
            &&& judged(script[k].expect, #[trigger] answer_at(instances, script, k)) is Ok
        }
}

proof fn lemma_hello_is_not_world()
    ensures
        "hello"@ != "world"@,
{
    reveal_strlit("hello");
    reveal_strlit("world");
    assert("hello"@[0] == 'h');
    assert("world"@[0] == 'w');
}

proof fn lemma_answers(
    instances: Instances,
    owner: Seq<char>,
    user: Seq<char>,
    contract_a: Seq<char>,
    contract_b: Seq<char>,
)
    ensures
        ({
            let fresh = deployed(deployed(instances, contract_a), contract_b);
            let script = registry_scenarios(owner, user, contract_a, contract_b);
            &&& script.len() == 6
            &&& forall|k: int| 0 <= k < 6 ==> (#[trigger] script[k]).request is Call
            &&& answer_at(fresh, script, 0) == ResponseView::Returned { value: None }
            &&& answer_at(fresh, script, 1) == ResponseView::Returned { value: Some("hello"@) }
            &&& answer_at(fresh, script, 2) == ResponseView::Returned {
                value: if owner == user && contract_a == contract_b {
                    Some("hello"@)
                } else {
                    None
                },
            }
            &&& answer_at(fresh, script, 3) == ResponseView::Returned { value: None }
            &&& answer_at(fresh, script, 4) == ResponseView::Returned {
                value: Some(if owner == user {
                    "world"@
                } else {
                    "hello"@
                }),
            }
            &&& answer_at(fresh, script, 5) == ResponseView::Returned { value: Some("world"@) }
        }),
{
    let fresh = deployed(deployed(instances, contract_a), contract_b);
    let script = registry_scenarios(owner, user, contract_a, contract_b);
    assert(script.len() == 6);
    let i0 = instances_at(fresh, script, 0);
    let i1 = instances_at(fresh, script, 1);
    let i2 = instances_at(fresh, script, 2);
    let i3 = instances_at(fresh, script, 3);
    let i4 = instances_at(fresh, script, 4);
    let i5 = instances_at(fresh, script, 5);
    assert(i1 == called(i0, user, contract_a, script[0].request->call));
    assert(i2 == i1);
    assert(i3 == i2);
    assert(i4 == called(i3, owner, contract_a, script[3].request->call));
    assert(i5 == i4);
}

/// Two registries, deployed just now, meet the registry scenarios: whatever
/// else is deployed, whoever the owner and the user are, if only they are not
/// the same account.
pub proof fn lemma_registries_meet_the_scenarios(
    instances: Instances,
    owner: Seq<char>,
    user: Seq<char>,
    contract_a: Seq<char>,
    contract_b: Seq<char>,
)
    requires
        owner != user,
    ensures
        served(
            deployed(deployed(instances, contract_a), contract_b),
            registry_scenarios(owner, user, contract_a, contract_b),
        ),
{
    lemma_answers(instances, owner, user, contract_a, contract_b);
}

/// One account cannot play both parts: where the owner is the user, the last
/// scenario reads "world" where it expects "hello", on any registries.
pub proof fn lemma_one_account_cannot_play_both_parts(
    instances: Instances,
    account: Seq<char>,
    contract_a: Seq<char>,
    contract_b: Seq<char>,
)
    ensures
        !served(
            deployed(deployed(instances, contract_a), contract_b),
            registry_scenarios(account, account, contract_a, contract_b),
        ),
{
    lemma_answers(instances, account, account, contract_a, contract_b);
    lemma_hello_is_not_world();
    let fresh = deployed(deployed(instances, contract_a), contract_b);
    let script = registry_scenarios(account, account, contract_a, contract_b);
    assert(judged(script[4].expect, answer_at(fresh, script, 4)) is Err);
}

/// A run passes on deployed registries: if the setup and the transfer go as
/// expected, the owner and the first user are two accounts, and each call is
/// answered by the two registries that the setup deployed, then the run
/// passes.
pub proof fn lemma_run_passes_on_deployed_registries(
    owner: Seq<char>,
    artifact: Seq<u8>,
    config: Config,
    responses: Seq<ResponseView>,
    instances: Instances,
)
    requires
        responses.len() >= RUN_LENGTH,
        forall|k: int| 0 <= k < SET_MESSAGE_AT ==> expected_at(config, responses, k),
        responses[2]->identity != owner,
        forall|k: int|
            0 <= k < 6 ==> #[trigger] responses[SET_MESSAGE_AT + k] == answer_at(
                deployed(
                    deployed(instances, responses[4]->contract),
                    responses[5]->contract,
                ),
                registry_scenarios(
                    owner,
                    responses[2]->identity,
                    responses[4]->contract,
                    responses[5]->contract,
                ),
                k,
            ),
    ensures
        outcome(started(owner, artifact, config), responses) is Passed,
{
    lemma_answers(
        instances,
        owner,
        responses[2]->identity,
        responses[4]->contract,
        responses[5]->contract,
    );
    assert forall|k: int| 0 <= k < RUN_LENGTH implies expected_at(config, responses, k) by {
        if k >= SET_MESSAGE_AT {
            assert(responses[SET_MESSAGE_AT + (k - SET_MESSAGE_AT)] == responses[k]);
        }
    }
    lemma_passes_iff_as_expected(owner, artifact, config, responses);
}

} // verus!
