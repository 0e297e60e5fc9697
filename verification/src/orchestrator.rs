//! The run: setup, then the scenarios, one exchange at a time.
//!
//! A run is a fixed plan of exchanges. It first has four accounts created
//! under the owner and a registry deployed on two of them, and then plays the
//! scenarios in order, on the accounts and registries that the setup brought.
//! It never waits, retries or talks to a ledger: it hands out the next
//! request, takes the response, and either goes on, or ends. The first
//! response that is not as expected ends the run.

use crate::identity::Identity;
use crate::ledger::{ContractHandle, Request, RequestView, Response, ResponseView};
use crate::scenario::{
    credited, debited, differing_statuses, judge, judged, null_messages, registry_scenarios,
    set_message, token_transfer, token_transfer_script, Exchange, ExchangeView, Expectation,
    ExpectationView, Flaw, FlawView, Gain, GainView, Stage,
};
use vstd::prelude::*;

verus! {

/// The amounts that a run works with.
#[derive(Debug, Clone, Copy, PartialEq, Eq, Structural)]
pub struct Config {
    /// What each new account is funded with.
    pub initial_balance: u128,
    /// What the token transfer moves.
    pub transfer_amount: u128,
}

/// How many accounts the setup creates.
pub const ACCOUNTS: usize = 4;

/// How many of them get a registry deployed, the first ones created.
pub const INSTANCES: usize = 2;

/// How many exchanges the setup has: one for each account and one for each
/// registry. The token transfer begins at this place of the plan.
pub const SETUP_LENGTH: usize = 6;

/// The place of the plan at which set and get begins.
pub const SET_MESSAGE_AT: usize = 11;

/// The place of the plan at which the lookup of a silent account begins.
pub const NULL_MESSAGES_AT: usize = 13;

/// The place of the plan at which the scenario of two statuses begins.
pub const DIFFERING_STATUSES_AT: usize = 14;

/// How many exchanges a run has.
pub const RUN_LENGTH: usize = 17;

/// The stage that the exchange at place `k` of a plan belongs to.
pub open spec fn stage_at(k: int) -> Stage {
    if k < SETUP_LENGTH {
        Stage::Setup
    } else if k < SET_MESSAGE_AT {
        Stage::TokenTransfer
    } else if k < NULL_MESSAGES_AT {
        Stage::SetMessage
    } else if k < DIFFERING_STATUSES_AT {
        Stage::NullMessages
    } else {
        Stage::DifferingStatuses
    }
}

/// The name of the subaccount that the setup creates at `step`.
pub open spec fn subaccount_name(step: int) -> Seq<char> {
    if step == 0 {
        "contract_0"@
    } else if step == 1 {
        "contract_1"@
    } else if step == 2 {
        "alice"@
    } else {
        "bob"@
    }
}

/// The exchange that creates the subaccount `name` of `parent`.
pub open spec fn creating(
    parent: Seq<char>,
    name: Seq<char>,
    initial_balance: u128,
) -> ExchangeView {
    ExchangeView {
        stage: Stage::Setup,
        request: RequestView::CreateSubaccount { parent, name, initial_balance },
        expect: ExpectationView::Created,
    }
}

/// The exchange that deploys `artifact` on `identity`.
pub open spec fn deploying(identity: Seq<char>, artifact: Seq<u8>) -> ExchangeView {
    ExchangeView {
        stage: Stage::Setup,
        request: RequestView::Deploy { identity, artifact },
        expect: ExpectationView::Deployed,
    }
}

/// The setup: four subaccounts of `owner`, each funded with
/// `initial_balance`, and then the one `artifact` deployed on the first two
/// of them, which are `targets` once they are created.
pub open spec fn setup_script(
    owner: Seq<char>,
    artifact: Seq<u8>,
    initial_balance: u128,
    targets: Seq<Seq<char>>,
) -> Seq<ExchangeView> {
    seq![
        creating(owner, subaccount_name(0), initial_balance),
        creating(owner, subaccount_name(1), initial_balance),
        creating(owner, subaccount_name(2), initial_balance),
        creating(owner, subaccount_name(3), initial_balance),
        deploying(targets[0], artifact),
        deploying(targets[1], artifact),
    ]
}

/// A run in progress, as contracts speak of it.
pub struct RunView {
    /// The amounts.
    pub config: Config,
    /// The account that was there before the run, the parent of all others.
    pub owner: Seq<char>,
    /// The contract that is deployed.
    pub artifact: Seq<u8>,
    /// The accounts created so far, in the order of their creation.
    pub accounts: Seq<Seq<char>>,
    /// The registries deployed so far: the one at `k` is on the account at
    /// `k`.
    pub instances: Seq<Seq<char>>,
    /// The balances read so far.
    pub balances: Seq<u128>,
    /// How many exchanges are done.
    pub position: nat,
}

impl RunView {
    /// The user who sends tokens and writes the first status.
    pub open spec fn user_a(self) -> Seq<char> {
        self.accounts[2]
    }

    /// The user who receives tokens.
    pub open spec fn user_b(self) -> Seq<char> {
        self.accounts[3]
    }

    /// The registry that statuses are written to.
    pub open spec fn contract_a(self) -> Seq<char> {
        self.instances[0]
    }

    /// The registry that nobody writes to.
    pub open spec fn contract_b(self) -> Seq<char> {
        self.instances[1]
    }

    /// The balance of the sender before the transfer, once it is read.
    pub open spec fn sender_before(self) -> u128 {
        if self.balances.len() > 0 {
            self.balances[0]
        } else {
            0
        }
    }

    /// The balance of the receiver before the transfer, once it is read.
    pub open spec fn receiver_before(self) -> u128 {
        if self.balances.len() > 1 {
            self.balances[1]
        } else {
            0
        }
    }

    /// The scenarios, in the order in which they are played: the token
    /// transfer between the two users, and then the registry scenarios, with
    /// the first user as their user, on the two registries.
    pub open spec fn battery(self) -> Seq<ExchangeView> {
        token_transfer_script(
            self.user_a(),
            self.user_b(),
            self.config.transfer_amount,
            self.sender_before(),
            self.receiver_before(),
        ) + registry_scenarios(self.owner, self.user_a(), self.contract_a(), self.contract_b())
    }

    /// The whole plan: the setup, then the scenarios.
    pub open spec fn plan(self) -> Seq<ExchangeView> {
        setup_script(self.owner, self.artifact, self.config.initial_balance, self.accounts)
            + self.battery()
    }

    /// The exchange that the run is in.
    pub open spec fn exchange(self) -> ExchangeView {
        self.plan()[self.position as int]
    }

    /// How many balances are read when `position` exchanges are done.
    ///
    /// The token transfer reads a balance in each exchange but its third,
    /// which makes the transfer.
    pub open spec fn balances_read(position: nat) -> nat {
        if position <= SETUP_LENGTH {
            0
        } else if position == SETUP_LENGTH + 1 {
            1
        } else if position <= SETUP_LENGTH + 3 {
            2
        } else if position == SETUP_LENGTH + 4 {
            3
        } else {
            4
        }
    }

    /// What holds of every run in progress: it is not over, and it has kept
    /// what each exchange so far has brought.
    pub open spec fn well_formed(self) -> bool {
        &&& self.position < RUN_LENGTH
        &&& self.accounts.len() == if self.position < ACCOUNTS {
            self.position
        } else {
            ACCOUNTS as nat
        }
        &&& self.instances.len() == if self.position < ACCOUNTS {
            0
        } else if self.position < SETUP_LENGTH {
            self.position - ACCOUNTS
        } else {
            INSTANCES as int
        }
        &&& self.balances.len() == Self::balances_read(self.position)
    }

    /// The run after an exchange that brought `gain`.
    pub open spec fn absorbed(self, gain: GainView) -> RunView {
        let kept = match gain {
            GainView::Nothing => self,
            GainView::Account { identity } => RunView {
                accounts: self.accounts.push(identity),
                ..self
            },
            GainView::Instance { contract } => RunView {
                instances: self.instances.push(contract),
                ..self
            },
            GainView::Measure { amount } => RunView {
                balances: self.balances.push(amount),
                ..self
            },
        };
        RunView { position: self.position + 1, ..kept }
    }

    /// What becomes of the run when `response` comes back for the exchange
    /// that it is in.
    ///
    /// A response with a flaw ends the run as failed, in the stage of that
    /// exchange. Any other response is absorbed; the run has passed if that
    /// was the last exchange of the plan, and goes on with the request of the
    /// next exchange if not.
    pub open spec fn advanced(self, response: ResponseView) -> StepView {
        match judged(self.exchange().expect, response) {
            Err(flaw) => StepView::Failed {
                failure: FailureView { stage: self.exchange().stage, flaw },
            },
            Ok(gain) => {
                let next = self.absorbed(gain);
                if next.position >= RUN_LENGTH {
                    StepView::Passed
                } else {
                    StepView::Continue { run: next, request: next.exchange().request }
                }
            },
        }
    }
}

/// The run before its first exchange.
pub open spec fn started(owner: Seq<char>, artifact: Seq<u8>, config: Config) -> RunView {
    RunView {
        config,
        owner,
        artifact,
        accounts: Seq::empty(),
        instances: Seq::empty(),
        balances: Seq::empty(),
        position: 0,
    }
}

/// Why a run failed: the stage it was in, and what was wrong.
#[derive(Debug, Clone, PartialEq)]
pub struct Failure {
    pub stage: Stage,
    pub flaw: Flaw,
}

/// A [`Failure`] as contracts speak of it.
pub struct FailureView {
    pub stage: Stage,
    pub flaw: FlawView,
}

impl View for Failure {
    type V = FailureView;

    open spec fn view(&self) -> FailureView {
        FailureView { stage: self.stage, flaw: self.flaw@ }
    }
}

/// A run that is not over.
#[derive(Debug)]
pub struct Orchestrator {
    config: Config,
    owner: Identity,
    artifact: Vec<u8>,
    accounts: Vec<Identity>,
    instances: Vec<ContractHandle>,
    balances: Vec<u128>,
    position: usize,
}

/// Where a run stands after a response.
#[derive(Debug)]
pub enum Step {
    /// The run goes on: `request` is to be put to the ledger, and its
    /// response handed to `run`.
    Continue { run: Orchestrator, request: Request },
    /// Every exchange went as expected.
    Passed,
    /// An exchange did not go as expected. Nothing more is asked.
    Failed { failure: Failure },
}

/// A [`Step`] as contracts speak of it.
pub enum StepView {
    Continue { run: RunView, request: RequestView },
    Passed,
    Failed { failure: FailureView },
}

impl View for Orchestrator {
    type V = RunView;

    closed spec fn view(&self) -> RunView {
        RunView {
            config: self.config,
            owner: self.owner@,
            artifact: self.artifact@,
            accounts: self.accounts@.map_values(|identity: Identity| identity@),
            instances: self.instances@.map_values(|contract: ContractHandle| contract@),
            balances: self.balances@,
            position: self.position as nat,
        }
    }
}

impl View for Step {
    type V = StepView;

    open spec fn view(&self) -> StepView {
        match self {
            Step::Continue { run, request } => StepView::Continue { run: run@, request: request@ },
            Step::Passed => StepView::Passed,
            Step::Failed { failure } => StepView::Failed { failure: failure@ },
        }
    }
}

fn subaccount(step: usize) -> (name: String)
    ensures
        name@ == subaccount_name(step as int),
{
    if step == 0 {
        "contract_0".to_owned()
    } else if step == 1 {
        "contract_1".to_owned()
    } else if step == 2 {
        "alice".to_owned()
    } else {
        "bob".to_owned()
    }
}

fn create(parent: &Identity, name: String, initial_balance: u128) -> (exchange: Exchange)
    ensures
        exchange@ == creating(parent@, name@, initial_balance),
{
    Exchange {
        stage: Stage::Setup,
        request: Request::CreateSubaccount { parent: parent.clone(), name, initial_balance },
        expect: Expectation::Created,
    }
}

fn deploy(identity: &Identity, artifact: &Vec<u8>) -> (exchange: Exchange)
    ensures
        exchange@ == deploying(identity@, artifact@),
{
    let copy = artifact.clone();
    assert(copy@ =~= artifact@);
    Exchange {
        stage: Stage::Setup,
        request: Request::Deploy { identity: identity.clone(), artifact: copy },
        expect: Expectation::Deployed,
    }
}

impl Orchestrator {
    #[verifier::type_invariant]
    spec fn in_progress(&self) -> bool {
        self@.well_formed()
    }

    /// Begins a run under `owner`, with `artifact` as the contract to deploy.
    /// The step is the first of the plan: the request to create the first
    /// subaccount.
    pub fn start(owner: Identity, artifact: Vec<u8>, config: Config) -> (step: Step)
        ensures
            step@ == (StepView::Continue {
                run: started(owner@, artifact@, config),
                request: started(owner@, artifact@, config).exchange().request,
            }),
    {
        let run = Orchestrator {
            config,
            owner,
            artifact,
            accounts: Vec::new(),
            instances: Vec::new(),
            balances: Vec::new(),
            position: 0,
        };
        assert(run@.accounts =~= Seq::empty());
        assert(run@.instances =~= Seq::empty());
        let request = run.pending().request;
        Step::Continue { run, request }
    }

    /// How many exchanges are done.
    pub fn position(&self) -> (position: usize)
        ensures
            position == self@.position,
            self@.well_formed(),
    {
        proof {
            use_type_invariant(self);
        }
        self.position
    }

    /// The stage that the run is in.
    pub fn stage(&self) -> (stage: Stage)
        ensures
            stage == self@.exchange().stage,
            stage == stage_at(self@.position as int),
    {
        proof {
            use_type_invariant(self);
            lemma_stages_of_the_plan(self@);
        }
        self.pending().stage
    }

    /// The exchange that the run is in: the request that is out, and what
    /// has to come back for it.
    pub fn pending(&self) -> (exchange: Exchange)
        ensures
            exchange@ == self@.exchange(),
    {
        proof {
            use_type_invariant(self);
        }
        let position = self.position;
        if position < ACCOUNTS {
            create(&self.owner, subaccount(position), self.config.initial_balance)
        } else if position < SETUP_LENGTH {
            let target = position - ACCOUNTS;
            assert(self@.accounts[target as int] == self.accounts[target as int]@);
            deploy(&self.accounts[target], &self.artifact)
        } else {
            assert(self@.accounts[2] == self.accounts[2]@);
            assert(self@.accounts[3] == self.accounts[3]@);
            assert(self@.instances[0] == self.instances[0]@);
            assert(self@.instances[1] == self.instances[1]@);
            let user_a = &self.accounts[2];
            let user_b = &self.accounts[3];
            let found = if position < SET_MESSAGE_AT {
                let sender_before = if self.balances.len() > 0 {
                    self.balances[0]
                } else {
                    0
                };
                let receiver_before = if self.balances.len() > 1 {
                    self.balances[1]
                } else {
                    0
                };
                token_transfer(
                    user_a,
                    user_b,
                    self.config.transfer_amount,
                    sender_before,
                    receiver_before,
                    position - SETUP_LENGTH,
                )
            } else if position < NULL_MESSAGES_AT {
                set_message(&self.owner, user_a, &self.instances[0], position - SET_MESSAGE_AT)
            } else if position < DIFFERING_STATUSES_AT {
                null_messages(&self.owner, user_a, &self.instances[1], position - NULL_MESSAGES_AT)
            } else {
                differing_statuses(
                    &self.owner,
                    user_a,
                    &self.instances[0],
                    position - DIFFERING_STATUSES_AT,
                )
            };
            match found {
                Some(exchange) => exchange,
                None => vstd::pervasive::unreached(),
            }
        }
    }

    /// Takes the response to the request that is out, and says where the run
    /// stands after it.
    pub fn advance(self, response: Response) -> (step: Step)
        ensures
            step@ == self@.advanced(response@),
    {
        proof {
            use_type_invariant(&self);
        }
        let exchange = self.pending();
        let stage = exchange.stage;
        match judge(exchange.expect, response) {
            Err(flaw) => Step::Failed { failure: Failure { stage, flaw } },
            Ok(gain) => {
                let ghost before = self@;
                let Orchestrator {
                    config,
                    owner,
                    artifact,
                    mut accounts,
                    mut instances,
                    mut balances,
                    position,
                } = self;
                match gain {
                    Gain::Nothing => {},
                    Gain::Account { identity } => {
                        accounts.push(identity);
                    },
                    Gain::Instance { contract } => {
                        instances.push(contract);
                    },
                    Gain::Measure { amount } => {
                        balances.push(amount);
                    },
                }
                if position + 1 >= RUN_LENGTH {
                    Step::Passed
                } else {
                    proof {
                        lemma_gain_is_kept(before, response@);
                    }
                    let run = Orchestrator {
                        config,
                        owner,
                        artifact,
                        accounts,
                        instances,
                        balances,
                        position: position + 1,
                    };
                    assert(run@.accounts =~= before.absorbed(gain@).accounts);
                    assert(run@.instances =~= before.absorbed(gain@).instances);
                    let request = run.pending().request;
                    Step::Continue { run, request }
                }
            },
        }
    }
}

/// A run that goes on stays well formed and is one exchange further: what an
/// exchange brings is what the run has to keep of it.
pub proof fn lemma_gain_is_kept(run: RunView, response: ResponseView)
    requires
        run.well_formed(),
    ensures
        run.advanced(response) matches StepView::Continue { run: next, .. } ==> next.well_formed()
            && next.position == run.position + 1,
{
}

/// A plan has seventeen exchanges, and its stages come in order: the setup,
/// the token transfer, set and get, the lookup of a silent account, the two
/// statuses.
pub proof fn lemma_stages_of_the_plan(run: RunView)
    ensures
        run.plan().len() == RUN_LENGTH,
        forall|k: int| 0 <= k < RUN_LENGTH ==> (#[trigger] run.plan()[k]).stage == stage_at(k),
{
}

/// Where `run` stands in the end when, for each exchange from the one it is
/// in, the response at the exchange's place in `responses` comes back.
///
/// Responses are taken until the run ends or none is left. What follows the
/// response that ended the run is never looked at.
pub open spec fn outcome(run: RunView, responses: Seq<ResponseView>) -> StepView
    decreases responses.len() - run.position,
{
    if run.position >= responses.len() {
        StepView::Continue { run, request: run.exchange().request }
    } else {
        match run.advanced(responses[run.position as int]) {
            StepView::Continue { run: next, .. } => outcome(next, responses),
            ended => ended,
        }
    }
}

/// What has to come back at place `k` of a run for the run to go on.
///
/// The setup needs four identities and two handles. The transfer needs both
/// balances, the word that the transfer is made, and then a sender that is
/// down by the amount at least and a receiver that is up by the amount at
/// least. The writes need only to run. The reads need "hello" for the user,
/// nothing for the owner in the registry that nobody wrote to, and then
/// "hello" for the user still and "world" for the owner.
pub open spec fn expected_at(config: Config, responses: Seq<ResponseView>, k: int) -> bool {
    let response = responses[k];
    if k < 4 {
        response is Created
    } else if k < 6 {
        response is Deployed
    } else if k == 6 || k == 7 {
        response is Balance
    } else if k == 8 {
        response is Transferred
    } else if k == 9 {
        &&& response matches ResponseView::Balance { amount: after }
        &&& responses[6] matches ResponseView::Balance { amount: before }
        &&& debited(before, after, config.transfer_amount)
    } else if k == 10 {
        &&& response matches ResponseView::Balance { amount: after }
        &&& responses[7] matches ResponseView::Balance { amount: before }
        &&& credited(before, after, config.transfer_amount)
    } else if k == 11 || k == 14 {
        response is Returned
    } else if k == 12 || k == 15 {
        response == (ResponseView::Returned { value: Some("hello"@) })
    } else if k == 13 {
        response == (ResponseView::Returned { value: None })
    } else {
        response == (ResponseView::Returned { value: Some("world"@) })
    }
}

/// Whether `responses` holds, for every exchange of a run, what has to come
/// back for it.
pub open spec fn as_expected(config: Config, responses: Seq<ResponseView>) -> bool {
    &&& responses.len() >= RUN_LENGTH
    &&& forall|k: int| 0 <= k < RUN_LENGTH ==> expected_at(config, responses, k)
}

/// Whether the balances that `run` has kept are those that `responses`
/// brought.
spec fn follows(run: RunView, responses: Seq<ResponseView>) -> bool {
    &&& run.well_formed()
    &&& run.balances.len() > 0 ==> responses[6] == (ResponseView::Balance {
        amount: run.balances[0],
    })
    &&& run.balances.len() > 1 ==> responses[7] == (ResponseView::Balance {
        amount: run.balances[1],
    })
}

proof fn lemma_rest_of_run(run: RunView, responses: Seq<ResponseView>)
    requires
        follows(run, responses),
    ensures
        outcome(run, responses) is Passed <==> responses.len() >= RUN_LENGTH && forall|k: int|
            run.position <= k < RUN_LENGTH ==> expected_at(run.config, responses, k),
        !(outcome(run, responses) is Passed) ==> !as_expected(run.config, responses),
    decreases RUN_LENGTH - run.position,
{
    let k = run.position as int;
    if k < responses.len() {
        let response = responses[k];
        let verdict = judged(run.exchange().expect, response);
        assert(verdict is Ok <==> expected_at(run.config, responses, k));
        if verdict is Ok {
            lemma_gain_is_kept(run, response);
            let next = run.absorbed(verdict->Ok_0);
            if next.position < RUN_LENGTH {
                assert(follows(next, responses));
                lemma_rest_of_run(next, responses);
                assert(next.config == run.config);
            }
        }
    }
}

/// A run passes exactly when every response is as expected: all seventeen,
/// in the order of the plan.
pub proof fn lemma_passes_iff_as_expected(
    owner: Seq<char>,
    artifact: Seq<u8>,
    config: Config,
    responses: Seq<ResponseView>,
)
    ensures
        outcome(started(owner, artifact, config), responses) is Passed <==> as_expected(
            config,
            responses,
        ),
{
    lemma_rest_of_run(started(owner, artifact, config), responses);
}

/// A run passes only if the transfer has settled: the balances that came
/// back show the sender down by the amount at least, and the receiver up by
/// the amount at least.
pub proof fn lemma_passed_run_settled_the_transfer(
    owner: Seq<char>,
    artifact: Seq<u8>,
    config: Config,
    responses: Seq<ResponseView>,
)
    requires
        outcome(started(owner, artifact, config), responses) is Passed,
    ensures
        responses.len() >= RUN_LENGTH,
        responses[6] is Balance,
        responses[7] is Balance,
        responses[9] is Balance,
        responses[10] is Balance,
        responses[9]->amount <= responses[6]->amount - config.transfer_amount,
        responses[10]->amount >= responses[7]->amount + config.transfer_amount,
{
    lemma_passes_iff_as_expected(owner, artifact, config, responses);
    assert(expected_at(config, responses, 9));
    assert(expected_at(config, responses, 10));
}

/// The first response with a flaw ends the run: the run has failed with that
/// flaw, in the stage it was in, whatever would have come back later.
pub proof fn lemma_first_flaw_ends_the_run(run: RunView, responses: Seq<ResponseView>)
    requires
        run.position < responses.len(),
        judged(run.exchange().expect, responses[run.position as int]) is Err,
    ensures
        outcome(run, responses) == (StepView::Failed {
            failure: FailureView {
                stage: run.exchange().stage,
                flaw: judged(run.exchange().expect, responses[run.position as int])->Err_0,
            },
        }),
{
}

/// Requests go out in the order of the plan, one for each response: a run
/// that is still going on after `responses` is at the exchange whose place is
/// their number, and the request that is out is the request of that exchange.
pub proof fn lemma_requests_follow_the_plan(run: RunView, responses: Seq<ResponseView>)
    requires
        run.well_formed(),
        run.position <= responses.len(),
    ensures
        outcome(run, responses) matches StepView::Continue { run: last, request } ==> {
            &&& last.well_formed()
            &&& last.position == responses.len()
            &&& request == last.plan()[responses.len() as int].request
        },
    decreases responses.len() - run.position,
{
    if run.position < responses.len() {
        let response = responses[run.position as int];
        lemma_gain_is_kept(run, response);
        if let StepView::Continue { run: next, .. } = run.advanced(response) {
            lemma_requests_follow_the_plan(next, responses);
        }
    }
}

} // verus!
