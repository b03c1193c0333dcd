//! The unlock state machine. It performs no I/O: each step takes what the
//! caller observed on the ledger and answers with the next thing to do.

use vstd::prelude::*;
use crate::account::{is_vm_state, VmStateAccount, STATE_UNLOCKED, STATE_WAITING};
use crate::address::{address_of, address_of_view, Address};
use crate::context::{phase_of, unlock_reading, Fetched, UnlockPhase, WithdrawContext};
use crate::error::ClientError;
use crate::instruction::{
    memory_withdrawal, withdraw_from_memory, CreateAccountRequest, InstructionRequest,
    UnlockRequest,
};
use crate::token::{associated_address, destination_address, token_program};

verus! {

/// Seconds to sleep between two looks at the remote clock.
pub const POLL_INTERVAL_SECS: u64 = 60;

/// Where a run stands.
#[derive(Clone, Copy, Debug, PartialEq, Eq)]
pub enum State {
    /// Nothing has been checked yet.
    Unverified,
    /// The unlock address has been recomputed and found equal.
    Verified,
    /// No unlock account exists; `init_unlock` has been asked for.
    AccountMissing,
    /// The unlock account waits for its deadline.
    AccountWaiting,
    /// The unlock account is unlocked; the destination is being looked at.
    AccountUnlocked,
    /// The destination exists; the withdrawal is under way.
    DestinationReady,
    /// The withdrawal is confirmed.
    Completed,
    /// The run has ended with this error.
    Failed(ClientError),
}

/// What the caller observed since the last step.
#[derive(Clone, Debug, PartialEq, Eq)]
pub enum Event {
    /// The unlock address as a collaborator computed it.
    AddressReceived(Address),
    /// What was read at the unlock address.
    UnlockAccount(Fetched),
    /// The remote clock, and what was read at the unlock address.
    Clock { now: i64, account: Fetched },
    /// The sleep is over.
    Woke,
    /// What was read at the destination address.
    Destination(Fetched),
    /// What was read at the VM state address.
    VmAccount(Fetched),
    /// The transaction submitted last is confirmed.
    Confirmed,
    /// The read or the submission asked for last has failed.
    Failed(ClientError),
}

/// What the caller is to do next.
#[derive(Clone, Copy, Debug, PartialEq, Eq)]
pub enum Action {
    /// Read the account at the unlock address.
    ReadUnlockAccount(Address),
    /// Read the remote clock and the account at the unlock address.
    ReadClock(Address),
    /// Sleep for this many seconds.
    Sleep(u64),
    /// Read the account at the destination address.
    CheckDestination(Address),
    /// Read the account at the VM state address.
    ReadVmState(Address),
    /// Build, sign, submit and confirm a transaction of this one instruction.
    Submit(InstructionRequest),
    /// Nothing: the event was not expected in this state.
    Ignore,
    /// Report success and stop.
    Finish,
    /// Report the error and stop.
    Abort(ClientError),
}

/// The addresses of one run, derived once.
#[derive(Clone, Copy, Debug, PartialEq, Eq)]
pub struct Plan {
    pub owner: Address,
    pub payer: Address,
    pub vm_state: Address,
    pub mint: Address,
    pub unlock_pda: Address,
    pub receipt_pda: Address,
    pub destination: Address,
    pub vm_memory: Option<Address>,
    pub account_index: u16,
}

/// The end of a run on an error.
pub open spec fn abort(e: ClientError) -> (State, Action) {
    (State::Failed(e), Action::Abort(e))
}

/// The `init_unlock` request of a plan.
pub open spec fn init_request(plan: Plan) -> InstructionRequest {
    InstructionRequest::InitUnlock(
        UnlockRequest {
            owner: plan.owner,
            payer: plan.payer,
            vm_state: plan.vm_state,
            unlock_pda: plan.unlock_pda,
        },
    )
}

/// The `finalize_unlock` request of a plan.
pub open spec fn finalize_request(plan: Plan) -> InstructionRequest {
    InstructionRequest::FinalizeUnlock(
        UnlockRequest {
            owner: plan.owner,
            payer: plan.payer,
            vm_state: plan.vm_state,
            unlock_pda: plan.unlock_pda,
        },
    )
}

/// The request that creates the destination account of a plan.
pub open spec fn create_request(plan: Plan) -> InstructionRequest {
    InstructionRequest::CreateAssociatedAccount(
        CreateAccountRequest {
            payer: plan.payer,
            owner: plan.owner,
            mint: plan.mint,
        },
    )
}

/// The `withdraw` request of a plan, from the vault that the VM state names.
pub open spec fn withdraw_request(plan: Plan, vm_data: Seq<u8>) -> InstructionRequest {
    InstructionRequest::Withdraw(
        memory_withdrawal(
            plan.owner,
            plan.payer,
            plan.vm_state,
            address_of(vm_data.subrange(112, 144)),
            plan.vm_memory,
            plan.unlock_pda,
            plan.receipt_pda,
            plan.destination,
            plan.account_index,
        ),
    )
}

/// What follows from the unlock account's phase. `now` is the remote clock
/// where it was read with the account, `None` at the first look. A waiting
/// account is finalized as soon as the clock has reached its deadline.
pub open spec fn after_reading(
    plan: Plan,
    phase: Result<UnlockPhase, ClientError>,
    now: Option<i64>,
) -> (State, Action) {
    match phase {
        Err(e) => abort(e),
        Ok(UnlockPhase::Unlocked) => (
            State::AccountUnlocked,
            Action::CheckDestination(plan.destination),
        ),
        Ok(UnlockPhase::Waiting { unlock_at }) => match now {
            None => (State::AccountWaiting, Action::ReadClock(plan.unlock_pda)),
            Some(t) => if t < unlock_at {
                (State::AccountWaiting, Action::Sleep(POLL_INTERVAL_SECS))
            } else {
                (State::AccountWaiting, Action::Submit(finalize_request(plan)))
            },
        },
    }
}

/// What follows from a look at the destination address: an account that
/// is missing is created, a failed read ends the run.
pub open spec fn after_destination(plan: Plan, looked: Fetched) -> (State, Action) {
    match looked {
        Fetched::Found(_) => (State::DestinationReady, Action::ReadVmState(plan.vm_state)),
        Fetched::Missing => (State::AccountUnlocked, Action::Submit(create_request(plan))),
        Fetched::Unreachable => abort(ClientError::TransportError),
    }
}

/// What follows from the VM state account.
pub open spec fn after_vm_state(plan: Plan, fetched: Fetched) -> (State, Action) {
    match fetched {
        Fetched::Found(data) => if is_vm_state(data@) {
            (State::DestinationReady, Action::Submit(withdraw_request(plan, data@)))
        } else {
            abort(ClientError::CorruptAccount)
        },
        Fetched::Missing => abort(ClientError::NotFound),
        Fetched::Unreachable => abort(ClientError::TransportError),
    }
}

/// The transition function: next state and next action.
pub open spec fn step_of(plan: Plan, state: State, event: Event) -> (State, Action) {
    match state {
        State::Completed => (State::Completed, Action::Finish),
        State::Failed(e) => abort(e),
        _ => match event {
            Event::Failed(e) => abort(e),
            Event::AddressReceived(received) => if state != State::Unverified {
                (state, Action::Ignore)
            } else if received@ == plan.unlock_pda@ {
                (State::Verified, Action::ReadUnlockAccount(plan.unlock_pda))
            } else {
                abort(ClientError::PdaVerificationFailed)
            },
            Event::UnlockAccount(fetched) => if state != State::Verified {
                (state, Action::Ignore)
            } else if fetched == Fetched::Missing {
                (State::AccountMissing, Action::Submit(init_request(plan)))
            } else {
                after_reading(plan, phase_of(unlock_reading(fetched)), None)
            },
            Event::Clock { now, account } => if state != State::AccountWaiting {
                (state, Action::Ignore)
            } else {
                after_reading(plan, phase_of(unlock_reading(account)), Some(now))
            },
            Event::Woke => if state != State::AccountWaiting {
                (state, Action::Ignore)
            } else {
                (State::AccountWaiting, Action::ReadClock(plan.unlock_pda))
            },
            Event::Destination(looked) => if state != State::AccountUnlocked {
                (state, Action::Ignore)
            } else {
                after_destination(plan, looked)
            },
            Event::VmAccount(fetched) => if state != State::DestinationReady {
                (state, Action::Ignore)
            } else {
                after_vm_state(plan, fetched)
            },
            Event::Confirmed => match state {
                State::AccountMissing => (
                    State::AccountWaiting,
                    Action::ReadClock(plan.unlock_pda),
                ),
                State::AccountWaiting => (
                    State::AccountUnlocked,
                    Action::CheckDestination(plan.destination),
                ),
                State::AccountUnlocked => (
                    State::DestinationReady,
                    Action::ReadVmState(plan.vm_state),
                ),
                State::DestinationReady => (State::Completed, Action::Finish),
                _ => (state, Action::Ignore),
            },
        },
    }
}

/// Whether every address of a run can be derived.
pub open spec fn has_plan(context: WithdrawContext) -> bool {
    context.receipt().is_some() && associated_address(
        context.owner@,
        token_program(),
        context.config.mint@,
    ).is_some()
}

/// The addresses of a run whose addresses can all be derived.
pub open spec fn plan_of(context: WithdrawContext) -> Plan {
    Plan {
        owner: context.owner,
        payer: context.payer,
        vm_state: context.config.vm_state,
        mint: context.config.mint,
        unlock_pda: address_of(context.unlock().unwrap().0),
        receipt_pda: address_of(context.receipt().unwrap().0),
        destination: address_of(
            associated_address(context.owner@, token_program(), context.config.mint@).unwrap().0,
        ),
        vm_memory: context.vm_memory,
        account_index: context.account_index,
    }
}

/// Derives the addresses of a run.
pub fn make_plan(context: &WithdrawContext) -> (r: Result<Plan, ClientError>)
    ensures
        has_plan(*context) ==> r == Ok::<Plan, ClientError>(plan_of(*context)),
        !has_plan(*context) ==> r == Err::<Plan, ClientError>(ClientError::DerivationExhausted),
{
    let pdas = match context.get_withdraw_pdas() {
        Ok(pdas) => pdas,
        Err(e) => { return Err(e); },
    };
    let destination = match destination_address(&context.owner, &context.config.mint) {
        Ok(found) => found,
        Err(e) => { return Err(e); },
    };
    proof {
        address_of_view(pdas.1);
        address_of_view(pdas.2);
        address_of_view(destination);
    }
    Ok(
        Plan {
            owner: context.owner,
            payer: context.payer,
            vm_state: context.config.vm_state,
            mint: context.config.mint,
            unlock_pda: pdas.1,
            receipt_pda: pdas.2,
            destination,
            vm_memory: context.vm_memory,
            account_index: context.account_index,
        },
    )
}

fn abort_with(e: ClientError) -> (r: (State, Action))
    ensures
        r == abort(e),
{
    (State::Failed(e), Action::Abort(e))
}

fn read_after(plan: &Plan, fetched: &Fetched, now: Option<i64>) -> (r: (State, Action))
    ensures
        r == after_reading(*plan, phase_of(unlock_reading(*fetched)), now),
{
    match WithdrawContext::verify_account_state(fetched) {
        Err(e) => abort_with(e),
        Ok(UnlockPhase::Unlocked) => (
            State::AccountUnlocked,
            Action::CheckDestination(plan.destination),
        ),
        Ok(UnlockPhase::Waiting { unlock_at }) => match now {
            None => (State::AccountWaiting, Action::ReadClock(plan.unlock_pda)),
            Some(t) => if t < unlock_at {
                (State::AccountWaiting, Action::Sleep(POLL_INTERVAL_SECS))
            } else {
                (
                    State::AccountWaiting,
                    Action::Submit(
                        crate::instruction::finalize_unlock(
                            plan.owner,
                            plan.payer,
                            plan.vm_state,
                            plan.unlock_pda,
                        ),
                    ),
                )
            },
        },
    }
}

fn destination_after(plan: &Plan, looked: &Fetched) -> (r: (State, Action))
    ensures
        r == after_destination(*plan, *looked),
{
    match looked {
        Fetched::Found(_) => (State::DestinationReady, Action::ReadVmState(plan.vm_state)),
        Fetched::Missing => (
            State::AccountUnlocked,
            Action::Submit(
                InstructionRequest::CreateAssociatedAccount(
                    CreateAccountRequest { payer: plan.payer, owner: plan.owner, mint: plan.mint },
                ),
            ),
        ),
        Fetched::Unreachable => abort_with(ClientError::TransportError),
    }
}

fn withdraw_after(plan: &Plan, fetched: &Fetched) -> (r: (State, Action))
    ensures
        r == after_vm_state(*plan, *fetched),
{
    match fetched {
        Fetched::Found(data) => match VmStateAccount::unpack(data.as_slice()) {
            Ok(vm) => {
                proof {
                    address_of_view(vm.vault);
                }
                (
                    State::DestinationReady,
                    Action::Submit(
                        InstructionRequest::Withdraw(
                            withdraw_from_memory(
                                plan.owner,
                                plan.payer,
                                plan.vm_state,
                                vm.vault,
                                plan.vm_memory,
                                plan.unlock_pda,
                                plan.receipt_pda,
                                plan.destination,
                                plan.account_index,
                            ),
                        ),
                    ),
                )
            },
            Err(e) => abort_with(e),
        },
        Fetched::Missing => abort_with(ClientError::NotFound),
        Fetched::Unreachable => abort_with(ClientError::TransportError),
    }
}

/// One step of the state machine.
pub fn step(plan: &Plan, state: State, event: &Event) -> (r: (State, Action))
    ensures
        r == step_of(*plan, state, *event),
{
    match state {
        State::Completed => { return (State::Completed, Action::Finish); },
        State::Failed(e) => { return abort_with(e); },
        _ => {},
    }
    match event {
        Event::Failed(e) => abort_with(*e),
        Event::AddressReceived(received) => match state {
            State::Unverified => if received.same_as(&plan.unlock_pda) {
                (State::Verified, Action::ReadUnlockAccount(plan.unlock_pda))
            } else {
                abort_with(ClientError::PdaVerificationFailed)
            },
            _ => (state, Action::Ignore),
        },
        Event::UnlockAccount(fetched) => match state {
            State::Verified => match fetched {
                Fetched::Missing => (
                    State::AccountMissing,
                    Action::Submit(
                        crate::instruction::init_unlock(
                            plan.owner,
                            plan.payer,
                            plan.vm_state,
                            plan.unlock_pda,
                        ),
                    ),
                ),
                _ => read_after(plan, fetched, None),
            },
            _ => (state, Action::Ignore),
        },
        Event::Clock { now, account } => match state {
            State::AccountWaiting => read_after(plan, account, Some(*now)),
            _ => (state, Action::Ignore),
        },
        Event::Woke => match state {
            State::AccountWaiting => (State::AccountWaiting, Action::ReadClock(plan.unlock_pda)),
            _ => (state, Action::Ignore),
        },
        Event::Destination(looked) => match state {
            State::AccountUnlocked => destination_after(plan, looked),
            _ => (state, Action::Ignore),
        },
        Event::VmAccount(fetched) => match state {
            State::DestinationReady => withdraw_after(plan, fetched),
            _ => (state, Action::Ignore),
        },
        Event::Confirmed => match state {
            State::AccountMissing => (State::AccountWaiting, Action::ReadClock(plan.unlock_pda)),
            State::AccountWaiting => (
                State::AccountUnlocked,
                Action::CheckDestination(plan.destination),
            ),
            State::AccountUnlocked => (
                State::DestinationReady,
                Action::ReadVmState(plan.vm_state),
            ),
            State::DestinationReady => (State::Completed, Action::Finish),
            _ => (state, Action::Ignore),
        },
    }
}

/// The decision of a run of this context: the step of the state machine
/// over the run's own addresses, or the end of the run where they cannot
/// be derived.
pub open spec fn decision_of(context: WithdrawContext, state: State, event: Event) -> (
    State,
    Action,
) {
    if has_plan(context) {
        step_of(plan_of(context), state, event)
    } else {
        abort(ClientError::DerivationExhausted)
    }
}

impl WithdrawContext {
    /// What the run of this withdrawal is to do next, given where it stands
    /// and what it observed last. The run starts at `start()` with the
    /// unlock address that a collaborator computed; a mismatch ends it
    /// before anything is read. The withdrawal is asked for only once the
    /// unlock account is unlocked and the destination exists.
    pub fn execute_withdraw(&self, state: State, event: &Event) -> (r: (State, Action))
        ensures
            r == decision_of(*self, state, *event),
    {
        match make_plan(self) {
            Ok(plan) => step(&plan, state, event),
            Err(e) => abort_with(e),
        }
    }
}

/// State and actions after a whole sequence of events, oldest first.
pub open spec fn run_of(plan: Plan, state: State, events: Seq<Event>) -> (State, Seq<Action>)
    decreases events.len(),
{
    if events.len() == 0 {
        (state, Seq::empty())
    } else {
        let before = run_of(plan, state, events.drop_last());
        let last = step_of(plan, before.0, events.last());
        (last.0, before.1.push(last.1))
    }
}

/// Whether an action submits `init_unlock`.
pub open spec fn is_init(action: Action) -> bool {
    action matches Action::Submit(InstructionRequest::InitUnlock(_))
}

/// How many of the actions submit `init_unlock`.
pub open spec fn count_inits(actions: Seq<Action>) -> nat
    decreases actions.len(),
{
    if actions.len() == 0 {
        0
    } else if is_init(actions.last()) {
        count_inits(actions.drop_last()) + 1
    } else {
        count_inits(actions.drop_last())
    }
}

/// Feeds a recorded sequence of events to the machine, oldest first, and
/// collects what it asked for.
pub fn replay(plan: &Plan, state: State, events: &Vec<Event>) -> (r: (State, Vec<Action>))
    ensures
        (r.0, r.1@) == run_of(*plan, state, events@),
{
    let mut current: State = state;
    let mut actions: Vec<Action> = Vec::new();
    let mut i: usize = 0;
    while i < events.len()
        invariant
            i <= events@.len(),
            (current, actions@) == run_of(*plan, state, events@.take(i as int)),
        decreases events@.len() - i,
    {
        let (next, action) = step(plan, current, &events[i]);
        proof {
            let upto = events@.take(i + 1);
            assert(upto.drop_last() =~= events@.take(i as int));
            assert(upto.last() == events@[i as int]);
        }
        current = next;
        actions.push(action);
        i += 1;
    }
    assert(events@.take(events@.len() as int) =~= events@);
    (current, actions)
}

/// The first state of every run.
pub fn start() -> (r: State)
    ensures
        r == State::Unverified,
{
    State::Unverified
}

/// `init_unlock` is asked for in one situation only: the address is
/// verified and the unlock account was just found missing. In every other
/// state, and whenever the account exists, no step submits it.
pub proof fn init_only_when_missing(plan: Plan, state: State, event: Event)
    requires
        step_of(plan, state, event).1 matches Action::Submit(InstructionRequest::InitUnlock(_)),
    ensures
        state == State::Verified,
        event == Event::UnlockAccount(Fetched::Missing),
{
}

/// A run that finds the unlock account in place resumes where the account
/// stands: at polling while it waits, at the destination once it is
/// unlocked.
pub proof fn existing_account_resumes(plan: Plan, account: Fetched)
    requires
        unlock_reading(account).is_ok(),
    ensures
        unlock_reading(account).unwrap().0 == STATE_WAITING ==> step_of(
            plan,
            State::Verified,
            Event::UnlockAccount(account),
        ) == (State::AccountWaiting, Action::ReadClock(plan.unlock_pda)),
        unlock_reading(account).unwrap().0 == STATE_UNLOCKED ==> step_of(
            plan,
            State::Verified,
            Event::UnlockAccount(account),
        ) == (State::AccountUnlocked, Action::CheckDestination(plan.destination)),
{
}

/// Once the remote clock has reached the deadline of a waiting account, the
/// same step submits `finalize_unlock`; before the deadline it sleeps for
/// the poll interval.
pub proof fn poll_decides_by_deadline(plan: Plan, now: i64, account: Fetched)
    requires
        unlock_reading(account).is_ok(),
        unlock_reading(account).unwrap().0 == STATE_WAITING,
    ensures
        now >= unlock_reading(account).unwrap().1 ==> step_of(
            plan,
            State::AccountWaiting,
            Event::Clock { now, account },
        ) == (State::AccountWaiting, Action::Submit(finalize_request(plan))),
        now < unlock_reading(account).unwrap().1 ==> step_of(
            plan,
            State::AccountWaiting,
            Event::Clock { now, account },
        ) == (State::AccountWaiting, Action::Sleep(POLL_INTERVAL_SECS)),
{
}

/// An unlock address that differs from the recomputed one in any byte
/// fails verification, and the recomputed one passes.
pub proof fn verification_accepts_only_the_derived(plan: Plan, received: Address)
    ensures
        received@ != plan.unlock_pda@ ==> step_of(
            plan,
            State::Unverified,
            Event::AddressReceived(received),
        ) == abort(ClientError::PdaVerificationFailed),
        received@ == plan.unlock_pda@ ==> step_of(
            plan,
            State::Unverified,
            Event::AddressReceived(received),
        ) == (State::Verified, Action::ReadUnlockAccount(plan.unlock_pda)),
{
}

/// A finished run stays finished: no event moves it, and it asks for
/// nothing more.
pub proof fn terminal_states_stay(plan: Plan, event: Event, e: ClientError)
    ensures
        step_of(plan, State::Completed, event) == (State::Completed, Action::Finish),
        step_of(plan, State::Failed(e), event) == abort(e),
{
}

/// How far a run has come: the states in the order of the life cycle.
pub open spec fn progress(state: State) -> nat {
    match state {
        State::Unverified => 0,
        State::Verified => 1,
        State::AccountMissing => 2,
        State::AccountWaiting => 3,
        State::AccountUnlocked => 4,
        State::DestinationReady => 5,
        State::Completed => 6,
        State::Failed(_) => 7,
    }
}

/// No step goes back: a run that does not fail moves forward by at most
/// one stage of the life cycle or stays where it is, except that a verified
/// run may skip the stages that the ledger shows to be done already.
pub proof fn never_steps_back(plan: Plan, state: State, event: Event)
    ensures
        progress(step_of(plan, state, event).0) >= progress(state),
        state != State::Verified && !(step_of(plan, state, event).0 is Failed) ==> progress(
            step_of(plan, state, event).0,
        ) <= progress(state) + 1,
{
}

/// A step asks for a transaction only when it names the state in which
/// the transaction's confirmation is awaited: `init_unlock` while the
/// account is missing, `finalize_unlock` while it waits, the destination's
/// creation while it is unlocked, `withdraw` once the destination is ready.
pub proof fn submissions_match_states(plan: Plan, state: State, event: Event)
    requires
        step_of(plan, state, event).1 is Submit,
    ensures
        match step_of(plan, state, event).1->Submit_0 {
            InstructionRequest::InitUnlock(_) => step_of(plan, state, event).0
                == State::AccountMissing,
            InstructionRequest::FinalizeUnlock(_) => step_of(plan, state, event).0
                == State::AccountWaiting,
            InstructionRequest::CreateAssociatedAccount(_) => step_of(plan, state, event).0
                == State::AccountUnlocked,
            InstructionRequest::Withdraw(_) => step_of(plan, state, event).0
                == State::DestinationReady,
        },
{
}

/// Whatever a run observes, in whatever order, it submits `init_unlock` at
/// most once, and not at all once the unlock account is known to exist.
pub proof fn init_at_most_once(plan: Plan, state: State, events: Seq<Event>)
    ensures
        progress(run_of(plan, state, events).0) >= progress(state),
        count_inits(run_of(plan, state, events).1) <= 1,
        count_inits(run_of(plan, state, events).1) == 1 ==> progress(
            run_of(plan, state, events).0,
        ) >= 2,
        progress(state) >= 2 ==> count_inits(run_of(plan, state, events).1) == 0,
    decreases events.len(),
{
    if events.len() > 0 {
        let before = run_of(plan, state, events.drop_last());
        let last = step_of(plan, before.0, events.last());
        init_at_most_once(plan, state, events.drop_last());
        never_steps_back(plan, before.0, events.last());
        assert(before.1.push(last.1).drop_last() =~= before.1);
        assert(before.1.push(last.1).last() == last.1);
        if is_init(last.1) {
            init_only_when_missing(plan, before.0, events.last());
        }
    }
}

} // verus!
