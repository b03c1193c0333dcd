//! One run's configuration and identities, the addresses derived from them,
//! and what is read from the ledger.

use vstd::prelude::*;
use crate::account::{
    as_signed, is_unlock_state, is_vm_state, le_u64, unlock_state_of, UnlockStateAccount,
    VmStateAccount, STATE_UNLOCKED, STATE_WAITING,
};
use crate::address::{
    find_unlock_address, find_virtual_timelock_address, find_withdraw_receipt_address,
    program_address, receipt_seeds, timelock_seeds, unlock_seeds, Address,
};
use crate::error::ClientError;
use crate::instruction::{
    memory_withdrawal, withdraw_from_memory, SignedInstruction, WithdrawRequest,
};
use crate::token::{
    associated_address, create_destination_instruction, destination_address, is_create_instruction,
    token_program, token_program_id_spec,
};
use crate::instance::{instance_bytes, instance_hash};

verus! {

/// The constants of a deployment, fixed for every component of a run.
#[derive(Clone, Copy, Debug, PartialEq, Eq)]
pub struct Config {
    /// The program that owns unlock accounts and receipts.
    pub vm_program: Address,
    /// The program under which timelock addresses are derived.
    pub timelock_program: Address,
    pub vm_state: Address,
    pub mint: Address,
    pub vm_authority: Address,
    pub lock_duration: u8,
}

/// What reading an account from the ledger gave.
#[derive(Clone, Debug, PartialEq, Eq)]
pub enum Fetched {
    /// The account exists; its raw payload.
    Found(Vec<u8>),
    /// No account exists at the address.
    Missing,
    /// The ledger could not be reached.
    Unreachable,
}

/// Where an unlock account stands in its life cycle.
#[derive(Clone, Copy, Debug, PartialEq, Eq)]
pub enum UnlockPhase {
    /// It waits for this deadline, in seconds since the epoch.
    Waiting { unlock_at: i64 },
    /// It has been finalized.
    Unlocked,
}

/// State byte and deadline of what was read at the unlock address.
pub open spec fn unlock_reading(fetched: Fetched) -> Result<(u8, i64), ClientError> {
    match fetched {
        Fetched::Found(data) => if is_unlock_state(data@) {
            Ok((data@[113], as_signed(le_u64(data@.subrange(104, 112))) as i64))
        } else {
            Err(ClientError::CorruptAccount)
        },
        Fetched::Missing => Err(ClientError::NotFound),
        Fetched::Unreachable => Err(ClientError::TransportError),
    }
}

/// The phase that a reading stands for: a state byte that is neither
/// waiting nor unlocked is invalid.
pub open spec fn phase_of(reading: Result<(u8, i64), ClientError>) -> Result<
    UnlockPhase,
    ClientError,
> {
    match reading {
        Err(e) => Err(e),
        Ok(found) => if found.0 == STATE_UNLOCKED {
            Ok(UnlockPhase::Unlocked)
        } else if found.0 == STATE_WAITING {
            Ok(UnlockPhase::Waiting { unlock_at: found.1 })
        } else {
            Err(ClientError::InvalidUnlockState)
        },
    }
}

/// What comparing a received address with the outcome of a derivation
/// gives: the derivation's own error, a mismatch, or success.
pub open spec fn comparison(expected: Result<(Address, u8), ClientError>, received: Seq<u8>) -> Result<
    (),
    ClientError,
> {
    match expected {
        Ok(found) => if received == found.0@ {
            Ok(())
        } else {
            Err(ClientError::PdaVerificationFailed)
        },
        Err(e) => Err(e),
    }
}

/// Compares a received address with the outcome of a derivation.
pub fn compare_address(expected: &Result<(Address, u8), ClientError>, received: &Address) -> (r:
    Result<(), ClientError>)
    ensures
        r == comparison(*expected, received@),
{
    match expected {
        Ok(found) => if found.0.same_as(received) {
            Ok(())
        } else {
            Err(ClientError::PdaVerificationFailed)
        },
        Err(e) => Err(*e),
    }
}

/// Everything one withdrawal needs besides the ledger.
#[derive(Clone, Copy, Debug, PartialEq, Eq)]
pub struct WithdrawContext {
    pub config: Config,
    /// Public key of the identity that controls the locked funds.
    pub owner: Address,
    /// Public key of the identity that pays the fees.
    pub payer: Address,
    pub instance_hash: Address,
    pub account_index: u16,
    pub vm_memory: Option<Address>,
}

/// The index of the owner's account in the machine's memory.
pub fn get_account_index() -> (r: u16)
    ensures
        r == 0,
{
    0
}

impl WithdrawContext {
    /// The timelock address of this run's owner, with its bump seed.
    pub open spec fn timelock(&self) -> Option<(Seq<u8>, u8)> {
        program_address(
            timelock_seeds(
                self.config.mint@,
                self.config.vm_authority@,
                self.owner@,
                self.config.lock_duration,
            ),
            self.config.timelock_program@,
        )
    }

    /// The unlock address of this run's owner, with its bump seed.
    pub open spec fn unlock(&self) -> Option<(Seq<u8>, u8)> {
        match self.timelock() {
            Some(t) => program_address(
                unlock_seeds(self.owner@, t.0, self.config.vm_state@),
                self.config.vm_program@,
            ),
            None => None,
        }
    }

    /// The receipt address of this run's withdrawal, with its bump seed.
    pub open spec fn receipt(&self) -> Option<(Seq<u8>, u8)> {
        match self.unlock() {
            Some(u) => program_address(
                receipt_seeds(u.0, self.instance_hash@, self.config.vm_state@),
                self.config.vm_program@,
            ),
            None => None,
        }
    }

    /// A context for the attempt with this nonce that starts at
    /// `current_time`, seconds since the epoch: the instance hash holds
    /// both, the account index is the first, and no memory account is named.
    pub fn new(
        config: Config,
        owner: Address,
        payer: Address,
        current_time: u64,
        nonce: u64,
    ) -> (r: Self)
        ensures
            r.config == config,
            r.owner == owner,
            r.payer == payer,
            r.instance_hash@ == instance_bytes(current_time, nonce),
            r.account_index == 0,
            r.vm_memory.is_none(),
    {
        WithdrawContext {
            config,
            owner,
            payer,
            instance_hash: instance_hash(current_time, nonce),
            account_index: get_account_index(),
            vm_memory: None,
        }
    }

    /// Timelock address, unlock address, receipt address and the receipt's
    /// bump seed, each derived from the one before.
    pub fn get_withdraw_pdas(&self) -> (r: Result<(Address, Address, Address, u8), ClientError>)
        ensures
            match self.receipt() {
                Some(found) => {
                    &&& r.is_ok()
                    &&& r.unwrap().0@ == self.timelock().unwrap().0
                    &&& r.unwrap().1@ == self.unlock().unwrap().0
                    &&& r.unwrap().2@ == found.0
                    &&& r.unwrap().3 == found.1
                },
                None => r == Err::<(Address, Address, Address, u8), ClientError>(
                    ClientError::DerivationExhausted,
                ),
            },
    {
        let timelock = match find_virtual_timelock_address(
            &self.config.timelock_program,
            &self.config.mint,
            &self.config.vm_authority,
            &self.owner,
            self.config.lock_duration,
        ) {
            Ok(found) => found.0,
            Err(e) => { return Err(e); },
        };
        let unlock = match find_unlock_address(
            &self.config.vm_program,
            &self.owner,
            &timelock,
            &self.config.vm_state,
        ) {
            Ok(found) => found.0,
            Err(e) => { return Err(e); },
        };
        match find_withdraw_receipt_address(
            &self.config.vm_program,
            &unlock,
            &self.instance_hash,
            &self.config.vm_state,
        ) {
            Ok(found) => Ok((timelock, unlock, found.0, found.1)),
            Err(e) => Err(e),
        }
    }

    /// What checking a received unlock address must return: success for
    /// the address recomputed from the seeds, and for no other.
    pub open spec fn verification(&self, received: Seq<u8>) -> Result<(), ClientError> {
        match self.unlock() {
            Some(expected) => if received == expected.0 {
                Ok(())
            } else {
                Err(ClientError::PdaVerificationFailed)
            },
            None => Err(ClientError::DerivationExhausted),
        }
    }

    /// Checks an unlock address that was computed elsewhere against the one
    /// recomputed here from the seeds.
    pub fn verify_unlock_address(&self, received: &Address) -> (r: Result<(), ClientError>)
        ensures
            r == self.verification(received@),
    {
        let timelock = match find_virtual_timelock_address(
            &self.config.timelock_program,
            &self.config.mint,
            &self.config.vm_authority,
            &self.owner,
            self.config.lock_duration,
        ) {
            Ok(found) => found.0,
            Err(e) => { return Err(e); },
        };
        let expected = find_unlock_address(
            &self.config.vm_program,
            &self.owner,
            &timelock,
            &self.config.vm_state,
        );
        compare_address(&expected, received)
    }

    /// Decodes what was read at the unlock address.
    pub fn get_unlock_state(fetched: &Fetched) -> (r: Result<UnlockStateAccount, ClientError>)
        ensures
            match *fetched {
                Fetched::Found(data) => if is_unlock_state(data@) {
                    r.is_ok() && unlock_state_of(data@, r.unwrap())
                } else {
                    r == Err::<UnlockStateAccount, ClientError>(ClientError::CorruptAccount)
                },
                Fetched::Missing => r == Err::<UnlockStateAccount, ClientError>(
                    ClientError::NotFound,
                ),
                Fetched::Unreachable => r == Err::<UnlockStateAccount, ClientError>(
                    ClientError::TransportError,
                ),
            },
    {
        match fetched {
            Fetched::Found(data) => UnlockStateAccount::unpack(data.as_slice()),
            Fetched::Missing => Err(ClientError::NotFound),
            Fetched::Unreachable => Err(ClientError::TransportError),
        }
    }

    /// The phase of what was read at the unlock address. Waiting is an
    /// outcome, no error; absence comes back as `NotFound`, from which
    /// the caller initializes the account.
    pub fn verify_account_state(fetched: &Fetched) -> (r: Result<UnlockPhase, ClientError>)
        ensures
            r == phase_of(unlock_reading(*fetched)),
    {
        match Self::get_unlock_state(fetched) {
            Ok(state) => if state.is_unlocked() {
                Ok(UnlockPhase::Unlocked)
            } else if state.is_waiting() {
                Ok(UnlockPhase::Waiting { unlock_at: state.unlock_at })
            } else {
                Err(ClientError::InvalidUnlockState)
            },
            Err(e) => Err(e),
        }
    }

    /// What building the withdrawal from the raw VM state must return.
    pub open spec fn is_withdrawal(
        &self,
        vm: Fetched,
        destination_ata: Address,
        r: Result<WithdrawRequest, ClientError>,
    ) -> bool {
        match vm {
            Fetched::Found(data) => if !is_vm_state(data@) {
                r == Err::<WithdrawRequest, ClientError>(ClientError::CorruptAccount)
            } else if self.receipt().is_none() {
                r == Err::<WithdrawRequest, ClientError>(ClientError::DerivationExhausted)
            } else {
                &&& r.is_ok()
                &&& r.unwrap().vault.is_some()
                &&& r.unwrap().vault.unwrap()@ == data@.subrange(112, 144)
                &&& r.unwrap().receipt_pda.is_some()
                &&& r.unwrap().receipt_pda.unwrap()@ == self.receipt().unwrap().0
                &&& r.unwrap().unlock_pda@ == self.unlock().unwrap().0
                &&& r.unwrap() == memory_withdrawal(
                    self.owner,
                    self.payer,
                    self.config.vm_state,
                    r.unwrap().vault.unwrap(),
                    self.vm_memory,
                    r.unwrap().unlock_pda,
                    r.unwrap().receipt_pda.unwrap(),
                    destination_ata,
                    self.account_index,
                )
            },
            Fetched::Missing => r == Err::<WithdrawRequest, ClientError>(ClientError::NotFound),
            Fetched::Unreachable => r == Err::<WithdrawRequest, ClientError>(
                ClientError::TransportError,
            ),
        }
    }

    /// The withdrawal for this run, given the raw VM state account and the
    /// destination: decoding comes first, then the derivation.
    pub fn create_withdraw_ix(&self, vm: &Fetched, destination_ata: &Address) -> (r: Result<
        WithdrawRequest,
        ClientError,
    >)
        ensures
            self.is_withdrawal(*vm, *destination_ata, r),
    {
        let data = match vm {
            Fetched::Found(data) => data,
            Fetched::Missing => { return Err(ClientError::NotFound); },
            Fetched::Unreachable => { return Err(ClientError::TransportError); },
        };
        let vm_data = match VmStateAccount::unpack(data.as_slice()) {
            Ok(account) => account,
            Err(e) => { return Err(e); },
        };
        match self.get_withdraw_pdas() {
            Ok(pdas) => Ok(
                withdraw_from_memory(
                    self.owner,
                    self.payer,
                    self.config.vm_state,
                    vm_data.vault,
                    self.vm_memory,
                    pdas.1,
                    pdas.2,
                    *destination_ata,
                    self.account_index,
                ),
            ),
            Err(e) => Err(e),
        }
    }
}

/// What setting up the destination must return: the owner's account for
/// the mint and, where the ledger holds no account there, the instruction
/// that creates an account at that very address, signed by payer and owner.
pub open spec fn is_destination_setup(
    context: WithdrawContext,
    looked: Fetched,
    r: Result<(Address, Option<SignedInstruction>), ClientError>,
) -> bool {
    match associated_address(context.owner@, token_program(), context.config.mint@) {
        None => r == Err::<(Address, Option<SignedInstruction>), ClientError>(
            ClientError::DerivationExhausted,
        ),
        Some(found) => match looked {
            Fetched::Unreachable => r == Err::<(Address, Option<SignedInstruction>), ClientError>(
                ClientError::TransportError,
            ),
            Fetched::Found(_) => r.is_ok() && r.unwrap().0@ == found.0 && r.unwrap().1.is_none(),
            Fetched::Missing => {
                &&& r.is_ok()
                &&& r.unwrap().0@ == found.0
                &&& r.unwrap().1.is_some()
                &&& r.unwrap().1.unwrap().payer == context.payer
                &&& r.unwrap().1.unwrap().owner == context.owner
                &&& is_create_instruction(
                    r.unwrap().1.unwrap().instruction,
                    context.payer,
                    context.owner,
                    context.config.mint,
                    token_program_id_spec(),
                )
                &&& r.unwrap().1.unwrap().instruction.accounts@[1].address@ == r.unwrap().0@
                &&& r.unwrap().1.unwrap().instruction.accounts@[5].address@ == token_program()
            },
        },
    }
}

/// The owner's destination address and, where what was read there shows no
/// account, the instruction that creates it. A failed read is no absence.
pub fn setup_destination_ata(context: &WithdrawContext, looked: &Fetched) -> (r: Result<
    (Address, Option<SignedInstruction>),
    ClientError,
>)
    ensures
        is_destination_setup(*context, *looked, r),
{
    let destination = match destination_address(&context.owner, &context.config.mint) {
        Ok(found) => found,
        Err(e) => { return Err(e); },
    };
    match looked {
        Fetched::Found(_) => Ok((destination, None)),
        Fetched::Unreachable => Err(ClientError::TransportError),
        Fetched::Missing => match create_destination_instruction(
            &context.payer,
            &context.owner,
            &context.config.mint,
        ) {
            Ok(instruction) => Ok(
                (
                    destination,
                    Some(
                        SignedInstruction {
                            instruction,
                            payer: context.payer,
                            owner: context.owner,
                        },
                    ),
                ),
            ),
            Err(e) => Err(e),
        },
    }
}

/// An unlock address derived from altered seeds fails verification, as long
/// as the altered seeds do not happen to derive the very same address.
pub proof fn altered_seeds_fail_verification(context: WithdrawContext, altered: WithdrawContext)
    requires
        context.unlock().is_some(),
        altered.unlock().is_some(),
        altered.unlock().unwrap().0 != context.unlock().unwrap().0,
    ensures
        context.verification(altered.unlock().unwrap().0) == Err::<(), ClientError>(
            ClientError::PdaVerificationFailed,
        ),
        context.verification(context.unlock().unwrap().0) == Ok::<(), ClientError>(()),
{
}

} // verus!
