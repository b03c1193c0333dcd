//! Requests for the protocol's instructions, in the account order that the
//! remote program expects.

use vstd::prelude::*;
use crate::address::Address;

verus! {

/// One account of an instruction, with the rights that it is passed with.
#[derive(Clone, Copy, Debug, PartialEq, Eq)]
pub struct AccountMeta {
    pub address: Address,
    pub is_signer: bool,
    pub is_writable: bool,
}

/// An instruction ready to be put into a transaction.
#[derive(Clone, Debug, PartialEq, Eq)]
pub struct Instruction {
    pub program_id: Address,
    pub accounts: Vec<AccountMeta>,
    pub data: Vec<u8>,
}

/// Where the withdrawn account's balance is kept.
#[derive(Clone, Copy, Debug, PartialEq, Eq)]
pub enum WithdrawMode {
    /// In a memory account of the machine, at this index.
    FromMemory { account_index: u16 },
}

/// The accounts of `init_unlock` and of `finalize_unlock`, in order.
#[derive(Clone, Copy, Debug, PartialEq, Eq)]
pub struct UnlockRequest {
    pub owner: Address,
    pub payer: Address,
    pub vm_state: Address,
    pub unlock_pda: Address,
}

/// The accounts of `withdraw`, in order, and its payload.
#[derive(Clone, Copy, Debug, PartialEq, Eq)]
pub struct WithdrawRequest {
    pub owner: Address,
    pub payer: Address,
    pub vm_state: Address,
    pub vault: Option<Address>,
    pub memory: Option<Address>,
    pub storage: Option<Address>,
    pub deposit: Option<Address>,
    pub deposit_ata: Option<Address>,
    pub unlock_pda: Address,
    pub receipt_pda: Option<Address>,
    pub destination_ata: Address,
    pub mode: WithdrawMode,
}

/// The accounts from which the owner's destination account is created,
/// under the token program.
#[derive(Clone, Copy, Debug, PartialEq, Eq)]
pub struct CreateAccountRequest {
    pub payer: Address,
    pub owner: Address,
    pub mint: Address,
}

/// An instruction together with the two identities that sign its
/// transaction; the payer also pays the fee.
#[derive(Clone, Debug, PartialEq, Eq)]
pub struct SignedInstruction {
    pub instruction: Instruction,
    pub payer: Address,
    pub owner: Address,
}

/// One of the four actions that the client asks of the ledger.
#[derive(Clone, Copy, Debug, PartialEq, Eq)]
pub enum InstructionRequest {
    InitUnlock(UnlockRequest),
    FinalizeUnlock(UnlockRequest),
    Withdraw(WithdrawRequest),
    CreateAssociatedAccount(CreateAccountRequest),
}

/// The request that starts the waiting period of an unlock.
pub fn init_unlock(owner: Address, payer: Address, vm_state: Address, unlock_pda: Address) -> (r:
    InstructionRequest)
    ensures
        r == InstructionRequest::InitUnlock(UnlockRequest { owner, payer, vm_state, unlock_pda }),
{
    InstructionRequest::InitUnlock(UnlockRequest { owner, payer, vm_state, unlock_pda })
}

/// The request that ends the waiting period once the deadline has passed.
pub fn finalize_unlock(
    owner: Address,
    payer: Address,
    vm_state: Address,
    unlock_pda: Address,
) -> (r: InstructionRequest)
    ensures
        r == InstructionRequest::FinalizeUnlock(
            UnlockRequest { owner, payer, vm_state, unlock_pda },
        ),
{
    InstructionRequest::FinalizeUnlock(UnlockRequest { owner, payer, vm_state, unlock_pda })
}

/// The withdrawal of an unlocked account's balance from a memory account:
/// the vault and the receipt are passed, storage and deposit accounts are not.
pub open spec fn memory_withdrawal(
    owner: Address,
    payer: Address,
    vm_state: Address,
    vault: Address,
    memory: Option<Address>,
    unlock_pda: Address,
    receipt_pda: Address,
    destination_ata: Address,
    account_index: u16,
) -> WithdrawRequest {
    WithdrawRequest {
        owner,
        payer,
        vm_state,
        vault: Some(vault),
        memory,
        storage: None,
        deposit: None,
        deposit_ata: None,
        unlock_pda,
        receipt_pda: Some(receipt_pda),
        destination_ata,
        mode: WithdrawMode::FromMemory { account_index },
    }
}

/// Builds the withdrawal of an unlocked account's balance from a memory account.
pub fn withdraw_from_memory(
    owner: Address,
    payer: Address,
    vm_state: Address,
    vault: Address,
    memory: Option<Address>,
    unlock_pda: Address,
    receipt_pda: Address,
    destination_ata: Address,
    account_index: u16,
) -> (r: WithdrawRequest)
    ensures
        r == memory_withdrawal(
            owner,
            payer,
            vm_state,
            vault,
            memory,
            unlock_pda,
            receipt_pda,
            destination_ata,
            account_index,
        ),
{
    WithdrawRequest {
        owner,
        payer,
        vm_state,
        vault: Some(vault),
        memory,
        storage: None,
        deposit: None,
        deposit_ata: None,
        unlock_pda,
        receipt_pda: Some(receipt_pda),
        destination_ata,
        mode: WithdrawMode::FromMemory { account_index },
    }
}

impl InstructionRequest {
    /// The accounts of a request in the order in which they are passed; an
    /// optional account that is left out keeps its place as `None`.
    pub open spec fn account_order(self) -> Seq<Option<Address>> {
        match self {
            InstructionRequest::InitUnlock(r) => seq![
                Some(r.owner),
                Some(r.payer),
                Some(r.vm_state),
                Some(r.unlock_pda),
            ],
            InstructionRequest::FinalizeUnlock(r) => seq![
                Some(r.owner),
                Some(r.payer),
                Some(r.vm_state),
                Some(r.unlock_pda),
            ],
            InstructionRequest::Withdraw(r) => seq![
                Some(r.owner),
                Some(r.payer),
                Some(r.vm_state),
                r.vault,
                r.memory,
                r.storage,
                r.deposit,
                r.deposit_ata,
                Some(r.unlock_pda),
                r.receipt_pda,
                Some(r.destination_ata),
            ],
            InstructionRequest::CreateAssociatedAccount(r) => seq![
                Some(r.payer),
                Some(r.owner),
                Some(r.mint),
            ],
        }
    }

    /// The identities that sign the transaction of a request: the payer,
    /// who also pays the fee, and the owner.
    pub open spec fn signer_pair(self) -> (Address, Address) {
        match self {
            InstructionRequest::InitUnlock(r) => (r.payer, r.owner),
            InstructionRequest::FinalizeUnlock(r) => (r.payer, r.owner),
            InstructionRequest::Withdraw(r) => (r.payer, r.owner),
            InstructionRequest::CreateAssociatedAccount(r) => (r.payer, r.owner),
        }
    }

    /// The accounts of the request, in order.
    pub fn accounts(&self) -> (v: Vec<Option<Address>>)
        ensures
            v@ == self.account_order(),
    {
        match self {
            InstructionRequest::InitUnlock(r) => vec![
                Some(r.owner),
                Some(r.payer),
                Some(r.vm_state),
                Some(r.unlock_pda),
            ],
            InstructionRequest::FinalizeUnlock(r) => vec![
                Some(r.owner),
                Some(r.payer),
                Some(r.vm_state),
                Some(r.unlock_pda),
            ],
            InstructionRequest::Withdraw(r) => vec![
                Some(r.owner),
                Some(r.payer),
                Some(r.vm_state),
                r.vault,
                r.memory,
                r.storage,
                r.deposit,
                r.deposit_ata,
                Some(r.unlock_pda),
                r.receipt_pda,
                Some(r.destination_ata),
            ],
            InstructionRequest::CreateAssociatedAccount(r) => vec![
                Some(r.payer),
                Some(r.owner),
                Some(r.mint),
            ],
        }
    }

    /// Payer and owner: both sign every transaction.
    pub fn signers(&self) -> (r: (Address, Address))
        ensures
            r == self.signer_pair(),
    {
        match self {
            InstructionRequest::InitUnlock(r) => (r.payer, r.owner),
            InstructionRequest::FinalizeUnlock(r) => (r.payer, r.owner),
            InstructionRequest::Withdraw(r) => (r.payer, r.owner),
            InstructionRequest::CreateAssociatedAccount(r) => (r.payer, r.owner),
        }
    }
}

} // verus!
