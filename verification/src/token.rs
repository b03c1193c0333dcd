//! The owner's destination account: its address, and the instruction that
//! creates it.

use vstd::prelude::*;
use crate::address::{derive_address, program_address, Address};
use crate::error::ClientError;
use crate::instruction::{AccountMeta, Instruction};

verus! {

/// Identifier of the program that keeps associated token accounts.
pub open spec fn associated_token_program() -> Seq<u8> {
    seq![
        140u8, 151, 37, 143, 78, 36, 137, 241, 187, 61, 16, 41, 20, 142, 13, 131, 11, 90, 19, 153,
        218, 255, 16, 132, 4, 142, 123, 216, 219, 233, 248, 89,
    ]
}

/// Identifier of the token program.
pub open spec fn token_program() -> Seq<u8> {
    seq![
        6u8, 221, 246, 225, 215, 101, 161, 147, 217, 203, 225, 70, 206, 235, 121, 172, 28, 180,
        133, 237, 95, 91, 55, 145, 58, 140, 245, 133, 126, 255, 0, 169,
    ]
}

/// Identifier of the system program: 32 zero bytes.
pub open spec fn system_program() -> Seq<u8> {
    Seq::new(32, |i: int| 0u8)
}

/// Identifier of the program that keeps associated token accounts.
pub fn associated_token_program_id() -> (a: Address)
    ensures
        a@ == associated_token_program(),
{
    let a = Address {
        bytes: [
            140u8, 151, 37, 143, 78, 36, 137, 241, 187, 61, 16, 41, 20, 142, 13, 131, 11, 90, 19,
            153, 218, 255, 16, 132, 4, 142, 123, 216, 219, 233, 248, 89,
        ],
    };
    assert(a@ =~= associated_token_program());
    a
}

/// Identifier of the token program.
pub fn token_program_id() -> (a: Address)
    ensures
        a@ == token_program(),
{
    let a = Address {
        bytes: [
            6u8, 221, 246, 225, 215, 101, 161, 147, 217, 203, 225, 70, 206, 235, 121, 172, 28,
            180, 133, 237, 95, 91, 55, 145, 58, 140, 245, 133, 126, 255, 0, 169,
        ],
    };
    assert(a@ =~= token_program());
    a
}

/// The token program's identifier as an address.
pub open spec fn token_program_id_spec() -> Address {
    crate::address::address_of(token_program())
}

/// Seeds of an associated account: wallet, token program, mint.
pub open spec fn associated_seeds(wallet: Seq<u8>, program: Seq<u8>, mint: Seq<u8>) -> Seq<Seq<u8>> {
    seq![wallet, program, mint]
}

/// The address that the ledger's derivation gives for a wallet's account of
/// a mint under a token program, if there is one.
pub open spec fn associated_address(wallet: Seq<u8>, program: Seq<u8>, mint: Seq<u8>) -> Option<
    (Seq<u8>, u8),
> {
    program_address(associated_seeds(wallet, program, mint), associated_token_program())
}

/// Calls `spl_associated_token_account::get_associated_token_address`.
/// Trusted: it returns the address derived from the wallet, the token
/// program's identifier and the mint under the associated-token program. It
/// panics where no such address exists, which `requires` rules out.
#[verifier::external_body]
fn get_associated_token_address(wallet: &Address, mint: &Address) -> (a: Address)
    requires
        associated_address(wallet@, token_program(), mint@).is_some(),
    ensures
        a@ == associated_address(wallet@, token_program(), mint@).unwrap().0,
{
    let wallet_key = solana_sdk::pubkey::Pubkey::new_from_array(wallet.bytes);
    let mint_key = solana_sdk::pubkey::Pubkey::new_from_array(mint.bytes);
    let key = spl_associated_token_account::get_associated_token_address(&wallet_key, &mint_key);
    Address { bytes: key.to_bytes() }
}

/// What the instruction that creates an associated account holds: the six
/// accounts in order with their rights, and the one-byte payload.
pub open spec fn is_create_instruction(
    ix: Instruction,
    payer: Address,
    owner: Address,
    mint: Address,
    token_program: Address,
) -> bool {
    &&& associated_address(owner@, token_program@, mint@).is_some()
    &&& ix.program_id@ == associated_token_program()
    &&& ix.accounts@.len() == 6
    &&& ix.accounts@[0] == (AccountMeta { address: payer, is_signer: true, is_writable: true })
    &&& ix.accounts@[1].address@ == associated_address(owner@, token_program@, mint@).unwrap().0
    &&& !ix.accounts@[1].is_signer
    &&& ix.accounts@[1].is_writable
    &&& ix.accounts@[2] == (AccountMeta { address: owner, is_signer: false, is_writable: false })
    &&& ix.accounts@[3] == (AccountMeta { address: mint, is_signer: false, is_writable: false })
    &&& ix.accounts@[4].address@ == system_program()
    &&& !ix.accounts@[4].is_signer
    &&& !ix.accounts@[4].is_writable
    &&& ix.accounts@[5] == (AccountMeta {
        address: token_program,
        is_signer: false,
        is_writable: false,
    })
    &&& ix.data@ == seq![0u8]
}

/// Calls `spl_associated_token_account::instruction::create_associated_token_account`.
/// Trusted: the instruction addresses the associated-token program, lists
/// funding account, new account, wallet, mint, system program and token
/// program with the rights stated, and carries the single byte 0. It panics
/// where the new account's address cannot be derived, which `requires` rules out.
#[verifier::external_body]
fn create_associated_token_account(
    payer: &Address,
    owner: &Address,
    mint: &Address,
    token_program: &Address,
) -> (ix: Instruction)
    requires
        associated_address(owner@, token_program@, mint@).is_some(),
    ensures
        is_create_instruction(ix, *payer, *owner, *mint, *token_program),
{
    let made = spl_associated_token_account::instruction::create_associated_token_account(
        &solana_sdk::pubkey::Pubkey::new_from_array(payer.bytes),
        &solana_sdk::pubkey::Pubkey::new_from_array(owner.bytes),
        &solana_sdk::pubkey::Pubkey::new_from_array(mint.bytes),
        &solana_sdk::pubkey::Pubkey::new_from_array(token_program.bytes),
    );
    Instruction {
        program_id: Address { bytes: made.program_id.to_bytes() },
        accounts: made.accounts.iter().map(|m| AccountMeta {
            address: Address { bytes: m.pubkey.to_bytes() },
            is_signer: m.is_signer,
            is_writable: m.is_writable,
        }).collect(),
        data: made.data,
    }
}

/// The owner's destination account for a mint.
pub fn destination_address(owner: &Address, mint: &Address) -> (r: Result<Address, ClientError>)
    ensures
        match associated_address(owner@, token_program(), mint@) {
            Some(found) => r.is_ok() && r.unwrap()@ == found.0,
            None => r == Err::<Address, ClientError>(ClientError::DerivationExhausted),
        },
{
    let seeds: Vec<Vec<u8>> = vec![owner.to_vec(), token_program_id().to_vec(), mint.to_vec()];
    assert(crate::address::seed_bytes(seeds@) =~= associated_seeds(
        owner@,
        token_program(),
        mint@,
    ));
    match derive_address(&seeds, &associated_token_program_id()) {
        Ok(_) => Ok(get_associated_token_address(owner, mint)),
        Err(e) => Err(e),
    }
}

/// The instruction that creates the owner's destination account for a
/// mint, paid for by `payer`. The new account is the one at
/// `destination_address`, under the token program.
pub fn create_destination_instruction(payer: &Address, owner: &Address, mint: &Address) -> (r:
    Result<Instruction, ClientError>)
    ensures
        match associated_address(owner@, token_program(), mint@) {
            Some(found) => {
                &&& r.is_ok()
                &&& is_create_instruction(r.unwrap(), *payer, *owner, *mint, token_program_id_spec())
                &&& r.unwrap().accounts@[1].address@ == found.0
                &&& r.unwrap().accounts@[5].address@ == token_program()
            },
            None => r == Err::<Instruction, ClientError>(ClientError::DerivationExhausted),
        },
{
    let program = token_program_id();
    proof {
        crate::address::address_of_view(program);
    }
    let seeds: Vec<Vec<u8>> = vec![owner.to_vec(), program.to_vec(), mint.to_vec()];
    assert(crate::address::seed_bytes(seeds@) =~= associated_seeds(
        owner@,
        token_program(),
        mint@,
    ));
    match derive_address(&seeds, &associated_token_program_id()) {
        Ok(_) => Ok(create_associated_token_account(payer, owner, mint, &program)),
        Err(e) => Err(e),
    }
}

} // verus!
