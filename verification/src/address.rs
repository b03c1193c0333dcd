//! Deterministic account addresses: the three program-derived addresses of
//! the unlock protocol, and the check that a received address is the derived
//! one.

use vstd::prelude::*;
use crate::error::ClientError;

verus! {

/// A 32-byte account or program identifier.
#[derive(Clone, Copy, Debug, PartialEq, Eq)]
pub struct Address {
    pub bytes: [u8; 32],
}

impl View for Address {
    type V = Seq<u8>;

    open spec fn view(&self) -> Seq<u8> {
        self.bytes@
    }
}

impl Address {
    /// Compares two addresses byte by byte.
    pub fn same_as(&self, other: &Address) -> (r: bool)
        ensures
            r == (self@ == other@),
    {
        let mut i: usize = 0;
        while i < 32
            invariant
                i <= 32,
                forall|j: int| 0 <= j < i ==> self.bytes@[j] == other.bytes@[j],
            decreases 32 - i,
        {
            if self.bytes[i] != other.bytes[i] {
                return false;
            }
            i += 1;
        }
        assert(self.bytes@ =~= other.bytes@);
        true
    }

    /// The 32 bytes of `data` from `at` on, as an address.
    pub fn read(data: &[u8], at: usize) -> (a: Address)
        requires
            at + 32 <= data@.len(),
        ensures
            a@ == data@.subrange(at as int, at + 32),
    {
        let len: usize = data.len();
        let mut bytes: [u8; 32] = [0u8; 32];
        let mut i: usize = 0;
        while i < 32
            invariant
                i <= 32,
                len == data@.len(),
                at + 32 <= len,
                forall|j: int| 0 <= j < i ==> bytes@[j] == data@[at + j],
            decreases 32 - i,
        {
            bytes[i] = data[at + i];
            i += 1;
        }
        assert(bytes@ =~= data@.subrange(at as int, at + 32));
        Address { bytes }
    }

    /// The address as an owned byte string, for use as a seed.
    pub fn to_vec(&self) -> (v: Vec<u8>)
        ensures
            v@ == self@,
    {
        let mut v: Vec<u8> = Vec::new();
        let mut i: usize = 0;
        while i < 32
            invariant
                i <= 32,
                v@.len() == i,
                forall|j: int| 0 <= j < i ==> v@[j] == self.bytes@[j],
            decreases 32 - i,
        {
            v.push(self.bytes[i]);
            i += 1;
        }
        assert(v@ =~= self.bytes@);
        v
    }
}

/// The address that has these 32 bytes.
pub open spec fn address_of(bytes: Seq<u8>) -> Address {
    choose|a: Address| a@ == bytes
}

/// Addresses with the same bytes are the same address.
pub proof fn same_bytes(a: Address, b: Address)
    requires
        a@ == b@,
    ensures
        a == b,
{
    assert(a.bytes =~= b.bytes);
}

/// An address is the address of its bytes.
pub proof fn address_of_view(a: Address)
    ensures
        address_of(a@) == a,
{
    same_bytes(address_of(a@), a);
}

/// The address and bump seed that the ledger's derivation scheme gives for
/// an ordered seed list under a program identifier, or `None` where no bump
/// seed gives a valid address.
pub uninterp spec fn program_address(seeds: Seq<Seq<u8>>, program: Seq<u8>) -> Option<(Seq<u8>, u8)>;

/// The byte strings that a list of owned seeds holds, in order.
pub open spec fn seed_bytes(seeds: Seq<Vec<u8>>) -> Seq<Seq<u8>> {
    Seq::new(seeds.len(), |i: int| seeds[i]@)
}

/// Whether a seed list is within the scheme's limits: fewer than sixteen
/// seeds, so that the bump seed still has room, and none longer than 32 bytes.
pub open spec fn seeds_fit(seeds: Seq<Seq<u8>>) -> bool {
    seeds.len() < 16 && forall|i: int| 0 <= i < seeds.len() ==> (#[trigger] seeds[i]).len() <= 32
}

/// Calls `solana_sdk::pubkey::Pubkey::try_find_program_address`. Trusted:
/// the result is a function of the seeds and the program identifier alone,
/// named `program_address`; the call returns `None` rather than panicking
/// when a seed is too long, the seeds are too many, or no bump seed fits.
#[verifier::external_body]
fn try_find_program_address(seeds: &Vec<Vec<u8>>, program: &Address) -> (r: Option<(Address, u8)>)
    ensures
        !seeds_fit(seed_bytes(seeds@)) ==> r.is_none(),
        r.is_some() == program_address(seed_bytes(seeds@), program@).is_some(),
        r.is_some() ==> r.unwrap().0@ == program_address(seed_bytes(seeds@), program@).unwrap().0,
        r.is_some() ==> r.unwrap().1 == program_address(seed_bytes(seeds@), program@).unwrap().1,
{
    let parts: Vec<&[u8]> = seeds.iter().map(|s| s.as_slice()).collect();
    let program_id = solana_sdk::pubkey::Pubkey::new_from_array(program.bytes);
    solana_sdk::pubkey::Pubkey::try_find_program_address(&parts, &program_id)
        .map(|(key, bump)| (Address { bytes: key.to_bytes() }, bump))
}

/// What a derivation over `seeds` under `program` must return.
pub open spec fn is_derivation(
    r: Result<(Address, u8), ClientError>,
    seeds: Seq<Seq<u8>>,
    program: Seq<u8>,
) -> bool {
    match program_address(seeds, program) {
        Some(found) => r.is_ok() && r.unwrap().0@ == found.0 && r.unwrap().1 == found.1,
        None => r == Err::<(Address, u8), ClientError>(ClientError::DerivationExhausted),
    }
}

/// Derives the address for an ordered seed list under a program identifier.
/// Seeds beyond the scheme's limits derive nothing.
pub fn derive_address(seeds: &Vec<Vec<u8>>, program: &Address) -> (r: Result<
    (Address, u8),
    ClientError,
>)
    ensures
        is_derivation(r, seed_bytes(seeds@), program@),
        !seeds_fit(seed_bytes(seeds@)) ==> r == Err::<(Address, u8), ClientError>(
            ClientError::DerivationExhausted,
        ),
{
    match try_find_program_address(seeds, program) {
        Some(found) => Ok(found),
        None => Err(ClientError::DerivationExhausted),
    }
}

/// Seed tag of a timelock account: the ASCII text `timelock_state`.
pub open spec fn timelock_tag() -> Seq<u8> {
    seq![116u8, 105, 109, 101, 108, 111, 99, 107, 95, 115, 116, 97, 116, 101]
}

/// Seed tag shared by the virtual machine's accounts: the ASCII text `code_vm`.
pub open spec fn vm_tag() -> Seq<u8> {
    seq![99u8, 111, 100, 101, 95, 118, 109]
}

/// Seed tag of an unlock account: the ASCII text `vm_unlock_pda_account`.
pub open spec fn unlock_tag() -> Seq<u8> {
    seq![
        118u8, 109, 95, 117, 110, 108, 111, 99, 107, 95, 112, 100, 97, 95, 97, 99, 99, 111, 117,
        110, 116,
    ]
}

/// Seed tag of a withdraw receipt: the ASCII text `vm_withdraw_receipt_account`.
pub open spec fn receipt_tag() -> Seq<u8> {
    seq![
        118u8, 109, 95, 119, 105, 116, 104, 100, 114, 97, 119, 95, 114, 101, 99, 101, 105, 112,
        116, 95, 97, 99, 99, 111, 117, 110, 116,
    ]
}

fn timelock_tag_bytes() -> (v: Vec<u8>)
    ensures
        v@ == timelock_tag(),
{
    vec![116u8, 105, 109, 101, 108, 111, 99, 107, 95, 115, 116, 97, 116, 101]
}

fn vm_tag_bytes() -> (v: Vec<u8>)
    ensures
        v@ == vm_tag(),
{
    vec![99u8, 111, 100, 101, 95, 118, 109]
}

fn unlock_tag_bytes() -> (v: Vec<u8>)
    ensures
        v@ == unlock_tag(),
{
    vec![
        118u8, 109, 95, 117, 110, 108, 111, 99, 107, 95, 112, 100, 97, 95, 97, 99, 99, 111, 117,
        110, 116,
    ]
}

fn receipt_tag_bytes() -> (v: Vec<u8>)
    ensures
        v@ == receipt_tag(),
{
    vec![
        118u8, 109, 95, 119, 105, 116, 104, 100, 114, 97, 119, 95, 114, 101, 99, 101, 105, 112,
        116, 95, 97, 99, 99, 111, 117, 110, 116,
    ]
}

/// Seeds of a timelock address: tag, mint, authority, owner, lock duration.
pub open spec fn timelock_seeds(
    mint: Seq<u8>,
    authority: Seq<u8>,
    owner: Seq<u8>,
    lock_duration: u8,
) -> Seq<Seq<u8>> {
    seq![timelock_tag(), mint, authority, owner, seq![lock_duration]]
}

/// Seeds of an unlock address: two tags, owner, timelock address, VM state.
pub open spec fn unlock_seeds(owner: Seq<u8>, timelock: Seq<u8>, vm_state: Seq<u8>) -> Seq<Seq<u8>> {
    seq![vm_tag(), unlock_tag(), owner, timelock, vm_state]
}

/// Seeds of a withdraw receipt: two tags, unlock address, instance hash, VM state.
pub open spec fn receipt_seeds(unlock: Seq<u8>, instance: Seq<u8>, vm_state: Seq<u8>) -> Seq<Seq<u8>> {
    seq![vm_tag(), receipt_tag(), unlock, instance, vm_state]
}

/// Derives the timelock address of an owner under the timelock program.
pub fn find_virtual_timelock_address(
    program: &Address,
    mint: &Address,
    authority: &Address,
    owner: &Address,
    lock_duration: u8,
) -> (r: Result<(Address, u8), ClientError>)
    ensures
        is_derivation(r, timelock_seeds(mint@, authority@, owner@, lock_duration), program@),
{
    let duration: Vec<u8> = vec![lock_duration];
    assert(duration@ =~= seq![lock_duration]);
    let seeds: Vec<Vec<u8>> = vec![
        timelock_tag_bytes(),
        mint.to_vec(),
        authority.to_vec(),
        owner.to_vec(),
        duration,
    ];
    assert(seed_bytes(seeds@) =~= timelock_seeds(mint@, authority@, owner@, lock_duration));
    derive_address(&seeds, program)
}

/// Derives the unlock address of an (owner, timelock) pair under the VM program.
pub fn find_unlock_address(
    program: &Address,
    owner: &Address,
    timelock: &Address,
    vm_state: &Address,
) -> (r: Result<(Address, u8), ClientError>)
    ensures
        is_derivation(r, unlock_seeds(owner@, timelock@, vm_state@), program@),
{
    let seeds: Vec<Vec<u8>> = vec![
        vm_tag_bytes(),
        unlock_tag_bytes(),
        owner.to_vec(),
        timelock.to_vec(),
        vm_state.to_vec(),
    ];
    assert(seed_bytes(seeds@) =~= unlock_seeds(owner@, timelock@, vm_state@));
    derive_address(&seeds, program)
}

/// Derives the receipt address of one withdrawal under the VM program.
pub fn find_withdraw_receipt_address(
    program: &Address,
    unlock: &Address,
    instance_hash: &Address,
    vm_state: &Address,
) -> (r: Result<(Address, u8), ClientError>)
    ensures
        is_derivation(r, receipt_seeds(unlock@, instance_hash@, vm_state@), program@),
{
    let seeds: Vec<Vec<u8>> = vec![
        vm_tag_bytes(),
        receipt_tag_bytes(),
        unlock.to_vec(),
        instance_hash.to_vec(),
        vm_state.to_vec(),
    ];
    assert(seed_bytes(seeds@) =~= receipt_seeds(unlock@, instance_hash@, vm_state@));
    derive_address(&seeds, program)
}

/// Two derivations over the same seeds and program give the same address
/// and the same bump seed, and fail together.
pub proof fn derivation_is_deterministic(
    first: Result<(Address, u8), ClientError>,
    second: Result<(Address, u8), ClientError>,
    seeds: Seq<Seq<u8>>,
    program: Seq<u8>,
)
    requires
        is_derivation(first, seeds, program),
        is_derivation(second, seeds, program),
    ensures
        first.is_ok() == second.is_ok(),
        first.is_ok() ==> first.unwrap().0@ == second.unwrap().0@ && first.unwrap().1
            == second.unwrap().1,
        first.is_err() ==> first == second,
{
}

} // verus!
