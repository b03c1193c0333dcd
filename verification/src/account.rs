//! The fixed binary layout of the two remote accounts that the client reads.
//!
//! Both accounts start with an eight-byte header whose first byte tells the
//! account's kind. The fields follow without gaps, integers little-endian.

use vstd::prelude::*;
use crate::address::Address;
use crate::error::ClientError;

verus! {

/// Length of the header in front of every account's fields.
pub const HEADER_LEN: usize = 8;

/// First header byte of a VM state account.
pub const VM_STATE_KIND: u8 = 1;

/// First header byte of an unlock state account.
pub const UNLOCK_STATE_KIND: u8 = 5;

/// Bytes that an unlock state account takes: header, three addresses, the
/// deadline, bump, state and six bytes of padding.
pub const UNLOCK_STATE_LEN: usize = 120;

/// Bytes that a VM state account takes: header, authority, mint, slot,
/// history hash, vault with its bump, lock duration, bump and padding.
pub const VM_STATE_LEN: usize = 152;

/// State byte of an unlock account that has been finalized.
pub const STATE_UNLOCKED: u8 = 1;

/// State byte of an unlock account that waits for its deadline.
pub const STATE_WAITING: u8 = 2;

/// The remote record of one pending or finished unlock.
#[derive(Clone, Copy, Debug, PartialEq, Eq)]
pub struct UnlockStateAccount {
    pub vm: Address,
    pub owner: Address,
    pub address: Address,
    /// Seconds since the epoch after which the unlock may be finalized.
    pub unlock_at: i64,
    pub bump: u8,
    pub state: u8,
}

/// The remote record of the custodial virtual machine.
#[derive(Clone, Copy, Debug, PartialEq, Eq)]
pub struct VmStateAccount {
    pub authority: Address,
    pub mint: Address,
    pub slot: u64,
    /// The vault that holds the funds of every account of the machine.
    pub vault: Address,
    pub vault_bump: u8,
    pub lock_duration: u8,
    pub bump: u8,
}

/// The unsigned number that eight little-endian bytes stand for.
pub open spec fn le_u64(b: Seq<u8>) -> int
    recommends
        b.len() == 8,
{
    b[0] as int + b[1] as int * 0x100 + b[2] as int * 0x1_0000 + b[3] as int * 0x100_0000
        + b[4] as int * 0x1_0000_0000 + b[5] as int * 0x100_0000_0000 + b[6] as int
        * 0x1_0000_0000_0000 + b[7] as int * 0x100_0000_0000_0000
}

/// The two's-complement reading of an unsigned 64-bit number.
pub open spec fn as_signed(v: int) -> int {
    if v < 0x8000_0000_0000_0000 {
        v
    } else {
        v - 0x1_0000_0000_0000_0000
    }
}

/// Whether `data` has the layout of an unlock state account.
pub open spec fn is_unlock_state(data: Seq<u8>) -> bool {
    data.len() == UNLOCK_STATE_LEN && data[0] == UNLOCK_STATE_KIND
}

/// Whether `data` has the layout of a VM state account.
pub open spec fn is_vm_state(data: Seq<u8>) -> bool {
    data.len() == VM_STATE_LEN && data[0] == VM_STATE_KIND
}

/// Whether `account` holds the fields that `data` encodes.
pub open spec fn unlock_state_of(data: Seq<u8>, account: UnlockStateAccount) -> bool {
    &&& account.vm@ == data.subrange(8, 40)
    &&& account.owner@ == data.subrange(40, 72)
    &&& account.address@ == data.subrange(72, 104)
    &&& account.unlock_at == as_signed(le_u64(data.subrange(104, 112)))
    &&& account.bump == data[112]
    &&& account.state == data[113]
}

/// Whether `account` holds the fields that `data` encodes.
pub open spec fn vm_state_of(data: Seq<u8>, account: VmStateAccount) -> bool {
    &&& account.authority@ == data.subrange(8, 40)
    &&& account.mint@ == data.subrange(40, 72)
    &&& account.slot == le_u64(data.subrange(72, 80))
    &&& account.vault@ == data.subrange(112, 144)
    &&& account.vault_bump == data[144]
    &&& account.lock_duration == data[145]
    &&& account.bump == data[146]
}

/// Reads the eight bytes at `at` as a little-endian unsigned number.
fn read_u64(data: &[u8], at: usize) -> (v: u64)
    requires
        at + 8 <= data@.len(),
    ensures
        v == le_u64(data@.subrange(at as int, at + 8)),
{
    let b0: u64 = data[at] as u64;
    let b1: u64 = data[at + 1] as u64;
    let b2: u64 = data[at + 2] as u64;
    let b3: u64 = data[at + 3] as u64;
    let b4: u64 = data[at + 4] as u64;
    let b5: u64 = data[at + 5] as u64;
    let b6: u64 = data[at + 6] as u64;
    let b7: u64 = data[at + 7] as u64;
    b0 + b1 * 0x100 + b2 * 0x1_0000 + b3 * 0x100_0000 + b4 * 0x1_0000_0000 + b5
        * 0x100_0000_0000 + b6 * 0x1_0000_0000_0000 + b7 * 0x100_0000_0000_0000
}

/// Reads the eight bytes at `at` as a little-endian signed number.
fn read_i64(data: &[u8], at: usize) -> (v: i64)
    requires
        at + 8 <= data@.len(),
    ensures
        v == as_signed(le_u64(data@.subrange(at as int, at + 8))),
{
    let raw: u64 = read_u64(data, at);
    if raw < 0x8000_0000_0000_0000 {
        raw as i64
    } else {
        let low: i64 = (raw - 0x8000_0000_0000_0000) as i64;
        low + i64::MIN
    }
}

impl UnlockStateAccount {
    /// Decodes an unlock state account. A payload of another length or of
    /// another kind is corrupt.
    pub fn unpack(data: &[u8]) -> (r: Result<UnlockStateAccount, ClientError>)
        ensures
            is_unlock_state(data@) ==> r.is_ok() && unlock_state_of(data@, r.unwrap()),
            !is_unlock_state(data@) ==> r == Err::<UnlockStateAccount, ClientError>(
                ClientError::CorruptAccount,
            ),
    {
        if data.len() != UNLOCK_STATE_LEN || data[0] != UNLOCK_STATE_KIND {
            return Err(ClientError::CorruptAccount);
        }
        Ok(
            UnlockStateAccount {
                vm: Address::read(data, 8),
                owner: Address::read(data, 40),
                address: Address::read(data, 72),
                unlock_at: read_i64(data, 104),
                bump: data[112],
                state: data[113],
            },
        )
    }

    /// Whether the account has been finalized.
    pub fn is_unlocked(&self) -> (r: bool)
        ensures
            r == (self.state == STATE_UNLOCKED),
    {
        self.state == STATE_UNLOCKED
    }

    /// Whether the account still waits for its deadline.
    pub fn is_waiting(&self) -> (r: bool)
        ensures
            r == (self.state == STATE_WAITING),
    {
        self.state == STATE_WAITING
    }
}

impl VmStateAccount {
    /// Decodes a VM state account. A payload of another length or of
    /// another kind is corrupt.
    pub fn unpack(data: &[u8]) -> (r: Result<VmStateAccount, ClientError>)
        ensures
            is_vm_state(data@) ==> r.is_ok() && vm_state_of(data@, r.unwrap()),
            !is_vm_state(data@) ==> r == Err::<VmStateAccount, ClientError>(
                ClientError::CorruptAccount,
            ),
    {
        if data.len() != VM_STATE_LEN || data[0] != VM_STATE_KIND {
            return Err(ClientError::CorruptAccount);
        }
        Ok(
            VmStateAccount {
                authority: Address::read(data, 8),
                mint: Address::read(data, 40),
                slot: read_u64(data, 72),
                vault: Address::read(data, 112),
                vault_bump: data[144],
                lock_duration: data[145],
                bump: data[146],
            },
        )
    }
}

} // verus!
