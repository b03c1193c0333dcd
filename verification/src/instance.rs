//! The instance hash of one withdrawal attempt: the text `instance_`, the
//! attempt's start time in decimal, and the attempt's nonce.
//!
//! The nonce alone tells two attempts apart, so two attempts within the
//! same second have different hashes as long as their nonces differ.

use vstd::prelude::*;
use crate::address::Address;

verus! {

/// The ASCII text `instance_`.
pub open spec fn instance_prefix() -> Seq<u8> {
    seq![105u8, 110, 115, 116, 97, 110, 99, 101, 95]
}

/// The decimal digits of `n` as ASCII, most significant first; `0` for zero.
pub open spec fn decimal(n: nat) -> Seq<u8>
    decreases n,
{
    if n < 10 {
        seq![(48 + n) as u8]
    } else {
        decimal(n / 10).push((48 + n % 10) as u8)
    }
}

/// A number without its `k` lowest bytes.
pub open spec fn without_low_bytes(n: int, k: nat) -> int
    decreases k,
{
    if k == 0 {
        n
    } else {
        without_low_bytes(n, (k - 1) as nat) / 0x100
    }
}

/// Byte `k` of a number in little-endian order.
pub open spec fn le_byte(n: u64, k: int) -> u8 {
    (without_low_bytes(n as int, k as nat) % 0x100) as u8
}

/// The 32 bytes of the instance hash of one attempt: in the first 24 the
/// text `instance_` and the start time in decimal, padded with zero bytes;
/// in the last eight the attempt's nonce, little-endian.
pub open spec fn instance_bytes(time: u64, nonce: u64) -> Seq<u8> {
    let text = instance_prefix() + decimal(time as nat);
    Seq::new(
        32,
        |i: int|
            if i >= 24 {
                le_byte(nonce, i - 24)
            } else if i < text.len() {
                text[i]
            } else {
                0u8
            },
    )
}

/// A number is the sum of its little-endian bytes, each at its weight.
pub proof fn le_bytes_value(n: u64)
    ensures
        n == le_byte(n, 0) + le_byte(n, 1) * 0x100 + le_byte(n, 2) * 0x1_0000 + le_byte(n, 3)
            * 0x100_0000 + le_byte(n, 4) * 0x1_0000_0000 + le_byte(n, 5) * 0x100_0000_0000
            + le_byte(n, 6) * 0x1_0000_0000_0000 + le_byte(n, 7) * 0x100_0000_0000_0000,
{
    reveal_with_fuel(without_low_bytes, 9);
    let q0 = n as int;
    let q1 = q0 / 0x100;
    let q2 = q1 / 0x100;
    let q3 = q2 / 0x100;
    let q4 = q3 / 0x100;
    let q5 = q4 / 0x100;
    let q6 = q5 / 0x100;
    let q7 = q6 / 0x100;
    assert(without_low_bytes(q0, 7) == q7);
    assert(q0 == q0 % 0x100 + 0x100 * q1);
    assert(q1 == q1 % 0x100 + 0x100 * q2);
    assert(q2 == q2 % 0x100 + 0x100 * q3);
    assert(q3 == q3 % 0x100 + 0x100 * q4);
    assert(q4 == q4 % 0x100 + 0x100 * q5);
    assert(q5 == q5 % 0x100 + 0x100 * q6);
    assert(q6 == q6 % 0x100 + 0x100 * q7);
    assert(0 <= q7 < 0x100);
}

/// Two attempts with different nonces have different instance hashes,
/// whenever they start.
pub proof fn fresh_nonce_fresh_hash(time: u64, nonce: u64, other_time: u64, other_nonce: u64)
    requires
        nonce != other_nonce,
    ensures
        instance_bytes(time, nonce) != instance_bytes(other_time, other_nonce),
{
    let a = instance_bytes(time, nonce);
    let b = instance_bytes(other_time, other_nonce);
    if a == b {
        assert(a[24] == b[24] && a[25] == b[25] && a[26] == b[26] && a[27] == b[27] && a[28]
            == b[28] && a[29] == b[29] && a[30] == b[30] && a[31] == b[31]);
        le_bytes_value(nonce);
        le_bytes_value(other_nonce);
    }
}

/// The decimal digits of a number, most significant first.
pub fn decimal_digits(n: u64) -> (v: Vec<u8>)
    ensures
        v@ == decimal(n as nat),
{
    let mut reversed: Vec<u8> = Vec::new();
    let mut rest: u64 = n;
    assert(decimal(n as nat) + reversed@.reverse() =~= decimal(n as nat));
    // Digits from the least significant up.
    while rest >= 10
        invariant
            decimal(n as nat) == decimal(rest as nat) + reversed@.reverse(),
        decreases rest,
    {
        let digit: u8 = (48 + rest % 10) as u8;
        proof {
            let before = reversed@;
            assert(decimal(rest as nat) == decimal((rest / 10) as nat).push(digit));
            assert(before.push(digit).reverse() =~= seq![digit] + before.reverse());
            assert(decimal((rest / 10) as nat).push(digit) + before.reverse() =~= decimal(
                (rest / 10) as nat,
            ) + (seq![digit] + before.reverse()));
        }
        reversed.push(digit);
        rest = rest / 10;
    }
    let last: u8 = (48 + rest) as u8;
    let mut v: Vec<u8> = Vec::new();
    v.push(last);
    assert(v@ =~= decimal(rest as nat));
    let count: usize = reversed.len();
    let mut i: usize = count;
    while i > 0
        invariant
            i <= count,
            count == reversed@.len(),
            v@ == decimal(rest as nat) + reversed@.reverse().subrange(0, count - i),
        decreases i,
    {
        i -= 1;
        v.push(reversed[i]);
        assert(reversed@.reverse().subrange(0, count - i) =~= reversed@.reverse().subrange(
            0,
            count - i - 1,
        ).push(reversed@[i as int]));
    }
    assert(reversed@.reverse().subrange(0, count as int) =~= reversed@.reverse());
    v
}

/// The instance hash of the attempt with this nonce that starts at `time`,
/// seconds since the epoch.
pub fn instance_hash(time: u64, nonce: u64) -> (r: Address)
    ensures
        r@ == instance_bytes(time, nonce),
{
    let mut text: Vec<u8> = vec![105u8, 110, 115, 116, 97, 110, 99, 101, 95];
    let mut digits = decimal_digits(time);
    text.append(&mut digits);
    assert(text@ =~= instance_prefix() + decimal(time as nat));
    let mut bytes: [u8; 32] = [0u8; 32];
    let len: usize = if text.len() < 24 { text.len() } else { 24 };
    let mut i: usize = 0;
    while i < len
        invariant
            i <= len,
            len <= text@.len(),
            len <= 24,
            len == text@.len() || len == 24,
            forall|j: int| 0 <= j < i ==> bytes@[j] == text@[j],
            forall|j: int| i <= j < 32 ==> bytes@[j] == 0u8,
        decreases len - i,
    {
        bytes[i] = text[i];
        i += 1;
    }
    let ghost padded = instance_prefix() + decimal(time as nat);
    assert(forall|j: int|
        0 <= j < 24 ==> bytes@[j] == (if j < padded.len() {
            padded[j]
        } else {
            0u8
        }));
    let ghost text_part = bytes@;
    let mut rest: u64 = nonce;
    let mut k: usize = 0;
    while k < 8
        invariant
            k <= 8,
            rest == without_low_bytes(nonce as int, k as nat),
            text_part.len() == 32,
            forall|j: int| 0 <= j < 24 ==> bytes@[j] == text_part[j],
            forall|j: int| 24 <= j < 24 + k ==> bytes@[j] == le_byte(nonce, j - 24),
        decreases 8 - k,
    {
        bytes[24 + k] = (rest % 0x100) as u8;
        rest = rest / 0x100;
        k += 1;
    }
    assert forall|j: int| 0 <= j < 32 implies bytes@[j] == instance_bytes(time, nonce)[j] by {
        if j < 24 {
            assert(bytes@[j] == text_part[j]);
        }
    }
    assert(bytes@ =~= instance_bytes(time, nonce));
    Address { bytes }
}

} // verus!
